//! The marshaled string handle.
//!
//! The host engine exchanges text through length-prefixed byte buffers in a
//! single-byte charset. The handle here is strict: it is built only from
//! text whose every character is representable (ASCII), holds exactly one
//! byte per character, and converts back to the same text. Text with a
//! non-representable character is rejected before any buffer exists;
//! nothing is dropped, substituted or escaped. The host's length prefix is
//! 32 bits wide, so a buffer never holds more than `u32::MAX` bytes.

use vstd::prelude::*;

verus! {

use vstd::string::is_ascii_spec_bytes;
use vstd::utf8::is_ascii_chars;

/// The buffer that stands for a text: one byte per character, in order.
pub open spec fn text_bytes(s: Seq<char>) -> Seq<u8> {
    Seq::new(s.len(), |i: int| s[i] as u8)
}

/// The text that a buffer holds: one character per byte, in order.
pub open spec fn bytes_text(b: Seq<u8>) -> Seq<char> {
    Seq::new(b.len(), |i: int| b[i] as char)
}

/// Every byte of the buffer is in the representable (ASCII) range.
pub open spec fn is_ascii_bytes(b: Seq<u8>) -> bool {
    forall|i: int| 0 <= i < b.len() ==> b[i] < 0x80
}

/// Converting representable text to its buffer and back yields the text
/// unchanged.
pub proof fn lemma_text_round_trip(s: Seq<char>)
    requires
        is_ascii_chars(s),
    ensures
        bytes_text(text_bytes(s)) == s,
{
    assert forall|i: int| 0 <= i < s.len() implies bytes_text(text_bytes(s))[i] == s[i] by {
        assert('\0' <= s[i] <= '\u{7f}');
    }
    assert(bytes_text(text_bytes(s)) =~= s);
}

/// Converting a representable buffer to its text and back yields the buffer
/// unchanged.
pub proof fn lemma_bytes_round_trip(b: Seq<u8>)
    requires
        is_ascii_bytes(b),
    ensures
        text_bytes(bytes_text(b)) == b,
{
    assert forall|i: int| 0 <= i < b.len() implies text_bytes(bytes_text(b))[i] == b[i] by {
        assert(b[i] < 0x80);
    }
    assert(text_bytes(bytes_text(b)) =~= b);
}

/// A marshaled string handle: the sole owner of one text buffer, released
/// with the handle. Its view is the buffer's contents.
pub struct TBStr {
    text: String,
}

impl View for TBStr {
    type V = Seq<u8>;

    closed spec fn view(&self) -> Seq<u8> {
        text_bytes(self.text@)
    }
}

impl TBStr {
    /// The handle owns a representable buffer that fits the host's 32-bit
    /// length prefix.
    pub closed spec fn wf(&self) -> bool {
        &&& is_ascii_chars(self.text@)
        &&& self.text@.len() <= u32::MAX
    }

    /// What well-formedness says of the buffer itself.
    pub proof fn lemma_wf(&self)
        requires
            self.wf(),
        ensures
            is_ascii_bytes(self@),
            self@.len() <= u32::MAX,
    {
        assert forall|i: int| 0 <= i < self@.len() implies self@[i] < 0x80 by {
            assert('\0' <= self.text@[i] <= '\u{7f}');
        }
    }

    /// Builds a handle from representable text. A text with a character
    /// outside the representable charset is refused by the precondition,
    /// before any buffer is made.
    pub fn from_text(s: &str) -> (r: TBStr)
        requires
            s.is_ascii(),
            s@.len() <= u32::MAX,
        ensures
            r@ == text_bytes(s@),
            r.wf(),
    {
        TBStr { text: s.to_owned() }
    }

    /// Builds a handle from any text, reporting rather than presuming
    /// representability: the handle exists exactly when every character is
    /// representable and the text fits the host's length prefix.
    pub fn try_from_text(s: &str) -> (r: Option<TBStr>)
        ensures
            r is Some <==> (s.is_ascii() && s@.len() <= u32::MAX),
            r is Some ==> r->0@ == text_bytes(s@) && r->0.wf(),
    {
        if s.is_ascii() {
            proof {
                is_ascii_spec_bytes(s);
            }
            let bytes = s.as_bytes();
            if bytes.len() <= u32::MAX as usize {
                Some(TBStr::from_text(s))
            } else {
                None
            }
        } else {
            None
        }
    }

    /// The buffer's length in storage units (bytes), as the host's length
    /// prefix carries it.
    pub fn len(&self) -> (r: u32)
        requires
            self.wf(),
        ensures
            r == self@.len(),
    {
        let text = self.text.as_str();
        proof {
            is_ascii_spec_bytes(text);
        }
        text.len() as u32
    }

    /// The buffer's contents, for handing across the ABI boundary.
    pub fn as_bytes(&self) -> (r: &[u8])
        requires
            self.wf(),
        ensures
            r@ == self@,
    {
        let text = self.text.as_str();
        proof {
            is_ascii_spec_bytes(text);
        }
        let r = text.as_bytes();
        proof {
            assert(r@ =~= self@);
        }
        r
    }

    /// Reconstructs the text that the buffer's current contents hold.
    pub fn to_string(&self) -> (r: String)
        requires
            self.wf(),
        ensures
            r@ == bytes_text(self@),
    {
        proof {
            lemma_text_round_trip(self.text@);
        }
        self.text.clone()
    }
}

} // verus!
