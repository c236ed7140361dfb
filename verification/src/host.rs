//! The host entry-point surface.
//!
//! Every operation of the binding resolves one named function exported by
//! the host's dynamic library and calls it with marshaled arguments. The
//! resolution and the call cross an ABI boundary and stand outside the
//! verified library; this module states everything around them: the fixed
//! library and entry-point names, the exact payload each registration or
//! error-reporting call carries, and how a host reply decodes.

use vstd::prelude::*;

verus! {

use crate::return_type::ReturnType;
use crate::error::RunTimeError;
use crate::tbstr::TBStr;
use crate::tbstr::text_bytes;
use vstd::string::StrSliceExecFns;

/// The equate-type code that makes `AddEquate` register a text constant.
pub const STRING_EQUATE_TYPE: i32 = 5;

/// The `LoadSymbol` overwrite flag: an existing registration under the same
/// name is always replaced.
pub const FORCE_OVERWRITE: i32 = 1;

/// The fixed file name of the host's dynamic library.
pub open spec fn spec_library_name() -> Seq<char> {
    "thinCore.dll"@
}

/// The file name under which every operation (re)opens the host library.
pub fn library_name() -> (r: &'static str)
    ensures
        r@ == spec_library_name(),
{
    "thinCore.dll"
}

/// One named function exported by the host library.
#[derive(Clone, Copy, Debug, PartialEq, Eq, Structural)]
pub enum EntryPoint {
    /// Registers an externally compiled function under a name.
    LoadSymbol,
    /// Registers a named constant.
    AddEquate,
    /// Parses a 16-bit signed integer token.
    ParseInteger,
    /// Parses a 32-bit signed integer token.
    ParseLong,
    /// Parses a 64-bit signed integer token.
    ParseQuad,
    /// Parses an 8-bit unsigned integer token.
    ParseByte,
    /// Parses a 16-bit unsigned integer token.
    ParseWord,
    /// Parses a 32-bit unsigned integer token.
    ParseDWord,
    /// Parses a 32-bit floating-point token.
    ParseSingle,
    /// Parses a 64-bit floating-point token.
    ParseDouble,
    /// Parses a text token into a marshaled string buffer.
    ParseStr,
    /// Demands a comma at the cursor; its absence raises a host syntax error.
    CheckCommaMandatory,
    /// Reports whether a comma is at the cursor.
    CheckCommaOptional,
    /// Demands an open parenthesis at the cursor.
    CheckOpenParensMandatory,
    /// Reports whether an open parenthesis is at the cursor.
    CheckOpenParensOptional,
    /// Demands a close parenthesis at the cursor.
    CheckCloseParensMandatory,
    /// Reports whether a close parenthesis is at the cursor.
    CheckCloseParensOptional,
    /// Fetches the host's last recorded runtime error code.
    GetLastError,
    /// Reports whether the host is in an error-free state.
    ErrorFree,
    /// Raises a runtime error of a given code with a description.
    RaiseRunTimeError,
}

impl EntryPoint {
    /// The exported name each entry point resolves to, fixed by the host ABI.
    pub open spec fn spec_exported_name(self) -> Seq<char> {
        match self {
            EntryPoint::LoadSymbol => "thinBasic_LoadSymbol"@,
            EntryPoint::AddEquate => "thinBasic_AddEquate"@,
            EntryPoint::ParseInteger => "thinBasic_ParseInteger"@,
            EntryPoint::ParseLong => "thinBasic_ParseLong"@,
            EntryPoint::ParseQuad => "thinBasic_ParseQuad"@,
            EntryPoint::ParseByte => "thinBasic_ParseByte"@,
            EntryPoint::ParseWord => "thinBasic_ParseWord"@,
            EntryPoint::ParseDWord => "thinBasic_ParseDWord"@,
            EntryPoint::ParseSingle => "thinBasic_ParseSingle"@,
            EntryPoint::ParseDouble => "thinBasic_ParseDouble"@,
            EntryPoint::ParseStr => "thinBasic_ParseStr"@,
            EntryPoint::CheckCommaMandatory => "thinBasic_CheckComma_Mandatory"@,
            EntryPoint::CheckCommaOptional => "thinBasic_CheckComma_Optional"@,
            EntryPoint::CheckOpenParensMandatory => "thinBasic_CheckOpenParens_Mandatory"@,
            EntryPoint::CheckOpenParensOptional => "thinBasic_CheckOpenParens_Optional"@,
            EntryPoint::CheckCloseParensMandatory => "thinBasic_CheckCloseParens_Mandatory"@,
            EntryPoint::CheckCloseParensOptional => "thinBasic_CheckCloseParens_Optional"@,
            EntryPoint::GetLastError => "thinBasic_GetLastError"@,
            EntryPoint::ErrorFree => "thinBasic_ErrorFree"@,
            EntryPoint::RaiseRunTimeError => "thinBasic_RunTimeError"@,
        }
    }

    /// The exported name to resolve in the host library.
    pub fn exported_name(self) -> (r: &'static str)
        ensures
            r@ == self.spec_exported_name(),
    {
        match self {
            EntryPoint::LoadSymbol => "thinBasic_LoadSymbol",
            EntryPoint::AddEquate => "thinBasic_AddEquate",
            EntryPoint::ParseInteger => "thinBasic_ParseInteger",
            EntryPoint::ParseLong => "thinBasic_ParseLong",
            EntryPoint::ParseQuad => "thinBasic_ParseQuad",
            EntryPoint::ParseByte => "thinBasic_ParseByte",
            EntryPoint::ParseWord => "thinBasic_ParseWord",
            EntryPoint::ParseDWord => "thinBasic_ParseDWord",
            EntryPoint::ParseSingle => "thinBasic_ParseSingle",
            EntryPoint::ParseDouble => "thinBasic_ParseDouble",
            EntryPoint::ParseStr => "thinBasic_ParseStr",
            EntryPoint::CheckCommaMandatory => "thinBasic_CheckComma_Mandatory",
            EntryPoint::CheckCommaOptional => "thinBasic_CheckComma_Optional",
            EntryPoint::CheckOpenParensMandatory => "thinBasic_CheckOpenParens_Mandatory",
            EntryPoint::CheckOpenParensOptional => "thinBasic_CheckOpenParens_Optional",
            EntryPoint::CheckCloseParensMandatory => "thinBasic_CheckCloseParens_Mandatory",
            EntryPoint::CheckCloseParensOptional => "thinBasic_CheckCloseParens_Optional",
            EntryPoint::GetLastError => "thinBasic_GetLastError",
            EntryPoint::ErrorFree => "thinBasic_ErrorFree",
            EntryPoint::RaiseRunTimeError => "thinBasic_RunTimeError",
        }
    }
}

/// Normalizes a boolean-flavored host reply: the ABI hands back an integer
/// where exactly zero means false or absent, and every non-zero value means
/// true or present.
pub fn decode_host_bool(raw: i32) -> (r: bool)
    ensures
        r == (raw != 0),
{
    raw != 0
}

/// The marshaled payload of one `LoadSymbol` registration: everything the
/// call carries besides the registered function's address.
pub struct LoadSymbolCall {
    /// The name the host registers the function under.
    pub symbol_name: TBStr,
    /// The ABI code of the function's declared return type.
    pub return_type_code: i32,
    /// Always `FORCE_OVERWRITE`: a previous registration is replaced.
    pub force_overwrite: i32,
}

/// Marshals a function registration: the name crosses as a string handle,
/// the return-type tag as its ABI code, and the overwrite flag is always set.
pub fn load_symbol_call(symbol_name: &str, return_type: ReturnType) -> (c: LoadSymbolCall)
    requires
        symbol_name.is_ascii(),
        symbol_name@.len() <= u32::MAX,
    ensures
        c.symbol_name@ == text_bytes(symbol_name@),
        c.symbol_name.wf(),
        c.return_type_code == return_type.spec_code(),
        c.force_overwrite == FORCE_OVERWRITE,
{
    LoadSymbolCall {
        symbol_name: TBStr::from_text(symbol_name),
        return_type_code: return_type.code(),
        force_overwrite: FORCE_OVERWRITE,
    }
}

/// The sentinel prefix that every equate name must carry.
pub open spec fn spec_has_equate_prefix(name: Seq<char>) -> bool {
    name.len() > 0 && name[0] == '$'
}

/// Reports whether a name carries the sentinel prefix that the host demands
/// of every registered constant.
pub fn has_equate_prefix(name: &str) -> (r: bool)
    ensures
        r == spec_has_equate_prefix(name@),
{
    if name.is_empty() {
        false
    } else {
        name.get_char(0) == '$'
    }
}

/// The marshaled payload of one `AddEquate` registration of a text constant.
pub struct AddEquateCall {
    /// The constant's name, sentinel prefix included.
    pub symbol_name: TBStr,
    /// The constant's text value.
    pub symbol_value: TBStr,
    /// Low word of the numeric-value slot. The host takes a numeric equate's
    /// value as an 80-bit float; for a text equate both words stay zero.
    pub numeric_low: i64,
    /// High word of the numeric-value slot; zero for a text equate.
    pub numeric_high: i16,
    /// Always `STRING_EQUATE_TYPE`: the constant is text-valued.
    pub equate_type: i32,
}

/// Marshals the registration of a text constant. The name must carry the
/// sentinel prefix; a name without it is refused here, before any host call
/// exists.
pub fn string_equate_call(symbol_name: &str, symbol_value: &str) -> (c: AddEquateCall)
    requires
        spec_has_equate_prefix(symbol_name@),
        symbol_name.is_ascii(),
        symbol_name@.len() <= u32::MAX,
        symbol_value.is_ascii(),
        symbol_value@.len() <= u32::MAX,
    ensures
        c.symbol_name@ == text_bytes(symbol_name@),
        c.symbol_name.wf(),
        c.symbol_value@ == text_bytes(symbol_value@),
        c.symbol_value.wf(),
        c.numeric_low == 0,
        c.numeric_high == 0,
        c.equate_type == STRING_EQUATE_TYPE,
{
    AddEquateCall {
        symbol_name: TBStr::from_text(symbol_name),
        symbol_value: TBStr::from_text(symbol_value),
        numeric_low: 0,
        numeric_high: 0,
        equate_type: STRING_EQUATE_TYPE,
    }
}

/// The marshaled payload of one `RunTimeError` report.
pub struct RaiseErrorCall {
    /// The ABI value of the raised code.
    pub error_code: i32,
    /// The free-text description attached to the report.
    pub description: TBStr,
}

/// Marshals an error report: the code crosses as its ABI value, the
/// description as a string handle.
pub fn raise_error_call(error: RunTimeError, description: &str) -> (c: RaiseErrorCall)
    requires
        description.is_ascii(),
        description@.len() <= u32::MAX,
    ensures
        c.error_code == error.spec_code(),
        c.description@ == text_bytes(description@),
        c.description.wf(),
{
    RaiseErrorCall { error_code: error.code(), description: TBStr::from_text(description) }
}

/// The scratch handle handed to the text-token parse entry point as its
/// output buffer, which the host overwrites with the parsed text.
pub fn parse_scratch_handle() -> (r: TBStr)
    ensures
        r.wf(),
        r@ == text_bytes(" "@),
{
    proof {
        reveal_strlit(" ");
    }
    TBStr::from_text(" ")
}

} // verus!
