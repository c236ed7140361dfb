//! Binding layer for the thinCore interpreter host engine.
//!
//! The library marshals text and scalar values for the host's ABI, states
//! which exported entry point each operation resolves, and mirrors the
//! host's runtime error code space. The dynamic-library calls themselves
//! cross an ABI boundary and live outside the verified library; what stands
//! here is everything those calls consume and produce: the marshaled string
//! handle, the call payloads, and the decoders for the host's replies.

pub mod error;
pub mod host;
pub mod return_type;
pub mod tbstr;
