//! Diagnostic context for parse errors: what a parser was attempting and what
//! it expected, attached to a failure as it propagates outward.

pub mod sink;
pub mod context;
pub mod attach;
