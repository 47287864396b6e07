//! The ways in which building an instruction can fail.

use vstd::prelude::*;

verus! {

/// Why a builder produced no instruction.
#[derive(Clone, Copy, Debug, PartialEq, Eq, Structural)]
pub enum ErrorCode {
    /// A negative slippage tolerance was supplied.
    InvalidSlippage,
    /// The global configuration account could not be read.
    ConfigNotFound,
    /// The global configuration bytes do not match the fixed layout.
    DecodeError,
    /// The slippage-adjusted amount does not fit in 64 bits.
    Overflow,
}

impl ErrorCode {
    /// The text that describes the error.
    pub open spec fn message_spec(self) -> Seq<char> {
        match self {
            ErrorCode::InvalidSlippage => "Invalid Slippage"@,
            ErrorCode::ConfigNotFound => "Failed to fetch global state from chain"@,
            ErrorCode::DecodeError => "Failed to deserialize global state"@,
            ErrorCode::Overflow => "Overflow"@,
        }
    }

    /// The text that describes the error.
    pub fn message(&self) -> (r: &'static str)
        ensures
            r@ == self.message_spec(),
    {
        match self {
            ErrorCode::InvalidSlippage => "Invalid Slippage",
            ErrorCode::ConfigNotFound => "Failed to fetch global state from chain",
            ErrorCode::DecodeError => "Failed to deserialize global state",
            ErrorCode::Overflow => "Overflow",
        }
    }
}

} // verus!
