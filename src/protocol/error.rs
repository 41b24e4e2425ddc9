use vstd::prelude::*;

verus! {

/// Errors raised while decoding bytes of the raw report.
#[derive(Debug, Clone, Copy, PartialEq, Eq, Structural)]
pub enum ProtocolError {
    /// A length, mode byte or ordinal that the device format does not allow.
    InvalidRawInput,
}

impl ProtocolError {
    /// A short human-readable description of the error.
    pub fn message(&self) -> (r: &'static str)
        ensures
            r@ == "InvalidRawInput"@,
    {
        match self {
            ProtocolError::InvalidRawInput => {
                proof {
                    reveal_strlit("InvalidRawInput");
                }
                "InvalidRawInput"
            },
        }
    }
}

} // verus!
