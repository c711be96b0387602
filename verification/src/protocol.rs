//! The two named protocol versions of the extension interface, and the
//! closed operation set each registers.
//!
//! Two non-interoperable shapes of the request interface are in use.
//! They are alternatives behind an explicit configuration choice,
//! never mixed within one environment:
//!
//! - the single-operation version registers operation `1`, "fetch
//!   payload for identifier", and answers with a binary status;
//! - the dual-operation version registers operation `1` and operation
//!   `2`, "fetch current identifier", and answers with a three-way key
//!   access status.

use vstd::prelude::*;

verus! {

/// Operation id of "fetch payload for identifier": one 64-bit
/// identifier argument, returns a byte sequence.
pub const FETCH_PAYLOAD_ID: u32 = 1;

/// Operation id of "fetch current identifier": no arguments, returns
/// a 64-bit identifier. Registered by the dual-operation version only.
pub const FETCH_CURRENT_ID: u32 = 2;

/// The environment a guest is configured with: which protocol version
/// its extension interface speaks.
#[derive(Clone, Copy, Debug, PartialEq, Eq, Structural)]
pub enum CustomEnvironment {
    /// One operation, binary status codes.
    SingleOperation,
    /// Two operations, three-way key access status codes.
    DualOperation,
}

impl CustomEnvironment {
    /// The closed set of operation ids this version registers.
    pub open spec fn spec_is_registered(self, func_id: u32) -> bool {
        match self {
            CustomEnvironment::SingleOperation => func_id == FETCH_PAYLOAD_ID,
            CustomEnvironment::DualOperation => func_id == FETCH_PAYLOAD_ID || func_id
                == FETCH_CURRENT_ID,
        }
    }

    /// Whether this version registers the operation id.
    pub fn is_registered(&self, func_id: u32) -> (r: bool)
        ensures
            r == self.spec_is_registered(func_id),
    {
        match self {
            CustomEnvironment::SingleOperation => func_id == FETCH_PAYLOAD_ID,
            CustomEnvironment::DualOperation => func_id == FETCH_PAYLOAD_ID || func_id
                == FETCH_CURRENT_ID,
        }
    }
}

} // verus!
