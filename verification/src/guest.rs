//! Guest side of the retrieval flow: the request interface and the
//! interpretation of the host's answer.
//!
//! A guest call is one synchronous exchange. The guest encodes the
//! operation id and argument bytes ([`GetPrices::encode_request`]),
//! the transport carries them to the host dispatcher and brings back a
//! status code plus a payload, and the guest maps that pair into a
//! structured outcome. On success it returns the decoded payload; on a
//! known failure the mapped error; on a status outside the known set
//! the unrecoverable protocol violation. It never interprets payload
//! bytes after a failure status.

use vstd::prelude::*;

use crate::codec::u64_from_le;
use crate::codec::u64_le_bytes;
use crate::protocol::CustomEnvironment;
use crate::protocol::FETCH_CURRENT_ID;
use crate::protocol::FETCH_PAYLOAD_ID;
use crate::status::KeyAccessError;
use crate::status::ModuleError;
use crate::status::ProtocolError;
use crate::status::known_status_dual;
use crate::status::known_status_single;

verus! {

/// What a single-operation guest call comes back with when it does
/// not succeed.
#[derive(Clone, Copy, Debug, PartialEq, Eq, Structural)]
pub enum GuestError {
    /// A known failure the host reported through the status channel.
    Module(ModuleError),
    /// An unrecoverable protocol fault; the call cannot be partially
    /// recovered.
    Protocol(ProtocolError),
}

/// The dual-operation counterpart of [`GuestError`].
#[derive(Clone, Copy, Debug, PartialEq, Eq, Structural)]
pub enum DualGuestError {
    /// A known key access failure reported through the status channel.
    KeyAccess(KeyAccessError),
    /// An unrecoverable protocol fault.
    Protocol(ProtocolError),
}

/// A guest that asks the host for externally sourced data.
pub struct GetPrices {
    /// The protocol version this guest's environment speaks.
    pub env: CustomEnvironment,
}

impl GetPrices {
    /// A guest in the single-operation environment, the shape the
    /// deployed contract uses.
    pub fn default() -> (r: Self)
        ensures
            r.env == CustomEnvironment::SingleOperation,
    {
        GetPrices { env: CustomEnvironment::SingleOperation }
    }

    /// A guest in an explicitly chosen environment.
    pub fn new(env: CustomEnvironment) -> (r: Self)
        ensures
            r.env == env,
    {
        GetPrices { env }
    }

    /// Encode the "fetch payload for identifier" request: the
    /// operation id and the identifier's little-endian bytes.
    pub fn encode_request(&self, data_id: u64) -> (r: (u32, Vec<u8>))
        ensures
            r.0 == FETCH_PAYLOAD_ID,
            r.1@ == u64_le_bytes(data_id),
    {
        (FETCH_PAYLOAD_ID, crate::codec::encode_u64(data_id))
    }

    /// Encode the "fetch current identifier" request of the
    /// dual-operation version: the operation id and an empty argument
    /// buffer.
    pub fn encode_current_id_request(&self) -> (r: (u32, Vec<u8>))
        ensures
            r.0 == FETCH_CURRENT_ID,
            r.1@.len() == 0,
    {
        (FETCH_CURRENT_ID, Vec::new())
    }

    /// Complete a "fetch payload" call from the transport's answer:
    /// status `0` yields the payload, status `1` the query failure,
    /// and any status outside the known set the protocol violation
    /// naming it — the payload bytes are never looked at then.
    pub fn requested_offchain_data(&self, status_code: u32, payload: &Vec<u8>) -> (r: Result<
        Vec<u8>,
        GuestError,
    >)
        ensures
            status_code == 0 ==> (r matches Ok(b) && b@ == payload@),
            status_code == 1 ==> r == Err::<Vec<u8>, GuestError>(
                GuestError::Module(ModuleError::QueryError),
            ),
            !known_status_single(status_code) ==> r == Err::<Vec<u8>, GuestError>(
                GuestError::Protocol(ProtocolError::UnknownStatus(status_code)),
            ),
    {
        match ModuleError::from_status_code(status_code) {
            Ok(Ok(())) => Ok(payload.clone()),
            Ok(Err(e)) => Err(GuestError::Module(e)),
            Err(p) => Err(GuestError::Protocol(p)),
        }
    }

    /// Complete a "fetch current identifier" call of the
    /// dual-operation version: on success the payload must be the
    /// identifier's eight little-endian bytes; any other width is the
    /// fatal malformed-payload condition, since the two sides no
    /// longer agree on the wire format.
    pub fn fetch_current_identifier(&self, status_code: u32, payload: &Vec<u8>) -> (r: Result<
        u64,
        DualGuestError,
    >)
        ensures
            status_code == 0 && payload@.len() == 8 ==> r == Ok::<u64, DualGuestError>(
                u64_from_le(payload@),
            ),
            status_code == 0 && payload@.len() != 8 ==> r == Err::<u64, DualGuestError>(
                DualGuestError::Protocol(ProtocolError::MalformedPayload),
            ),
            status_code != 0 && known_status_dual(status_code) ==> (r matches Err(
                DualGuestError::KeyAccess(e),
            ) && crate::status::spec_status_code_dual(e) == status_code),
            !known_status_dual(status_code) ==> r == Err::<u64, DualGuestError>(
                DualGuestError::Protocol(ProtocolError::UnknownStatus(status_code)),
            ),
    {
        match KeyAccessError::from_status_code(status_code) {
            Ok(Ok(())) => match crate::codec::decode_u64(payload.as_slice()) {
                Ok(id) => Ok(id),
                Err(_) => Err(DualGuestError::Protocol(ProtocolError::MalformedPayload)),
            },
            Ok(Err(e)) => Err(DualGuestError::KeyAccess(e)),
            Err(p) => Err(DualGuestError::Protocol(p)),
        }
    }
}

} // verus!
