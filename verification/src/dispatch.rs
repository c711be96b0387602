//! Host dispatcher: the single entry point that receives an operation
//! id plus an input buffer and produces a status code plus an output
//! buffer.
//!
//! Routing is a closed match over the operation set the configured
//! protocol version registers; an unregistered id is a routing error
//! reported as a dedicated failure, never executed as a no-op. The
//! off-chain data source is an external collaborator: the dispatcher
//! decides what to fetch ([`KylinExtension::call`]), the surrounding
//! host performs the fetch, and the dispatcher then turns the source's
//! answer into the wire-level status and output
//! ([`KylinExtension::complete_payload`] and friends). Dispatch keeps
//! no state of its own, so the same operation with the same arguments
//! performs the fetch again each time.

use vstd::prelude::*;

use crate::codec::u64_from_le;
use crate::codec::u64_le_bytes;
use crate::protocol::CustomEnvironment;
use crate::protocol::FETCH_PAYLOAD_ID;
use crate::status::KeyAccessError;
use crate::status::ModuleError;
use crate::status::spec_status_code_dual;
use crate::status::spec_status_code_single;

verus! {

/// What a routed call asks the off-chain data source to do.
#[derive(Clone, Copy, Debug, PartialEq, Eq, Structural)]
pub enum DispatchAction {
    /// Fetch the byte payload associated with this identifier.
    FetchPayload { data_id: u64 },
    /// Fetch the current data identifier.
    FetchCurrentId,
}

/// A dispatch-level failure, reported outside the status-code channel.
#[derive(Clone, Copy, Debug, PartialEq, Eq, Structural)]
pub enum HostError {
    /// The operation id is not registered by this protocol version.
    Unimplemented { func_id: u32 },
    /// The input buffer does not hold the operation's arguments.
    MalformedInput,
    /// The answer is larger than the caller's output buffer; carries
    /// the capacity a retry needs.
    BufferTooSmall { required: usize },
}

/// The host-side router of extension calls.
pub struct KylinExtension {
    /// The protocol version whose operation set this host serves.
    pub env: CustomEnvironment,
}

impl KylinExtension {
    /// What routing decides for (operation id, input buffer): which
    /// fetch to perform, or which failure to report.
    pub open spec fn spec_call(env: CustomEnvironment, func_id: u32, input: Seq<u8>) -> Result<
        DispatchAction,
        HostError,
    > {
        if !env.spec_is_registered(func_id) {
            Err(HostError::Unimplemented { func_id })
        } else if func_id == FETCH_PAYLOAD_ID {
            if input.len() == 8 {
                Ok(DispatchAction::FetchPayload { data_id: u64_from_le(input) })
            } else {
                Err(HostError::MalformedInput)
            }
        } else {
            if input.len() == 0 {
                Ok(DispatchAction::FetchCurrentId)
            } else {
                Err(HostError::MalformedInput)
            }
        }
    }

    /// A host serving the given protocol version.
    pub fn new(env: CustomEnvironment) -> (r: Self)
        ensures
            r.env == env,
    {
        KylinExtension { env }
    }

    /// The extension is always switched on.
    pub fn enabled() -> (r: bool)
        ensures
            r,
    {
        true
    }

    /// Route one call: an unregistered operation id is rejected as
    /// unimplemented; "fetch payload" decodes its 64-bit identifier
    /// argument; "fetch current identifier" takes no argument.
    pub fn call(&self, func_id: u32, input: &[u8]) -> (r: Result<DispatchAction, HostError>)
        ensures
            r == Self::spec_call(self.env, func_id, input@),
    {
        if !self.env.is_registered(func_id) {
            return Err(HostError::Unimplemented { func_id });
        }
        if func_id == FETCH_PAYLOAD_ID {
            match crate::codec::decode_u64(input) {
                Ok(data_id) => Ok(DispatchAction::FetchPayload { data_id }),
                Err(_) => Err(HostError::MalformedInput),
            }
        } else {
            if input.len() == 0 {
                Ok(DispatchAction::FetchCurrentId)
            } else {
                Err(HostError::MalformedInput)
            }
        }
    }

    /// Copy an answer into a fresh output buffer of the caller's
    /// capacity: an answer that does not fit is rejected with the
    /// exact required size, and nothing — no truncated prefix — is
    /// written.
    pub fn write_output(payload: &[u8], capacity: usize) -> (r: Result<Vec<u8>, HostError>)
        ensures
            payload@.len() <= capacity ==> (r matches Ok(out) && out@ == payload@),
            payload@.len() > capacity ==> r == Err::<Vec<u8>, HostError>(
                HostError::BufferTooSmall { required: payload@.len() as usize },
            ),
    {
        if payload.len() > capacity {
            return Err(HostError::BufferTooSmall { required: payload.len() });
        }
        let mut out: Vec<u8> = Vec::new();
        let mut i: usize = 0;
        while i < payload.len()
            invariant
                i <= payload@.len(),
                out@ == payload@.subrange(0, i as int),
            decreases payload@.len() - i,
        {
            let b = payload[i];
            out.push(b);
            i = i + 1;
            proof {
                assert(out@ =~= payload@.subrange(0, i as int));
            }
        }
        proof {
            assert(payload@.subrange(0, payload@.len() as int) =~= payload@);
        }
        Ok(out)
    }

    /// Turn the source's answer to a payload fetch into the wire
    /// result of the single-operation version: a success becomes
    /// status `0` with the payload, a source failure its nonzero
    /// status with an empty buffer, and only an answer too large for
    /// the caller's capacity fails at the dispatch level.
    pub fn complete_payload(fetched: &Result<Vec<u8>, ModuleError>, capacity: usize) -> (r: Result<
        (u32, Vec<u8>),
        HostError,
    >)
        ensures
            fetched matches Ok(data) ==> (data@.len() <= capacity ==> (r matches Ok(sp)
                && sp.0 == 0 && sp.1@ == data@)) && (data@.len() > capacity ==> r == Err::<
                (u32, Vec<u8>),
                HostError,
            >(HostError::BufferTooSmall { required: data@.len() as usize })),
            fetched matches Err(e) ==> (r matches Ok(sp) && sp.0 == spec_status_code_single(*e)
                && sp.1@.len() == 0),
    {
        match fetched {
            Ok(data) => {
                let out = Self::write_output(data.as_slice(), capacity)?;
                Ok((0, out))
            },
            Err(e) => Ok((e.status_code(), Vec::new())),
        }
    }

    /// The same completion for the dual-operation version's payload
    /// fetch, whose failures are the three key access kinds.
    pub fn complete_payload_dual(
        fetched: &Result<Vec<u8>, KeyAccessError>,
        capacity: usize,
    ) -> (r: Result<(u32, Vec<u8>), HostError>)
        ensures
            fetched matches Ok(data) ==> (data@.len() <= capacity ==> (r matches Ok(sp)
                && sp.0 == 0 && sp.1@ == data@)) && (data@.len() > capacity ==> r == Err::<
                (u32, Vec<u8>),
                HostError,
            >(HostError::BufferTooSmall { required: data@.len() as usize })),
            fetched matches Err(e) ==> (r matches Ok(sp) && sp.0 == spec_status_code_dual(*e)
                && sp.1@.len() == 0),
    {
        match fetched {
            Ok(data) => {
                let out = Self::write_output(data.as_slice(), capacity)?;
                Ok((0, out))
            },
            Err(e) => Ok((e.status_code(), Vec::new())),
        }
    }

    /// Completion of a "fetch current identifier" call: a fetched
    /// identifier travels as its eight little-endian bytes, under the
    /// same capacity rule as any other answer.
    pub fn complete_current_id(
        fetched: &Result<u64, KeyAccessError>,
        capacity: usize,
    ) -> (r: Result<(u32, Vec<u8>), HostError>)
        ensures
            fetched matches Ok(id) ==> (8 <= capacity ==> (r matches Ok(sp) && sp.0 == 0
                && sp.1@ == u64_le_bytes(*id))) && (8 > capacity ==> r == Err::<
                (u32, Vec<u8>),
                HostError,
            >(HostError::BufferTooSmall { required: 8 })),
            fetched matches Err(e) ==> (r matches Ok(sp) && sp.0 == spec_status_code_dual(*e)
                && sp.1@.len() == 0),
    {
        match fetched {
            Ok(id) => {
                let data = crate::codec::encode_u64(*id);
                let out = Self::write_output(data.as_slice(), capacity)?;
                Ok((0, out))
            },
            Err(e) => Ok((e.status_code(), Vec::new())),
        }
    }
}

/// Request round trip: the "fetch payload" request a guest encodes for
/// an identifier routes, under either protocol version, to exactly the
/// fetch of that identifier.
pub proof fn lemma_request_round_trip(env: CustomEnvironment, data_id: u64)
    ensures
        KylinExtension::spec_call(env, FETCH_PAYLOAD_ID, u64_le_bytes(data_id)) == Ok::<
            DispatchAction,
            HostError,
        >(DispatchAction::FetchPayload { data_id }),
{
    crate::codec::lemma_u64_round_trip(data_id);
}

/// Unregistered operation: for every operation id outside the version's
/// closed set, routing yields the unimplemented failure naming that id
/// — never an action and never a default success — whatever the input.
pub proof fn lemma_unregistered_operation(
    env: CustomEnvironment,
    func_id: u32,
    input: Seq<u8>,
)
    requires
        !env.spec_is_registered(func_id),
    ensures
        KylinExtension::spec_call(env, func_id, input) == Err::<DispatchAction, HostError>(
            HostError::Unimplemented { func_id },
        ),
{
}

} // verus!
