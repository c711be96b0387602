//! Status-to-outcome mapper: the total, side-effect-free translation
//! from the numeric status code of a dispatch call into a structured
//! outcome.
//!
//! Two protocol versions exist side by side and are never mixed. The
//! single-operation version answers with a binary status: success or
//! one query failure. The dual-operation version answers with a
//! three-way failure code about key access. In both versions `0` means
//! success, every other known code maps to exactly one failure kind,
//! and a code outside the known set is an unrecoverable protocol
//! violation, reported as an explicit [`ProtocolError`] value — never
//! treated as success and never an abort.

use vstd::prelude::*;

verus! {

/// The single-operation version's one failure kind.
#[derive(Clone, Copy, Debug, PartialEq, Eq, Structural)]
pub enum ModuleError {
    /// The host could not answer the query.
    QueryError,
}

/// The dual-operation version's failure kinds, one per nonzero status
/// code.
#[derive(Clone, Copy, Debug, PartialEq, Eq, Structural)]
pub enum KeyAccessError {
    /// The requested key is not valid.
    InvalidKey,
    /// The host could not write to the key.
    CannotWriteToKey,
    /// The host could not read from the key.
    CannotReadFromKey,
}

/// An unrecoverable protocol fault: the two sides of the boundary no
/// longer agree. The caller cannot partially recover from it.
#[derive(Clone, Copy, Debug, PartialEq, Eq, Structural)]
pub enum ProtocolError {
    /// The host answered with a status code outside the known set.
    UnknownStatus(u32),
    /// A successful answer carried bytes that do not decode.
    MalformedPayload,
}

/// The closed set of status codes of the single-operation version.
pub open spec fn known_status_single(code: u32) -> bool {
    code == 0 || code == 1
}

/// The single-operation mapping: `0` is success, `1` the query
/// failure, anything else a protocol violation.
pub open spec fn map_status_single(code: u32) -> Result<Result<(), ModuleError>, ProtocolError> {
    if code == 0 {
        Ok(Ok(()))
    } else if code == 1 {
        Ok(Err(ModuleError::QueryError))
    } else {
        Err(ProtocolError::UnknownStatus(code))
    }
}

/// The status code under which the host reports this failure kind in
/// the single-operation version.
pub open spec fn spec_status_code_single(e: ModuleError) -> u32 {
    match e {
        ModuleError::QueryError => 1,
    }
}

/// The closed set of status codes of the dual-operation version.
pub open spec fn known_status_dual(code: u32) -> bool {
    code == 0 || code == 1 || code == 2 || code == 3
}

/// The dual-operation mapping: `0` is success, `1`–`3` the three key
/// access failures, anything else a protocol violation.
pub open spec fn map_status_dual(code: u32) -> Result<Result<(), KeyAccessError>, ProtocolError> {
    if code == 0 {
        Ok(Ok(()))
    } else if code == 1 {
        Ok(Err(KeyAccessError::InvalidKey))
    } else if code == 2 {
        Ok(Err(KeyAccessError::CannotWriteToKey))
    } else if code == 3 {
        Ok(Err(KeyAccessError::CannotReadFromKey))
    } else {
        Err(ProtocolError::UnknownStatus(code))
    }
}

/// The status code under which the host reports this failure kind in
/// the dual-operation version.
pub open spec fn spec_status_code_dual(e: KeyAccessError) -> u32 {
    match e {
        KeyAccessError::InvalidKey => 1,
        KeyAccessError::CannotWriteToKey => 2,
        KeyAccessError::CannotReadFromKey => 3,
    }
}

impl ModuleError {
    /// Map a status code of the single-operation version: the outer
    /// result rejects unknown codes, the inner one carries the
    /// outcome.
    pub fn from_status_code(status_code: u32) -> (r: Result<
        Result<(), ModuleError>,
        ProtocolError,
    >)
        ensures
            r == map_status_single(status_code),
    {
        match status_code {
            0 => Ok(Ok(())),
            1 => Ok(Err(ModuleError::QueryError)),
            _ => Err(ProtocolError::UnknownStatus(status_code)),
        }
    }

    /// The nonzero status code the host reports this failure under.
    pub fn status_code(&self) -> (r: u32)
        ensures
            r == spec_status_code_single(*self),
            r != 0,
    {
        match self {
            ModuleError::QueryError => 1,
        }
    }
}

impl KeyAccessError {
    /// Map a status code of the dual-operation version, in the same
    /// shape as the single-operation mapper.
    pub fn from_status_code(status_code: u32) -> (r: Result<
        Result<(), KeyAccessError>,
        ProtocolError,
    >)
        ensures
            r == map_status_dual(status_code),
    {
        match status_code {
            0 => Ok(Ok(())),
            1 => Ok(Err(KeyAccessError::InvalidKey)),
            2 => Ok(Err(KeyAccessError::CannotWriteToKey)),
            3 => Ok(Err(KeyAccessError::CannotReadFromKey)),
            _ => Err(ProtocolError::UnknownStatus(status_code)),
        }
    }

    /// The nonzero status code the host reports this failure under.
    pub fn status_code(&self) -> (r: u32)
        ensures
            r == spec_status_code_dual(*self),
            r != 0,
    {
        match self {
            KeyAccessError::InvalidKey => 1,
            KeyAccessError::CannotWriteToKey => 2,
            KeyAccessError::CannotReadFromKey => 3,
        }
    }
}

/// Status totality, single-operation version: a code is in the known
/// set exactly when the mapper yields an outcome, and the mapping is a
/// function of the code, so it is the same on every call.
pub proof fn lemma_status_totality_single(code: u32)
    ensures
        known_status_single(code) <==> map_status_single(code) is Ok,
{
}

/// Status totality, dual-operation version.
pub proof fn lemma_status_totality_dual(code: u32)
    ensures
        known_status_dual(code) <==> map_status_dual(code) is Ok,
{
}

/// Unknown status escalation: any code outside the known set maps to
/// the unrecoverable protocol violation that names the code — never to
/// success and never to a known failure kind.
pub proof fn lemma_unknown_status_escalates(code: u32)
    requires
        !known_status_single(code) || !known_status_dual(code),
    ensures
        !known_status_single(code) ==> map_status_single(code) == Err::<
            Result<(), ModuleError>,
            ProtocolError,
        >(ProtocolError::UnknownStatus(code)),
        !known_status_dual(code) ==> map_status_dual(code) == Err::<
            Result<(), KeyAccessError>,
            ProtocolError,
        >(ProtocolError::UnknownStatus(code)),
{
}

/// Reporting a failure and mapping it back round-trips: the code the
/// host chooses for a failure kind maps to exactly that kind on the
/// guest side, in either protocol version.
pub proof fn lemma_status_code_round_trip(e: ModuleError, k: KeyAccessError)
    ensures
        map_status_single(spec_status_code_single(e)) == Ok::<
            Result<(), ModuleError>,
            ProtocolError,
        >(Err(e)),
        map_status_dual(spec_status_code_dual(k)) == Ok::<
            Result<(), KeyAccessError>,
            ProtocolError,
        >(Err(k)),
{
}

} // verus!
