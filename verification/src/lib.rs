//! Cross-boundary retrieval protocol for an on-chain guest that obtains
//! externally sourced data from its host runtime.
//!
//! The crate is organised around the data path of one synchronous call:
//! the guest encodes a numeric request ([`codec`]), the host dispatcher
//! routes the operation id and produces a status code plus an output
//! buffer ([`dispatch`]), and the guest maps the status code back into a
//! structured outcome ([`status`], [`guest`]). Independently of that
//! path, a storage address can be derived from two human-readable names
//! and used to read the host's key-addressed store directly ([`keys`]).
//! Beside the protocol sits the marketplace registry of per-service
//! metadata ([`market`]).

mod codec;
mod dispatch;
mod guest;
mod keys;
mod market;
mod protocol;
mod status;

pub use codec::CodecError;
pub use codec::decode_u64;
pub use codec::encode_u64;
pub use codec::lemma_u64_round_trip;
pub use codec::u64_from_le;
pub use codec::u64_le_bytes;
pub use dispatch::DispatchAction;
pub use dispatch::HostError;
pub use dispatch::KylinExtension;
pub use dispatch::lemma_request_round_trip;
pub use dispatch::lemma_unregistered_operation;
pub use guest::DualGuestError;
pub use guest::GetPrices;
pub use guest::GuestError;
pub use keys::StorageReadOutcome;
pub use keys::classify_storage_read;
pub use keys::derive_key;
pub use keys::digest128_of;
pub use keys::lemma_item_separates;
pub use keys::lemma_namespace_separates;
pub use keys::storage_key_of;
pub use keys::storage_read_value;
pub use keys::xxhash64_of;
pub use market::AccountId;
pub use market::OracleMarket;
pub use protocol::CustomEnvironment;
pub use protocol::FETCH_CURRENT_ID;
pub use protocol::FETCH_PAYLOAD_ID;
pub use status::KeyAccessError;
pub use status::ModuleError;
pub use status::ProtocolError;
pub use status::known_status_dual;
pub use status::known_status_single;
pub use status::lemma_status_code_round_trip;
pub use status::lemma_status_totality_dual;
pub use status::lemma_status_totality_single;
pub use status::lemma_unknown_status_escalates;
pub use status::map_status_dual;
pub use status::map_status_single;
pub use status::spec_status_code_dual;
pub use status::spec_status_code_single;
