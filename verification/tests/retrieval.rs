use kylin_oracle::CodecError;
use kylin_oracle::CustomEnvironment;
use kylin_oracle::DispatchAction;
use kylin_oracle::DualGuestError;
use kylin_oracle::GetPrices;
use kylin_oracle::GuestError;
use kylin_oracle::HostError;
use kylin_oracle::KeyAccessError;
use kylin_oracle::KylinExtension;
use kylin_oracle::ModuleError;
use kylin_oracle::ProtocolError;
use kylin_oracle::StorageReadOutcome;
use kylin_oracle::classify_storage_read;
use kylin_oracle::decode_u64;
use kylin_oracle::derive_key;
use kylin_oracle::encode_u64;
use kylin_oracle::storage_read_value;

#[test]
fn round_trip_identifiers() {
    for id in [0u64, 1, 42, 0xDEAD_BEEF, u64::MAX] {
        let encoded = encode_u64(id);
        assert_eq!(encoded.len(), 8);
        assert_eq!(decode_u64(encoded.as_slice()), Ok(id));
    }
}

#[test]
fn encode_is_little_endian() {
    let encoded = encode_u64(0x0102_0304_0506_0708);
    assert_eq!(encoded, vec![0x08, 0x07, 0x06, 0x05, 0x04, 0x03, 0x02, 0x01]);
}

#[test]
fn decode_rejects_wrong_width() {
    assert_eq!(decode_u64(&[1, 2, 3]), Err(CodecError::WrongLength));
    assert_eq!(decode_u64(&[0; 9]), Err(CodecError::WrongLength));
    assert_eq!(decode_u64(&[]), Err(CodecError::WrongLength));
}

#[test]
fn status_totality_single() {
    assert_eq!(ModuleError::from_status_code(0), Ok(Ok(())));
    assert_eq!(ModuleError::from_status_code(1), Ok(Err(ModuleError::QueryError)));
    // The mapping is stable: a second call gives the same outcome.
    assert_eq!(ModuleError::from_status_code(0), Ok(Ok(())));
    assert_eq!(ModuleError::from_status_code(1), Ok(Err(ModuleError::QueryError)));
}

#[test]
fn status_totality_dual() {
    assert_eq!(KeyAccessError::from_status_code(0), Ok(Ok(())));
    assert_eq!(KeyAccessError::from_status_code(1), Ok(Err(KeyAccessError::InvalidKey)));
    assert_eq!(KeyAccessError::from_status_code(2), Ok(Err(KeyAccessError::CannotWriteToKey)));
    assert_eq!(KeyAccessError::from_status_code(3), Ok(Err(KeyAccessError::CannotReadFromKey)));
    assert_eq!(KeyAccessError::from_status_code(2), Ok(Err(KeyAccessError::CannotWriteToKey)));
}

#[test]
fn unknown_status_escalates() {
    assert_eq!(ModuleError::from_status_code(99), Err(ProtocolError::UnknownStatus(99)));
    assert_eq!(ModuleError::from_status_code(2), Err(ProtocolError::UnknownStatus(2)));
    assert_eq!(KeyAccessError::from_status_code(99), Err(ProtocolError::UnknownStatus(99)));
    assert_eq!(KeyAccessError::from_status_code(4), Err(ProtocolError::UnknownStatus(4)));
}

#[test]
fn failure_codes_round_trip() {
    assert_eq!(
        ModuleError::from_status_code(ModuleError::QueryError.status_code()),
        Ok(Err(ModuleError::QueryError))
    );
    for kind in [
        KeyAccessError::InvalidKey,
        KeyAccessError::CannotWriteToKey,
        KeyAccessError::CannotReadFromKey,
    ] {
        assert_eq!(KeyAccessError::from_status_code(kind.status_code()), Ok(Err(kind)));
    }
}

#[test]
fn key_determinism() {
    let first = derive_key(b"PriceFetchModule", b"Prices");
    let second = derive_key(b"PriceFetchModule", b"Prices");
    assert_eq!(first, second);
    assert_eq!(first.len(), 32);
    let other_namespace = derive_key(b"PriceFetchModul_", b"Prices");
    let other_item = derive_key(b"PriceFetchModule", b"Price_");
    assert_ne!(first, other_namespace);
    assert_ne!(first, other_item);
}

#[test]
fn derived_key_is_a_digest_not_the_names() {
    // A 16-byte namespace and a 16-byte item line up with the two
    // 16-byte digest halves; the derivation must still hash them, not
    // copy them through.
    let namespace = b"0123456789abcdef";
    let item = b"fedcba9876543210";
    let key = derive_key(namespace, item);
    let mut echoed = Vec::new();
    echoed.extend_from_slice(namespace);
    echoed.extend_from_slice(item);
    assert_ne!(key, echoed);
    assert_ne!(&key[0..16], namespace.as_slice());
    assert_ne!(&key[16..32], item.as_slice());
}

#[test]
fn capacity_failure() {
    let fetched: Result<Vec<u8>, ModuleError> = Ok(vec![0xDE, 0xAD, 0xBE, 0xEF]);
    let r = KylinExtension::complete_payload(&fetched, 3);
    assert_eq!(r, Err(HostError::BufferTooSmall { required: 4 }));
    // A retry with the reported capacity succeeds with the full bytes.
    let retry = KylinExtension::complete_payload(&fetched, 4);
    assert_eq!(retry, Ok((0, vec![0xDE, 0xAD, 0xBE, 0xEF])));
}

#[test]
fn write_output_never_truncates() {
    let r = KylinExtension::write_output(&[1, 2, 3, 4, 5], 4);
    assert_eq!(r, Err(HostError::BufferTooSmall { required: 5 }));
    let r = KylinExtension::write_output(&[1, 2, 3, 4, 5], 5);
    assert_eq!(r, Ok(vec![1, 2, 3, 4, 5]));
}

#[test]
fn unregistered_operation() {
    let single = KylinExtension::new(CustomEnvironment::SingleOperation);
    let dual = KylinExtension::new(CustomEnvironment::DualOperation);
    let input = encode_u64(42);
    assert_eq!(
        single.call(2, input.as_slice()),
        Err(HostError::Unimplemented { func_id: 2 })
    );
    assert_eq!(
        single.call(7, input.as_slice()),
        Err(HostError::Unimplemented { func_id: 7 })
    );
    assert_eq!(dual.call(3, input.as_slice()), Err(HostError::Unimplemented { func_id: 3 }));
    assert_eq!(dual.call(0, &[]), Err(HostError::Unimplemented { func_id: 0 }));
}

#[test]
fn malformed_input_is_not_routed() {
    let single = KylinExtension::new(CustomEnvironment::SingleOperation);
    assert_eq!(single.call(1, &[1, 2, 3]), Err(HostError::MalformedInput));
    let dual = KylinExtension::new(CustomEnvironment::DualOperation);
    assert_eq!(dual.call(2, &[1]), Err(HostError::MalformedInput));
}

#[test]
fn end_to_end_scenario() {
    // Guest side: ask for the payload of identifier 42.
    let guest = GetPrices::default();
    let (func_id, input) = guest.encode_request(42);

    // Host side: route, play the off-chain source, complete.
    let host = KylinExtension::new(CustomEnvironment::SingleOperation);
    let action = host.call(func_id, input.as_slice()).unwrap();
    assert_eq!(action, DispatchAction::FetchPayload { data_id: 42 });
    let fetched: Result<Vec<u8>, ModuleError> = Ok(vec![0xDE, 0xAD, 0xBE, 0xEF]);
    let (status, output) = KylinExtension::complete_payload(&fetched, 1024).unwrap();
    assert_eq!(status, 0);
    assert_eq!(output, vec![0xDE, 0xAD, 0xBE, 0xEF]);

    // Guest side again: the decoded payload reaches the caller.
    let r = guest.requested_offchain_data(status, &output);
    assert_eq!(r, Ok(vec![0xDE, 0xAD, 0xBE, 0xEF]));
}

#[test]
fn source_failure_reaches_the_guest() {
    let fetched: Result<Vec<u8>, ModuleError> = Err(ModuleError::QueryError);
    let (status, output) = KylinExtension::complete_payload(&fetched, 1024).unwrap();
    assert_eq!(status, 1);
    assert!(output.is_empty());
    let guest = GetPrices::default();
    assert_eq!(
        guest.requested_offchain_data(status, &output),
        Err(GuestError::Module(ModuleError::QueryError))
    );
}

#[test]
fn guest_rejects_unknown_status() {
    let guest = GetPrices::default();
    let r = guest.requested_offchain_data(99, &vec![1, 2, 3]);
    assert_eq!(r, Err(GuestError::Protocol(ProtocolError::UnknownStatus(99))));
}

#[test]
fn current_identifier_flow() {
    let guest = GetPrices::new(CustomEnvironment::DualOperation);
    let (func_id, input) = guest.encode_current_id_request();
    let host = KylinExtension::new(CustomEnvironment::DualOperation);
    let action = host.call(func_id, input.as_slice()).unwrap();
    assert_eq!(action, DispatchAction::FetchCurrentId);
    let fetched: Result<u64, KeyAccessError> = Ok(777);
    let (status, output) = KylinExtension::complete_current_id(&fetched, 8).unwrap();
    assert_eq!(status, 0);
    assert_eq!(guest.fetch_current_identifier(status, &output), Ok(777));
}

#[test]
fn current_identifier_failures() {
    let guest = GetPrices::new(CustomEnvironment::DualOperation);
    assert_eq!(
        guest.fetch_current_identifier(0, &vec![1, 2, 3]),
        Err(DualGuestError::Protocol(ProtocolError::MalformedPayload))
    );
    assert_eq!(
        guest.fetch_current_identifier(2, &Vec::new()),
        Err(DualGuestError::KeyAccess(KeyAccessError::CannotWriteToKey))
    );
    assert_eq!(
        guest.fetch_current_identifier(9, &Vec::new()),
        Err(DualGuestError::Protocol(ProtocolError::UnknownStatus(9)))
    );
    let fetched: Result<u64, KeyAccessError> = Ok(777);
    assert_eq!(
        KylinExtension::complete_current_id(&fetched, 7),
        Err(HostError::BufferTooSmall { required: 8 })
    );
}

#[test]
fn storage_read_paths() {
    let value = encode_u64(42);
    assert_eq!(classify_storage_read(Some(&value)), StorageReadOutcome::Found(42));
    assert_eq!(classify_storage_read(None), StorageReadOutcome::NotFound);
    assert_eq!(
        classify_storage_read(Some(&vec![1, 2, 3])),
        StorageReadOutcome::DecodeFailure
    );
    assert_eq!(storage_read_value(Some(&value)), Some(42));
    assert_eq!(storage_read_value(None), None);
    assert_eq!(storage_read_value(Some(&vec![1, 2, 3])), None);
}
