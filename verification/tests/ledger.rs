//! Tests of the ledger-side helpers built on the identity layer:
//! addresses, ids, storage key encodings, gas costs and the gas meter.

use nanodb::account_keys::AccountKey;
use nanodb::account_store::AccountStore;
use nanodb::address::NanoAddress;
use nanodb::bill_key::BillKey;
use nanodb::cost::estimate_gas;
use nanodb::cost::estimate_query_session_gas;
use nanodb::cost::DbStoreOp;
use nanodb::cost::QuerySessionInfo;
use nanodb::ensure_len_eq;
use nanodb::error::NanoError;
use nanodb::faucet_key::build_faucet_key;
use nanodb::faucet_key::decode_faucet_key;
use nanodb::gas_meter::GasMeter;
use nanodb::gas_meter::Unit;
use nanodb::id::AccountId;
use nanodb::id::BillId;
use nanodb::id::DbId;
use nanodb::id::TxId;
use nanodb::storage_key::DbKey;

#[test]
fn address_byte_views_round_trip() {
    let bytes: Vec<u8> = (0u8..20).collect();
    let addr = NanoAddress::try_from_bytes(&bytes).unwrap();
    assert_eq!(addr.to_vec(), bytes);
    assert_eq!(addr.to_inner().to_vec(), bytes);
    assert_eq!(addr.as_bytes(), &bytes[..]);
}

#[test]
fn address_rejects_wrong_lengths() {
    assert!(matches!(
        NanoAddress::try_from_bytes(&[0u8; 19]),
        Err(NanoError::InvalidAddress)
    ));
    assert!(matches!(
        NanoAddress::try_from_bytes(&[0u8; 21]),
        Err(NanoError::InvalidAddress)
    ));
    assert!(NanoAddress::try_from_bytes(&[]).is_err());
}

#[test]
fn address_hex_form_is_prefixed_lowercase() {
    let bytes: Vec<u8> = (0u8..20).collect();
    let addr = NanoAddress::try_from_bytes(&bytes).unwrap();
    assert_eq!(addr.to_hex(), "0x000102030405060708090a0b0c0d0e0f10111213");
    let zero = NanoAddress::zero();
    assert_eq!(zero.to_hex(), "0x0000000000000000000000000000000000000000");
}

#[test]
fn account_id_wraps_address() {
    let bytes = [4u8; 20];
    let addr = NanoAddress::from_array(&bytes);
    let id = AccountId::new(addr);
    assert_eq!(id.addr, addr);
    assert_eq!(id.to_hex(), addr.to_hex());
    let parsed = AccountId::try_from_bytes(&bytes).unwrap();
    assert_eq!(parsed.addr, addr);
    assert!(AccountId::try_from_bytes(&[4u8; 7]).is_err());
}

#[test]
fn tx_id_zero_and_base64() {
    let z = TxId::zero();
    assert_eq!(z.as_bytes(), &[0u8; 32][..]);
    assert_eq!(z.to_base64(), "AAAAAAAAAAAAAAAAAAAAAAAAAAAAAAAAAAAAAAAAAAA=");
    let t = TxId::from_array(&[1u8; 32]);
    assert_eq!(t.as_bytes(), &[1u8; 32][..]);
}

#[test]
fn ensure_len_eq_checks_exact_length() {
    assert!(ensure_len_eq(&[1, 2, 3], 3).is_ok());
    assert!(matches!(
        ensure_len_eq(&[1, 2, 3], 4),
        Err(NanoError::KeyCodecError)
    ));
}

#[test]
fn account_key_round_trip() {
    let addr = NanoAddress::from_array(&[9u8; 20]);
    let encoded = AccountKey(&addr).encode().unwrap();
    assert_eq!(encoded.len(), 24);
    assert_eq!(&encoded[..4], b"/ac/");
    assert_eq!(&encoded[4..], &[9u8; 20][..]);
    let decoded = AccountKey::decode(&encoded).unwrap();
    assert_eq!(decoded, addr);
    assert!(matches!(
        AccountKey::decode(&encoded[..23]),
        Err(NanoError::KeyCodecError)
    ));
}

#[test]
fn bill_key_encoding() {
    let id = BillId::from_array(&[3u8; 32]);
    let encoded = BillKey(&id).encode().unwrap();
    assert_eq!(encoded.len(), 36);
    assert_eq!(&encoded[..4], b"/bl/");
    assert_eq!(&encoded[4..], &[3u8; 32][..]);
}

#[test]
fn db_key_encoding_and_bounds() {
    let id = DbId::from_array(&[8u8; 20]);
    let encoded = DbKey(id).encode().unwrap();
    assert_eq!(encoded.len(), 24);
    assert_eq!(&encoded[..4], b"/db/");
    let decoded = DbKey::decode(&encoded).unwrap();
    assert_eq!(decoded.0.as_bytes(), id.as_bytes());
    // Trailing bytes are tolerated, short data is not.
    let mut longer = encoded.clone();
    longer.push(0xaa);
    assert!(DbKey::decode(&longer).is_ok());
    assert!(matches!(
        DbKey::decode(&encoded[..23]),
        Err(NanoError::KeyCodecError)
    ));
    assert_eq!(DbKey::max().0.as_bytes(), &[0xffu8; 20][..]);
    assert_eq!(DbKey::min().0.as_bytes(), &[0u8; 20][..]);
}

#[test]
fn faucet_key_round_trip() {
    let addr = [5u8; 20];
    let key = build_faucet_key(&addr, 0x0102_0304).unwrap();
    assert_eq!(key.len(), 24);
    assert_eq!(&key[..20], &addr[..]);
    assert_eq!(&key[20..], &[1, 2, 3, 4][..]);
    let (decoded_addr, ts) = decode_faucet_key(&key).unwrap();
    assert_eq!(decoded_addr, addr.to_vec());
    assert_eq!(ts, 0x0102_0304);
    assert!(matches!(
        build_faucet_key(&[5u8; 19], 1),
        Err(NanoError::KeyCodecError)
    ));
    assert!(matches!(
        decode_faucet_key(&key[..23]),
        Err(NanoError::KeyCodecError)
    ));
}

#[test]
fn gas_estimation_weighs_each_operation() {
    let db_op = DbStoreOp::DbOp {
        create_db_ops: 2,
        create_collection_ops: 3,
        create_index_ops: 4,
        data_in_bytes: 50,
    };
    assert_eq!(estimate_gas(&db_op), 2 * 100 + 3 * 100 + 4 * 100 + 50);
    let doc_op = DbStoreOp::DocOp {
        add_doc_ops: 1,
        del_doc_ops: 2,
        update_doc_ops: 3,
        data_in_bytes: 7,
    };
    assert_eq!(estimate_gas(&doc_op), 200 + 2 * 200 + 3 * 200 + 7);
}

#[test]
fn data_size_accessors() {
    let mut op = DbStoreOp::DocOp {
        add_doc_ops: 1,
        del_doc_ops: 0,
        update_doc_ops: 0,
        data_in_bytes: 10,
    };
    assert_eq!(op.get_data_size(), 10);
    op.update_data_size(99);
    assert_eq!(op.get_data_size(), 99);
    assert_eq!(
        op,
        DbStoreOp::DocOp {
            add_doc_ops: 1,
            del_doc_ops: 0,
            update_doc_ops: 0,
            data_in_bytes: 99,
        }
    );
}

#[test]
fn query_session_gas_is_per_query() {
    let info = QuerySessionInfo { query_count: 7 };
    assert_eq!(estimate_query_session_gas(&info), 700);
    let none = QuerySessionInfo { query_count: 0 };
    assert_eq!(estimate_query_session_gas(&none), 0);
}

#[test]
fn gas_meter_enforces_limit() {
    let mut meter = GasMeter::new(Unit { utype: 0, amount: 100 });
    assert!(!meter.is_out_of_gas());
    assert!(meter.consume_gas(Unit { utype: 0, amount: 40 }).is_ok());
    assert!(meter.consume_gas(Unit { utype: 0, amount: 59 }).is_ok());
    assert!(!meter.is_out_of_gas());
    // The total must stay strictly below the limit, so one more unit
    // is refused and the meter is left unchanged.
    assert!(matches!(
        meter.consume_gas(Unit { utype: 0, amount: 1 }),
        Err(NanoError::OutOfGasError)
    ));
    assert!(!meter.is_out_of_gas());
    // Consuming exactly up to the limit is already refused.
    let mut exact = GasMeter::new(Unit { utype: 0, amount: 10 });
    assert!(matches!(
        exact.consume_gas(Unit { utype: 0, amount: 10 }),
        Err(NanoError::OutOfGasError)
    ));
    // A zero limit starts out of gas.
    let zero = GasMeter::new(Unit { utype: 0, amount: 0 });
    assert!(zero.is_out_of_gas());
}

#[test]
fn account_store_handle_builds() {
    let _store = AccountStore::new();
}

#[test]
fn address_hex_parsing_accepts_both_conventions() {
    let bytes: Vec<u8> = (0u8..20).collect();
    let addr = NanoAddress::try_from_bytes(&bytes).unwrap();
    // Round trip through the textual form.
    assert_eq!(NanoAddress::from_hex(&addr.to_hex()).unwrap(), addr);
    // Without the prefix, and in upper case.
    assert_eq!(
        NanoAddress::from_hex("000102030405060708090a0b0c0d0e0f10111213").unwrap(),
        addr
    );
    assert_eq!(
        NanoAddress::from_hex("0x000102030405060708090A0B0C0D0E0F10111213").unwrap(),
        addr
    );
}

#[test]
fn address_hex_parsing_rejects_malformed_input() {
    assert!(matches!(
        NanoAddress::from_hex("0xzz0102030405060708090a0b0c0d0e0f10111213"),
        Err(NanoError::InvalidAddress)
    ));
    // Odd number of digits.
    assert!(NanoAddress::from_hex("0x000102030405060708090a0b0c0d0e0f1011121").is_err());
    // Too short and too long.
    assert!(NanoAddress::from_hex("0x0001").is_err());
    assert!(NanoAddress::from_hex("0x000102030405060708090a0b0c0d0e0f1011121314").is_err());
    assert!(NanoAddress::from_hex("").is_err());
}
