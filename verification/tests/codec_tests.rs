use alkahest_py::abi::{decode_demand, decode_statement, encode_demand, encode_statement};
use alkahest_py::statements::{
    PayloadError, PyERC20EscrowObligationStatement, PyERC20PaymentObligationStatement,
    PyStringObligationStatementData, PyTrustedOracleArbiterDemandData,
};

fn word_u64(v: u64) -> Vec<u8> {
    let mut w = vec![0u8; 24];
    w.extend_from_slice(&v.to_be_bytes());
    w
}

fn word_addr(a: &[u8]) -> Vec<u8> {
    let mut w = vec![0u8; 12];
    w.extend_from_slice(a);
    w
}

fn padded(data: &[u8]) -> Vec<u8> {
    let mut out = data.to_vec();
    while out.len() % 32 != 0 {
        out.push(0);
    }
    out
}

#[test]
fn statement_encoding_of_hello_is_exact() {
    let enc = encode_statement(&b"hello".to_vec());
    let mut expected = word_u64(32);
    expected.extend(word_u64(32));
    expected.extend(word_u64(5));
    expected.extend(padded(b"hello"));
    assert_eq!(enc, expected);
    assert_eq!(enc.len(), 128);
}

#[test]
fn statement_codec_round_trips() {
    let enc = encode_statement(&b"hello world".to_vec());
    assert_eq!(decode_statement(&enc).unwrap(), b"hello world".to_vec());
    let empty = encode_statement(&Vec::new());
    assert_eq!(empty.len(), 96);
    assert_eq!(decode_statement(&empty).unwrap(), Vec::<u8>::new());
}

#[test]
fn statement_decoding_is_strict() {
    let mut enc = encode_statement(&b"hello".to_vec());
    // A trailing byte breaks canonical form.
    enc.push(0);
    assert!(decode_statement(&enc).is_none());
    // A wrong outer offset breaks canonical form.
    let mut enc2 = encode_statement(&b"hello".to_vec());
    enc2[31] = 0x40;
    assert!(decode_statement(&enc2).is_none());
    // Nonzero padding breaks canonical form.
    let mut enc3 = encode_statement(&b"hello".to_vec());
    let last = enc3.len() - 1;
    enc3[last] = 1;
    assert!(decode_statement(&enc3).is_none());
    // Arbitrary bytes are rejected.
    assert!(decode_statement(&vec![7u8; 64]).is_none());
}

#[test]
fn demand_encoding_is_exact() {
    let oracle = vec![0x11u8; 20];
    let data = vec![0xde, 0xad];
    let enc = encode_demand(&oracle, &data);
    let mut expected = word_u64(32);
    expected.extend(word_addr(&oracle));
    expected.extend(word_u64(64));
    expected.extend(word_u64(2));
    expected.extend(padded(&[0xde, 0xad]));
    assert_eq!(enc, expected);
    assert_eq!(enc.len(), 160);
}

#[test]
fn demand_codec_round_trips() {
    let oracle = vec![0x42u8; 20];
    let data: Vec<u8> = (0..40).collect();
    let enc = encode_demand(&oracle, &data);
    let (o, d) = decode_demand(&enc).unwrap();
    assert_eq!(o, oracle);
    assert_eq!(d, data);
}

#[test]
fn demand_decoding_is_strict() {
    let enc = encode_demand(&vec![0x42u8; 20], &vec![1, 2, 3]);
    let mut longer = enc.clone();
    longer.push(0);
    assert!(decode_demand(&longer).is_none());
    let mut bad_inner = enc.clone();
    bad_inner[63] = 0x99; // scribble over the address word
    assert_eq!(decode_demand(&bad_inner).unwrap().0[19], 0x99);
    let mut bad_offset = enc;
    bad_offset[95] = 0x41; // inner offset must be 0x40
    assert!(decode_demand(&bad_offset).is_none());
    assert!(decode_demand(&Vec::new()).is_none());
}

#[test]
fn string_statement_encode_self_uses_utf8_bytes() {
    let s = PyStringObligationStatementData::new("hello".to_string());
    assert_eq!(s.encode_self().unwrap(), encode_statement(&b"hello".to_vec()));
}

#[test]
fn demand_data_encode_self_and_decode_round_trip() {
    let oracle_hex = format!("0x{}", "11".repeat(20));
    let d = PyTrustedOracleArbiterDemandData::new(oracle_hex.clone(), vec![9, 8, 7]);
    let enc = d.encode_self().unwrap();
    let back = PyTrustedOracleArbiterDemandData::decode(enc).unwrap();
    assert_eq!(back.oracle, oracle_hex);
    assert_eq!(back.data, vec![9, 8, 7]);
}

#[test]
fn demand_data_encode_self_rejects_bad_oracle() {
    let d = PyTrustedOracleArbiterDemandData::new("0x1234".to_string(), Vec::new());
    assert_eq!(d.encode_self(), Err(PayloadError::MalformedAddress));
}

#[test]
fn demand_data_decode_rejects_garbage() {
    assert_eq!(
        PyTrustedOracleArbiterDemandData::decode(vec![1, 2, 3]),
        Err(PayloadError::MalformedPayload)
    );
}

#[test]
fn erc20_escrow_statement_encodes_exactly() {
    let token = format!("0x{}", "aa".repeat(20));
    let arbiter = format!("0x{}", "bb".repeat(20));
    let s = PyERC20EscrowObligationStatement::new(token, 1000, arbiter, vec![5, 6]);
    let enc = s.encode_self().unwrap();
    let mut expected = word_u64(32);
    expected.extend(word_addr(&[0xaa; 20]));
    expected.extend(word_u64(1000));
    expected.extend(word_addr(&[0xbb; 20]));
    expected.extend(word_u64(128));
    expected.extend(word_u64(2));
    expected.extend(padded(&[5, 6]));
    assert_eq!(enc, expected);
}

#[test]
fn erc20_payment_statement_encodes_exactly() {
    let token = format!("0x{}", "aa".repeat(20));
    let payee = format!("0x{}", "cc".repeat(20));
    let s = PyERC20PaymentObligationStatement::new(token, 77, payee);
    let enc = s.encode_self().unwrap();
    let mut expected = word_addr(&[0xaa; 20]);
    expected.extend(word_u64(77));
    expected.extend(word_addr(&[0xcc; 20]));
    assert_eq!(enc, expected);
    assert_eq!(enc.len(), 96);
}

#[test]
fn erc20_statement_encoding_rejects_bad_address() {
    let s = PyERC20EscrowObligationStatement::new(
        "not an address".to_string(),
        1,
        format!("0x{}", "bb".repeat(20)),
        Vec::new(),
    );
    assert_eq!(s.encode_self(), Err(PayloadError::MalformedAddress));
    let p = PyERC20PaymentObligationStatement::new(
        format!("0x{}", "aa".repeat(20)),
        1,
        "0x123".to_string(),
    );
    assert_eq!(p.encode_self(), Err(PayloadError::MalformedAddress));
}
