use alkahest_py::filter::{
    compile_filter, compile_filter_without_ref_uid, FilterError, FilterField, PyAttestationFilter,
};
use alkahest_py::hex::{hex_string_of, parse_hex_fixed};

fn addr_hex(b: u8) -> String {
    format!("0x{}", format!("{:02x}", b).repeat(20))
}

fn hash_hex(b: u8) -> String {
    format!("0x{}", format!("{:02x}", b).repeat(32))
}

fn empty_filter() -> PyAttestationFilter {
    PyAttestationFilter::__new__(None, None, None, None, None, None, None)
}

#[test]
fn inverted_block_range_is_rejected_before_anything_else() {
    let mut f = empty_filter();
    f.from_block = Some(10);
    f.to_block = Some(9);
    // Even with a malformed field present, the range error comes first.
    f.attester = Some("zz".to_string());
    assert_eq!(compile_filter(&f), Err(FilterError::InvalidBlockRange));
}

#[test]
fn equal_block_bounds_compile() {
    let mut f = empty_filter();
    f.from_block = Some(7);
    f.to_block = Some(7);
    let q = compile_filter(&f).unwrap();
    assert_eq!(q.from_block, Some(7));
    assert_eq!(q.to_block, Some(7));
}

#[test]
fn empty_filter_compiles_to_unbounded_query() {
    let q = compile_filter(&empty_filter()).unwrap();
    assert!(q.attester.is_none());
    assert!(q.recipient.is_none());
    assert!(q.schema_uid.is_none());
    assert!(q.uid.is_none());
    assert!(q.ref_uid.is_none());
    assert!(q.from_block.is_none());
    assert!(q.to_block.is_none());
}

#[test]
fn wrong_length_address_is_rejected_with_its_field() {
    let mut f = empty_filter();
    f.attester = Some(hash_hex(0x11)); // 32 bytes where 20 are expected
    assert_eq!(
        compile_filter(&f),
        Err(FilterError::MalformedField(FilterField::Attester))
    );
    let mut g = empty_filter();
    g.schema_uid = Some(addr_hex(0x22)); // 20 bytes where 32 are expected
    assert_eq!(
        compile_filter(&g),
        Err(FilterError::MalformedField(FilterField::SchemaUid))
    );
}

#[test]
fn non_hex_field_is_rejected() {
    let mut f = empty_filter();
    f.uid = Some(format!("0x{}", "zz".repeat(32)));
    assert_eq!(compile_filter(&f), Err(FilterError::MalformedField(FilterField::Uid)));
}

#[test]
fn fields_decode_to_their_bytes() {
    let mut f = empty_filter();
    f.attester = Some(addr_hex(0xab));
    f.schema_uid = Some(hash_hex(0xcd));
    let q = compile_filter(&f).unwrap();
    assert_eq!(q.attester.unwrap(), vec![0xab; 20]);
    assert_eq!(q.schema_uid.unwrap(), vec![0xcd; 32]);
}

#[test]
fn hex_prefix_and_case_are_accepted() {
    let with_prefix = parse_hex_fixed("0xAbCdEf0011223344556677889900aAbBcCdDeEfF", 20).unwrap();
    let without_prefix = parse_hex_fixed("abcdef0011223344556677889900aabbccddeeff", 20).unwrap();
    assert_eq!(with_prefix, without_prefix);
    assert_eq!(with_prefix[0], 0xab);
    assert_eq!(with_prefix[19], 0xff);
}

#[test]
fn hex_rendering_round_trips() {
    let bytes: Vec<u8> = (0..32).map(|i| (i * 7) as u8).collect();
    let s = hex_string_of(&bytes);
    assert!(s.starts_with("0x"));
    assert_eq!(s.len(), 2 + 64);
    assert_eq!(parse_hex_fixed(&s, 32).unwrap(), bytes);
}

#[test]
fn hex_rendering_is_lower_case() {
    assert_eq!(hex_string_of(&vec![0x00, 0xff, 0x1a]), "0x00ff1a");
}

#[test]
fn without_ref_uid_drops_only_the_back_reference() {
    let mut f = empty_filter();
    f.ref_uid = Some(hash_hex(0x33));
    f.uid = Some(hash_hex(0x44));
    let q = compile_filter_without_ref_uid(&f).unwrap();
    assert!(q.ref_uid.is_none());
    assert_eq!(q.uid.unwrap(), vec![0x44; 32]);
    // A malformed back-reference still fails, even though it is dropped.
    let mut g = empty_filter();
    g.ref_uid = Some("0x12".to_string());
    assert_eq!(
        compile_filter_without_ref_uid(&g),
        Err(FilterError::MalformedField(FilterField::RefUid))
    );
}
