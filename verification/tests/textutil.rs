use web_scaffold::bytesx::{parse_u32, u32_to_dec, split_from, eq_bytes, assoc_lookup, byte_str};
use web_scaffold::errmap::{map_error, DispatchError};
use web_scaffold::extract::ExtractionError;
use web_scaffold::handlers::DomainError;

#[test]
fn parse_u32_reads_digits() {
    assert_eq!(parse_u32(b"0"), Some(0));
    assert_eq!(parse_u32(b"42"), Some(42));
    assert_eq!(parse_u32(b"0042"), Some(42));
    assert_eq!(parse_u32(b"4294967295"), Some(u32::MAX));
}

#[test]
fn parse_u32_rejects_non_numbers() {
    assert_eq!(parse_u32(b""), None);
    assert_eq!(parse_u32(b"abc"), None);
    assert_eq!(parse_u32(b"12a"), None);
    assert_eq!(parse_u32(b"-1"), None);
    assert_eq!(parse_u32(b"4294967296"), None);
}

#[test]
fn u32_to_dec_writes_digits() {
    assert_eq!(u32_to_dec(0), b"0".to_vec());
    assert_eq!(u32_to_dec(7), b"7".to_vec());
    assert_eq!(u32_to_dec(1234), b"1234".to_vec());
    assert_eq!(u32_to_dec(u32::MAX), b"4294967295".to_vec());
}

#[test]
fn dec_round_trip() {
    assert_eq!(parse_u32(&u32_to_dec(987654321)), Some(987654321));
}

#[test]
fn split_keeps_empty_parts() {
    let parts = split_from(b"a/b//c", 0, b'/');
    assert_eq!(parts, vec![b"a".to_vec(), b"b".to_vec(), b"".to_vec(), b"c".to_vec()]);
}

#[test]
fn split_of_empty_input_is_one_empty_part() {
    assert_eq!(split_from(b"", 0, b'/'), vec![b"".to_vec()]);
}

#[test]
fn split_can_start_past_a_prefix() {
    assert_eq!(split_from(b"/api/test", 1, b'/'), vec![b"api".to_vec(), b"test".to_vec()]);
}

#[test]
fn byte_equality() {
    assert!(eq_bytes(b"abc", b"abc"));
    assert!(!eq_bytes(b"abc", b"abd"));
    assert!(!eq_bytes(b"abc", b"ab"));
}

#[test]
fn assoc_lookup_first_binding_wins() {
    let pairs = vec![
        (b"k".to_vec(), b"1".to_vec()),
        (b"k".to_vec(), b"2".to_vec()),
    ];
    assert_eq!(assoc_lookup(&pairs, b"k"), Some(b"1".to_vec()));
    assert_eq!(assoc_lookup(&pairs, b"missing"), None);
}

#[test]
fn byte_str_copies_literal_bytes() {
    assert_eq!(byte_str("hello"), b"hello".to_vec());
}

#[test]
fn error_mapper_statuses() {
    assert_eq!(map_error(DispatchError::RouteNotFound, false).status, 404);
    assert_eq!(map_error(DispatchError::MethodNotAllowed, false).status, 405);
    assert_eq!(map_error(DispatchError::Extraction(ExtractionError::Malformed), false).status, 400);
    assert_eq!(map_error(DispatchError::Extraction(ExtractionError::Malformed), true).status, 409);
    assert_eq!(map_error(DispatchError::Extraction(ExtractionError::TooLarge), true).status, 409);
    assert_eq!(
        map_error(DispatchError::Extraction(ExtractionError::Missing(b"f".to_vec())), true).status,
        400,
    );
    assert_eq!(map_error(DispatchError::LockFailure, false).status, 500);
}

#[test]
fn error_mapper_honours_declared_domain_status() {
    let e = DomainError { message: b"teapot".to_vec(), status: Some(418) };
    let r = map_error(DispatchError::Domain(e), false);
    assert_eq!(r.status, 418);
    assert_eq!(r.body, b"teapot".to_vec());
    let e2 = DomainError { message: b"oops".to_vec(), status: None };
    assert_eq!(map_error(DispatchError::Domain(e2), false).status, 500);
}
