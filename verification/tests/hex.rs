use omnifrons_shell::domain::{Id64, Sha256Digest};
use omnifrons_shell::hex::{parse_hex, to_hex};
use omnifrons_shell::text::decimal_string;

#[test]
fn hex_renders_lowercase_and_parses_either_case() {
    assert_eq!(to_hex(&[0x00, 0xab, 0x7f]), "00ab7f");
    assert_eq!(parse_hex("00AB7f", 3), Some(vec![0x00, 0xab, 0x7f]));
    assert_eq!(parse_hex("00ab7", 3), None);
    assert_eq!(parse_hex("00ab7g", 3), None);
}

#[test]
fn a_rendered_digest_parses_back_to_itself() {
    let digest = Sha256Digest([0x5a; 32]);
    let parsed = Sha256Digest::from_hex(&digest.to_hex()).expect("64 hex characters");
    assert!(parsed.same_as(&digest));
    let id = Id64([1, 2, 3, 4, 5, 6, 7, 8]);
    assert_eq!(id.to_hex(), "0102030405060708");
    assert!(Id64::from_hex(&id.to_hex()).expect("16 hex characters").same_as(&id));
    assert!(Sha256Digest::from_hex("abc").is_none());
}

#[test]
fn counts_render_in_decimal() {
    assert_eq!(decimal_string(0), "0");
    assert_eq!(decimal_string(7), "7");
    assert_eq!(decimal_string(1024), "1024");
    assert_eq!(decimal_string(u64::MAX), "18446744073709551615");
}
