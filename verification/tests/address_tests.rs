//! Address text parsing tests.

use berserker::address::{parse_address, AddressError};
use berserker::Ipv4Octets;

#[test]
fn test_parse_bracketed_address() {
    assert_eq!(
        parse_address(b"[10, 0, 0, 1]"),
        Ok(Ipv4Octets::new(10, 0, 0, 1))
    );
}

#[test]
fn test_parse_bare_address() {
    assert_eq!(
        parse_address(b"192,168,1,100"),
        Ok(Ipv4Octets::new(192, 168, 1, 100))
    );
}

#[test]
fn test_parse_address_whitespace() {
    assert_eq!(
        parse_address(b"  [ 255 ,0,\t0 , 255 ]  "),
        Ok(Ipv4Octets::new(255, 0, 0, 255))
    );
}

#[test]
fn test_parse_address_wrong_part_count() {
    assert_eq!(parse_address(b"[10, 0, 1]"), Err(AddressError::WrongPartCount));
    assert_eq!(
        parse_address(b"[10, 0, 0, 1, 2]"),
        Err(AddressError::WrongPartCount)
    );
}

#[test]
fn test_parse_address_invalid_octet() {
    // An octet above 255, an empty piece and a non-digit piece are all
    // invalid octets, and take precedence over the part count.
    assert_eq!(parse_address(b"[10, 0, 0, 256]"), Err(AddressError::InvalidOctet));
    assert_eq!(parse_address(b"[10, , 0, 1]"), Err(AddressError::InvalidOctet));
    assert_eq!(parse_address(b"[10, a, 0]"), Err(AddressError::InvalidOctet));
    assert_eq!(parse_address(b""), Err(AddressError::InvalidOctet));
}
