use magic_buffer::error::decimal_string;
use magic_buffer::length::{is_power_of_two, validate};
use magic_buffer::MagicBufferError;

fn reason(len: usize, min_len: usize) -> Option<String> {
    match validate(len, min_len) {
        Ok(()) => None,
        Err(MagicBufferError::InvalidLen { msg }) => Some(msg),
        Err(MagicBufferError::OOM) => panic!("a length is never out of memory"),
    }
}

#[test]
fn validate_accepts_multiples_that_are_powers_of_two() {
    assert!(validate(4096, 4096).is_ok());
    assert!(validate(1 << 16, 4096).is_ok());
    assert!(validate(1 << 16, 1 << 16).is_ok());
    assert!(validate(1 << 30, 4096).is_ok());
    assert!(validate(1, 1).is_ok());
    assert!(validate(usize::MAX / 2 + 1, 4096).is_ok());
}

#[test]
fn validate_names_the_first_rule_that_is_broken() {
    assert_eq!(reason(0, 4096).as_deref(), Some("len must be greater than 0"));
    assert_eq!(reason((1 << 16) + 5, 4096).as_deref(), Some("len must be power of two"));
    assert_eq!(reason(3 * 4096, 4096).as_deref(), Some("len must be power of two"));
    assert_eq!(reason(usize::MAX, 4096).as_deref(), Some("len must be power of two"));
    assert_eq!(reason(1 << 8, 4096).as_deref(), Some("len must be page aligned, 4096"));
    assert_eq!(reason(1 << 12, 65536).as_deref(), Some("len must be page aligned, 65536"));
    assert_eq!(reason(2048, 4096).as_deref(), Some("len must be page aligned, 4096"));
    assert_eq!(reason(8, 3).as_deref(), Some("len must be page aligned, 3"));
    assert_eq!(reason(1 << 16, 4096), None);
}

#[test]
fn validate_agrees_with_the_definition_on_small_lengths() {
    for min_len in [1usize, 2, 4, 8, 3, 16] {
        for len in 0..200usize {
            let valid = len.count_ones() == 1 && len % min_len == 0;
            assert_eq!(validate(len, min_len).is_ok(), valid, "{} at {}", len, min_len);
        }
    }
}

#[test]
fn powers_of_two_have_one_bit() {
    assert!(!is_power_of_two(0));
    for k in 0..usize::BITS {
        assert!(is_power_of_two(1 << k));
        assert_eq!(is_power_of_two((1 << k) + 1), k == 0);
    }
    for n in 0..5000usize {
        assert_eq!(is_power_of_two(n), n.is_power_of_two());
    }
    assert!(!is_power_of_two(usize::MAX));
}

#[test]
fn decimal_strings_are_exact() {
    assert_eq!(decimal_string(0), "0");
    assert_eq!(decimal_string(7), "7");
    assert_eq!(decimal_string(10), "10");
    assert_eq!(decimal_string(4096), "4096");
    assert_eq!(decimal_string(65536), "65536");
    assert_eq!(decimal_string(1234567890), "1234567890");
    assert_eq!(decimal_string(usize::MAX), usize::MAX.to_string());
    for n in 0..2000usize {
        assert_eq!(decimal_string(n), n.to_string());
    }
}

#[test]
fn errors_say_what_they_are() {
    assert_eq!(MagicBufferError::OOM.to_string(), "out of memory");
    let e = MagicBufferError::InvalidLen { msg: "len must be power of two".to_string() };
    assert_eq!(e.to_string(), "invalid buffer len, len must be power of two");
    let e = MagicBufferError::InvalidLen { msg: String::new() };
    assert_eq!(e.to_string(), "invalid buffer len, ");
    assert_eq!(format!("{:?}", MagicBufferError::OOM), "OOM");
}
