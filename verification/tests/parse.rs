use raspi_exporter::parser::throttled::{ThrottledParser, ThrottledState};
use raspi_exporter::parser::Parser;

#[test]
fn parse() {
    let throttled_parser = ThrottledParser;
    let result = throttled_parser.parse("throttled=0xd0005").unwrap();

    assert_eq!(
        result,
        ThrottledState {
            undervoltage_detected: true,
            arm_frequency_capped: false,
            currently_throttled: true,
            soft_temperature_limit_active: false,
            undervoltage_has_occurred: true,
            arm_frequency_capping_has_occurred: false,
            throttling_has_occurred: true,
            soft_temperature_limit_has_occurred: true,
        }
    )
}

#[test]
fn parse_bit_table_0x50005() {
    let result = ThrottledParser.parse("throttled=0x50005").unwrap();

    assert_eq!(
        result,
        ThrottledState {
            undervoltage_detected: true,
            arm_frequency_capped: false,
            currently_throttled: true,
            soft_temperature_limit_active: false,
            undervoltage_has_occurred: true,
            arm_frequency_capping_has_occurred: false,
            throttling_has_occurred: true,
            soft_temperature_limit_has_occurred: false,
        }
    )
}

#[test]
fn parse_malformed_garbage() {
    let err = ThrottledParser.parse("garbage").unwrap_err();
    assert_eq!(err.message, "invalid input: garbage");
}

#[test]
fn parse_malformed_bad_hex() {
    let err = ThrottledParser.parse("throttled=0xzz").unwrap_err();
    assert_eq!(err.message, "invalid input: throttled=0xzz");
}

#[test]
fn parse_malformed_empty() {
    let err = ThrottledParser.parse("").unwrap_err();
    assert_eq!(err.message, "invalid input: ");
}

#[test]
fn parse_tolerates_surrounding_whitespace() {
    let result = ThrottledParser.parse(" throttled=0x50005\n").unwrap();
    assert!(result.undervoltage_detected);
    assert!(result.currently_throttled);
    assert!(result.undervoltage_has_occurred);
    assert!(result.throttling_has_occurred);
    assert!(!result.soft_temperature_limit_has_occurred);
}

#[test]
fn parse_tolerates_all_unicode_whitespace() {
    // Form feed and vertical tab, as str::trim would remove them.
    let with_controls = ThrottledParser.parse("a=0x5\u{0C}\u{0B}").unwrap();
    assert!(with_controls.undervoltage_detected);
    assert!(with_controls.currently_throttled);

    // Non-breaking and ideographic spaces on both sides.
    let with_spaces = ThrottledParser.parse("\u{A0}throttled=0x50005\u{2003}\u{3000}").unwrap();
    assert_eq!(with_spaces, ThrottledParser.parse("throttled=0x50005").unwrap());
}

#[test]
fn parse_accepts_uppercase_hex() {
    let lower = ThrottledParser.parse("throttled=0xd0005").unwrap();
    let upper = ThrottledParser.parse("throttled=0xD0005").unwrap();
    assert_eq!(lower, upper);
}

#[test]
fn parse_requires_hex_prefix() {
    let err = ThrottledParser.parse("throttled=50005").unwrap_err();
    assert_eq!(err.message, "invalid input: throttled=50005");
}

#[test]
fn parse_requires_digits_after_prefix() {
    let err = ThrottledParser.parse("throttled=0x").unwrap_err();
    assert_eq!(err.message, "invalid input: throttled=0x");
}

#[test]
fn parse_rejects_value_beyond_32_bits() {
    let err = ThrottledParser.parse("throttled=0x100000000").unwrap_err();
    assert_eq!(err.message, "invalid input: throttled=0x100000000");

    let ok = ThrottledParser.parse("throttled=0xffffffff").unwrap();
    assert!(ok.undervoltage_detected);
    assert!(ok.arm_frequency_capped);
    assert!(ok.currently_throttled);
    assert!(ok.soft_temperature_limit_active);
    assert!(ok.undervoltage_has_occurred);
    assert!(ok.arm_frequency_capping_has_occurred);
    assert!(ok.throttling_has_occurred);
    assert!(ok.soft_temperature_limit_has_occurred);
}

#[test]
fn parse_ignores_label_side() {
    let result = ThrottledParser.parse("=0x5").unwrap();
    assert!(result.undervoltage_detected);
    assert!(!result.arm_frequency_capped);
    assert!(result.currently_throttled);
    assert!(!result.undervoltage_has_occurred);
}

#[test]
fn parse_zero_clears_all_flags() {
    let result = ThrottledParser.parse("throttled=0x0").unwrap();
    assert_eq!(
        result,
        ThrottledState {
            undervoltage_detected: false,
            arm_frequency_capped: false,
            currently_throttled: false,
            soft_temperature_limit_active: false,
            undervoltage_has_occurred: false,
            arm_frequency_capping_has_occurred: false,
            throttling_has_occurred: false,
            soft_temperature_limit_has_occurred: false,
        }
    )
}
