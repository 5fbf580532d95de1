//! Fixed-point rendering of temperatures, one decimal place.

use auto_brew::textfmt::temp_text;

#[test]
fn whole_and_half_degrees_render_plainly() {
    assert_eq!(temp_text(312), b"19.5".to_vec());
    assert_eq!(temp_text(304), b"19.0".to_vec());
    assert_eq!(temp_text(432), b"27.0".to_vec());
    assert_eq!(temp_text(176), b"11.0".to_vec());
    assert_eq!(temp_text(0), b"0.0".to_vec());
}

#[test]
fn negative_temperatures_carry_a_sign() {
    assert_eq!(temp_text(-8), b"-0.5".to_vec());
    assert_eq!(temp_text(-312), b"-19.5".to_vec());
    assert_eq!(temp_text(-1), b"-0.1".to_vec());
}

#[test]
fn sixteenths_round_to_tenths_ties_to_even() {
    // 0.0625 degrees rounds up to one tenth.
    assert_eq!(temp_text(1), b"0.1".to_vec());
    // 0.25 is a tie at 2.5 tenths: down to the even 0.2.
    assert_eq!(temp_text(4), b"0.2".to_vec());
    // 0.75 is a tie at 7.5 tenths: up to the even 0.8.
    assert_eq!(temp_text(12), b"0.8".to_vec());
}

#[test]
fn wide_variances_render_with_all_digits() {
    assert_eq!(temp_text(33200), b"2075.0".to_vec());
    assert_eq!(temp_text(-33200), b"-2075.0".to_vec());
    assert_eq!(temp_text(1600), b"100.0".to_vec());
    assert_eq!(temp_text(-161), b"-10.1".to_vec());
}
