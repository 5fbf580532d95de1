//! Persistence codec: round trips and rejection of invalid stored values.

use auto_brew::setpoint::target_from_bytes;
use auto_brew::setpoint::target_to_bytes;
use auto_brew::MAX_TEMP;
use auto_brew::MIN_TEMP;

#[test]
fn saving_nineteen_and_a_half_loads_back() {
    // 19.5 degrees C = 312 sixteenths; its float bits are 0x419C0000.
    let bytes = target_to_bytes(312);
    assert_eq!(bytes, [0x00, 0x00, 0x9C, 0x41]);
    assert_eq!(target_from_bytes(&bytes), Some(312));
}

#[test]
fn every_selectable_half_degree_round_trips() {
    let mut t = MIN_TEMP;
    while t <= MAX_TEMP {
        assert_eq!(target_from_bytes(&target_to_bytes(t)), Some(t));
        t += 8;
    }
}

#[test]
fn an_out_of_range_stored_value_loads_as_nothing() {
    // 50.0f32 is 0x42480000: above the selectable range.
    assert_eq!(target_from_bytes(&[0x00, 0x00, 0x48, 0x42]), None);
    // 10.5f32 is 0x41280000: below it.
    assert_eq!(target_from_bytes(&[0x00, 0x00, 0x28, 0x41]), None);
}

#[test]
fn garbage_stored_values_load_as_nothing() {
    // -19.5f32: negative values are rejected.
    assert_eq!(target_from_bytes(&[0x00, 0x00, 0x9C, 0xC1]), None);
    // A NaN pattern.
    assert_eq!(target_from_bytes(&[0x00, 0x00, 0xC0, 0x7F]), None);
    // Erased flash reads as all ones: another NaN pattern.
    assert_eq!(target_from_bytes(&[0xFF, 0xFF, 0xFF, 0xFF]), None);
    // Zeroed flash is 0.0f32: out of range.
    assert_eq!(target_from_bytes(&[0x00, 0x00, 0x00, 0x00]), None);
}

#[test]
fn the_range_bounds_are_inclusive() {
    // 11.0f32 = 0x41300000, 27.0f32 = 0x41D80000.
    assert_eq!(target_from_bytes(&[0x00, 0x00, 0x30, 0x41]), Some(MIN_TEMP));
    assert_eq!(target_from_bytes(&[0x00, 0x00, 0xD8, 0x41]), Some(MAX_TEMP));
    // One pattern below 11.0 and one above 27.0 are rejected.
    assert_eq!(target_from_bytes(&[0xFF, 0xFF, 0x2F, 0x41]), None);
    assert_eq!(target_from_bytes(&[0x01, 0x00, 0xD8, 0x41]), None);
}

#[test]
fn stored_values_between_grid_points_round_to_sixteenths() {
    // 19.51f32 is 0x419C147B: nearest sixteenth is 312 (19.5).
    assert_eq!(target_from_bytes(&[0x7B, 0x14, 0x9C, 0x41]), Some(312));
}
