//! The assists mask layout and the named-field decoding behaviour.

use telemetry::Assists;

fn all_zero() -> Assists {
    Assists {
        steering_assist: Some(0),
        braking_assist: Some(0),
        gearbox_assist: Some(0),
        pit_assist: Some(0),
        pit_release_assist: Some(0),
        ers_assist: Some(0),
        drs_assist: Some(0),
        dynamic_racing_line: Some(0),
        traction_control: Some(0),
        anti_lock_brakes: Some(false),
    }
}

#[test]
fn all_fields_zero_give_mask_zero() {
    assert_eq!(all_zero().get_mask(), Ok(0));
}

#[test]
fn steering_alone_sets_bit_zero() {
    let mut a = all_zero();
    a.steering_assist = Some(1);
    assert_eq!(a.get_mask(), Ok(0b1));
}

#[test]
fn anti_lock_alone_sets_bit_thirteen() {
    let mut a = all_zero();
    a.anti_lock_brakes = Some(true);
    assert_eq!(a.get_mask(), Ok(0b10_0000_0000_0000));
}

#[test]
fn mask_places_every_field_at_its_offset() {
    let a = Assists {
        steering_assist: Some(1),
        braking_assist: Some(3),
        gearbox_assist: Some(3),
        pit_assist: Some(1),
        pit_release_assist: Some(1),
        ers_assist: Some(1),
        drs_assist: Some(1),
        dynamic_racing_line: Some(2),
        traction_control: Some(2),
        anti_lock_brakes: Some(true),
    };
    let expected: u16 = 1
        | (3 << 1)
        | (3 << 3)
        | (1 << 5)
        | (1 << 6)
        | (1 << 7)
        | (1 << 8)
        | (2 << 10)
        | (2 << 12)
        | (1 << 13);
    assert_eq!(a.get_mask(), Ok(expected));
}

#[test]
fn incomplete_assists_refuse_a_mask() {
    let mut a = all_zero();
    a.traction_control = None;
    assert_eq!(a.get_mask(), Err("Assists are not initialised!"));
    let empty = Assists::unset();
    assert!(!empty.is_initialised());
    assert_eq!(empty.get_mask(), Err("Assists are not initialised!"));
}

#[test]
fn is_initialised_needs_one_field() {
    let mut a = Assists::unset();
    assert!(!a.is_initialised());
    a.ers_assist = Some(0);
    assert!(a.is_initialised());
}

#[test]
fn decode_assist_returns_masked_unshifted_bits() {
    let mut a = all_zero();
    a.gearbox_assist = Some(3);
    a.braking_assist = Some(2);
    // bits stay in wire position: gearbox occupies bits 3 and 4
    assert_eq!(a.decode_assist("gearbox_assist"), Ok(0b1_1000));
    assert_eq!(a.decode_assist("braking_assist"), Ok(0b100));
    assert_eq!(a.decode_assist("steering_assist"), Ok(0));
}

#[test]
fn decode_assist_high_fields_truncate_to_a_byte() {
    let mut a = all_zero();
    a.drs_assist = Some(1);
    a.anti_lock_brakes = Some(true);
    // the masked value keeps its wire position above bit 7, so the byte
    // result is zero: the behaviour the backend has always seen
    assert_eq!(a.decode_assist("drs_assist"), Ok(0));
    assert_eq!(a.decode_assist("anti_lock_brakes"), Ok(0));
}

#[test]
fn decode_assist_rejects_unknown_names_and_incomplete_values() {
    let a = all_zero();
    assert_eq!(a.decode_assist("launch_control"), Err("Unknown assist was supplied"));
    let mut b = all_zero();
    b.drs_assist = None;
    assert_eq!(
        b.decode_assist("steering_assist"),
        Err("Assists are not initialised!")
    );
}
