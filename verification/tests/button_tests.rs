use pmw_mouse::button_data::ButtonData;

fn combo(bits: u8) -> ButtonData {
    ButtonData {
        left_click: bits & 1 != 0,
        middle_click: bits & 2 != 0,
        right_click: bits & 4 != 0,
    }
}

#[test]
fn button_encode_uses_low_three_bits() {
    for bits in 0u8..8 {
        let b = combo(bits);
        assert_eq!(b.encode(), bits);
    }
}

#[test]
fn button_round_trip_all_combinations() {
    for bits in 0u8..8 {
        let b = combo(bits);
        assert_eq!(ButtonData::decode(b.encode()), b);
        assert_eq!(ButtonData::decode(bits).encode(), bits);
    }
}

#[test]
fn button_decode_ignores_reserved_bits() {
    assert_eq!(ButtonData::decode(0xF8), combo(0));
    assert_eq!(ButtonData::decode(0xFD), combo(5));
}

#[test]
fn button_mask_example() {
    // primary and secondary pressed, auxiliary released
    let b = ButtonData { left_click: true, middle_click: false, right_click: true };
    assert_eq!(b.encode(), 0b0000_0101);
}
