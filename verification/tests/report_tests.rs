use pmw_mouse::button_data::ButtonData;
use pmw_mouse::motion_data::MotionData;
use pmw_mouse::mouse_report::{hid_descriptor, MouseReport};

#[test]
fn report_layout_example() {
    let motion = MotionData { delta_x: 5, delta_y: -2 };
    let buttons = ButtonData { left_click: true, middle_click: false, right_click: true };
    let report = MouseReport::new(motion, buttons);
    assert_eq!(report.as_bytes(), &[0x05, 0x05, 0xFE, 0x00]);
}

#[test]
fn report_reserved_fields_are_zero() {
    let samples = [
        (MotionData { delta_x: 0, delta_y: 0 }, 0u8),
        (MotionData { delta_x: 127, delta_y: -128 }, 7u8),
        (MotionData { delta_x: -1, delta_y: 1 }, 3u8),
    ];
    for (motion, bits) in samples {
        let buttons = ButtonData {
            left_click: bits & 1 != 0,
            middle_click: bits & 2 != 0,
            right_click: bits & 4 != 0,
        };
        let report = MouseReport::new(motion, buttons);
        let bytes = report.as_bytes();
        assert_eq!(bytes.len(), 4);
        assert_eq!(bytes[3], 0);
        assert_eq!(bytes[0] & 0xF8, 0);
    }
}

#[test]
fn report_carries_twos_complement_deltas() {
    let motion = MotionData { delta_x: -128, delta_y: 127 };
    let buttons = ButtonData { left_click: false, middle_click: false, right_click: false };
    let report = MouseReport::new(motion, buttons);
    assert_eq!(report.as_bytes(), &[0x00, 0x80, 0x7F, 0x00]);
}

#[test]
fn descriptor_is_the_fixed_mouse_layout() {
    let desc = hid_descriptor();
    assert_eq!(desc.len(), 52);
    let expected: [u8; 52] = [
        0x05, 0x01, 0x09, 0x02, 0xa1, 0x01, 0x09, 0x01, 0xa1, 0x00, 0x05, 0x09, 0x19, 0x01, 0x29,
        0x03, 0x15, 0x00, 0x25, 0x01, 0x95, 0x03, 0x75, 0x01, 0x81, 0x02, 0x95, 0x01, 0x75, 0x05,
        0x81, 0x01, 0x05, 0x01, 0x09, 0x30, 0x09, 0x31, 0x09, 0x38, 0x15, 0x81, 0x25, 0x7f, 0x75,
        0x08, 0x95, 0x03, 0x81, 0x06, 0xc0, 0xc0,
    ];
    assert_eq!(desc, expected);
}
