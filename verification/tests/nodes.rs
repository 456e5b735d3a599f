use mvs_sdk_rs::codes::MV_E_GC_TIMEOUT;
use mvs_sdk_rs::{
    bool_to_sdk, get_bool_done, get_enum_done, get_float_done, get_int_done, get_string_done,
    FloatBits, FloatValue, IntValue,
};

#[test]
fn replies_are_read_on_success_only() {
    let int = IntValue {
        current: 640,
        min: 16,
        max: 4096,
        inc: 16,
    };
    assert_eq!(get_int_done(0, int).unwrap(), int);
    assert_eq!(
        get_int_done(MV_E_GC_TIMEOUT as i32, int)
            .unwrap_err()
            .raw_code(),
        Some(MV_E_GC_TIMEOUT)
    );
    let float = FloatValue {
        current: FloatBits::from_bits(1.5f32.to_bits()),
        min: FloatBits::from_bits(0.0f32.to_bits()),
        max: FloatBits::from_bits(2.0f32.to_bits()),
    };
    let read = get_float_done(0, float).unwrap();
    assert_eq!(f32::from_bits(read.current.to_bits()), 1.5);
    assert!(get_float_done(-1, float).is_err());
}

#[test]
fn booleans_round_trip() {
    assert_eq!(bool_to_sdk(true), 1);
    assert_eq!(bool_to_sdk(false), 0);
    for value in [true, false] {
        assert_eq!(get_bool_done(0, bool_to_sdk(value)).unwrap(), value);
    }
    assert!(get_bool_done(0, 255).unwrap());
    assert!(get_bool_done(-1, 1).is_err());
}

#[test]
fn supported_values_are_bounded() {
    let values = [7, 8, 9];
    let two = get_enum_done(0, 8, 2, &values).unwrap();
    assert_eq!(two.current, 8);
    assert_eq!(two.supported, [7, 8]);
    assert_eq!(get_enum_done(0, 8, 300, &values).unwrap().supported, values);
    assert_eq!(get_enum_done(0, 8, 0, &values).unwrap().supported.len(), 0);
    assert!(get_enum_done(-1, 8, 2, &values).is_err());
}

#[test]
fn strings_end_at_the_first_nul() {
    let text = get_string_done(0, b"Cam\x80\0rest").unwrap();
    assert_eq!(text.as_bytes(), b"Cam\x80");
    assert_eq!(
        get_string_done(MV_E_GC_TIMEOUT as i32, b"Cam\0")
            .err()
            .unwrap()
            .raw_code(),
        Some(MV_E_GC_TIMEOUT)
    );
}
