use mvs_sdk_rs::{AccessMode, FloatBits, PixelType, TransportLayer};

#[test]
fn access_modes_have_their_numbers() {
    let modes = [
        AccessMode::Exclusive,
        AccessMode::ExclusiveWithSwitch,
        AccessMode::Control,
        AccessMode::ControlWithSwitch,
        AccessMode::ControlSwitchEnable,
        AccessMode::ControlSwitchEnableWithKey,
        AccessMode::Monitor,
    ];
    let raw: Vec<u32> = modes.iter().map(|mode| mode.raw()).collect();
    assert_eq!(raw, [1, 2, 3, 4, 5, 6, 7]);
}

#[test]
fn transports_combine_and_contain() {
    let both = TransportLayer::GIGE() | TransportLayer::USB();
    assert_eq!(both.raw(), 5);
    assert!(both.contains(TransportLayer::GIGE()));
    assert!(both.contains(TransportLayer::USB()));
    assert!(!both.contains(TransportLayer::CAMERALINK()));
    assert!(!TransportLayer::GIGE().contains(both));
    assert!(both.contains(TransportLayer::default()));
    let mut grown = TransportLayer::GIGE();
    grown |= TransportLayer::USB();
    assert!(grown == both);
    assert!(TransportLayer::ALL().contains(both));
    assert!(TransportLayer::from_raw(0x400) == TransportLayer::GENTL_VIR());
}

#[test]
fn one_transport_is_gige_or_usb_or_neither() {
    assert!(TransportLayer::VIR_GIGE().is_gige());
    assert!(TransportLayer::VIR_USB().is_usb());
    assert!(!TransportLayer::GENTL_CXP().is_gige());
    assert!(!(TransportLayer::GIGE() | TransportLayer::USB()).is_usb());
}

#[test]
fn pixel_types_are_read_from_their_bits() {
    assert_eq!(PixelType::MONO8().bits_per_pixel(), 8);
    assert!(PixelType::MONO8().is_mono());
    assert!(!PixelType::MONO8().is_color());
    assert_eq!(PixelType::RGB8_PACKED().bits_per_pixel(), 24);
    assert!(PixelType::RGB8_PACKED().is_color());
    assert!(!PixelType::UNDEFINED().is_mono());
    let custom = PixelType::from_raw(PixelType::MONO8().raw() | 0x8000_0000);
    assert!(custom.is_custom());
    assert!(custom.is_mono());
    assert_eq!(custom.bits_per_pixel(), 8);
    assert!(!PixelType::MONO8().is_custom());
}

#[test]
fn float_bits_are_kept() {
    let value = 1.25f32;
    let bits = FloatBits::from_bits(value.to_bits());
    assert_eq!(f32::from_bits(bits.to_bits()), value);
}

#[test]
fn diagnostics_show_eight_digits() {
    assert_eq!(
        TransportLayer::GIGE().debug_text(),
        "TransportLayer(0x00000001)"
    );
    assert_eq!(
        PixelType::from_raw(0xABCD_EF09).debug_text(),
        "PixelType(0xABCDEF09)"
    );
}

#[test]
fn the_full_set_holds_the_defined_bits_only() {
    assert_eq!(TransportLayer::ALL().raw(), 0x7FF);
    assert!(TransportLayer::ALL().contains(TransportLayer::ALL()));
    assert!(!TransportLayer::ALL().contains(TransportLayer::from_raw(0x800)));
}
