use mvs_sdk_rs::{
    devices_from_list, ipv4_from_sdk, mac_from_parts, sdk_text, CameraLinkFields, DeviceInfo,
    GentlFields, GigeFields, RawDeviceInfo, TransportLayer, UsbFields,
};

fn gentl(name: &str) -> GentlFields {
    let field = |part: &str| format!("{name}-{part}\0rest").into_bytes();
    GentlFields {
        vendor_name: field("vendor"),
        model_name: field("model"),
        serial_number: field("serial"),
        user_defined_name: field("user"),
        device_version: field("version"),
    }
}

fn record(layer: TransportLayer) -> RawDeviceInfo {
    let field = |text: &str| format!("{text}\0rest").into_bytes();
    RawDeviceInfo {
        major_version: 1,
        minor_version: 2,
        mac_high: 0x0000_0102,
        mac_low: 0x0304_0506,
        transport_layer: layer.raw(),
        device_type_info: 77,
        gige: GigeFields {
            manufacturer_name: field("gige-maker"),
            model_name: field("gige-model"),
            serial_number: field("gige-serial"),
            user_defined_name: field("gige-user"),
            device_version: field("gige-version"),
            manufacturer_specific_info: field("gige-info"),
            current_ip: 0xC0A8_0102,
            current_subnet_mask: 0xFFFF_FF00,
            default_gateway: 0xC0A8_0101,
            net_export: 0xC0A8_0164,
        },
        usb: UsbFields {
            manufacturer_name: field("usb-maker"),
            model_name: field("usb-model"),
            serial_number: field("usb-serial"),
            user_defined_name: field("usb-user"),
            device_version: field("usb-version"),
        },
        camera_link: CameraLinkFields {
            manufacturer_name: field("cl-maker"),
            model_name: field("cl-model"),
            serial_number: field("cl-serial"),
            device_version: field("cl-version"),
        },
        gentl_camera_link: gentl("cml"),
        gentl_cxp: gentl("cxp"),
        gentl_xof: gentl("xof"),
        gentl_virtual: gentl("vir"),
        snapshot: vec![1, 2, 3],
    }
}

fn decoded(layer: TransportLayer) -> DeviceInfo {
    DeviceInfo::from_record(record(layer))
}

#[test]
fn words_become_big_endian_bytes() {
    assert_eq!(
        mac_from_parts(0x0102_0304, 0x0506_0708),
        [1, 2, 3, 4, 5, 6, 7, 8]
    );
    assert_eq!(ipv4_from_sdk(0xC0A8_0102).octets(), [192, 168, 1, 2]);
}

#[test]
fn gige_devices_have_addresses_and_specific_info() {
    for layer in [
        TransportLayer::GIGE(),
        TransportLayer::VIR_GIGE(),
        TransportLayer::GENTL_GIGE(),
    ] {
        let device = decoded(layer);
        assert!(device.is_gige());
        assert!(!device.is_usb());
        let properties = &device.properties;
        assert_eq!(properties.manufacturer.as_bytes(), b"gige-maker");
        assert_eq!(properties.model.as_bytes(), b"gige-model");
        assert_eq!(properties.serial.as_bytes(), b"gige-serial");
        assert_eq!(properties.user_defined_name.as_bytes(), b"gige-user");
        assert_eq!(properties.device_version.as_bytes(), b"gige-version");
        assert_eq!(properties.manufacturer_specific_info.as_bytes(), b"gige-info");
        assert_eq!(properties.current_ip.unwrap().octets(), [192, 168, 1, 2]);
        assert_eq!(
            properties.current_subnet_mask.unwrap().octets(),
            [255, 255, 255, 0]
        );
        assert_eq!(properties.default_gateway.unwrap().octets(), [192, 168, 1, 1]);
        assert_eq!(properties.host_nic_ip.unwrap().octets(), [192, 168, 1, 100]);
        assert_eq!(properties.mac_address, [0, 0, 1, 2, 3, 4, 5, 6]);
        assert_eq!((properties.major_version, properties.minor_version), (1, 2));
        assert_eq!(properties.device_type_info, 77);
        assert!(properties.transport_layer == layer);
    }
}

#[test]
fn usb_devices_have_neither() {
    for layer in [TransportLayer::USB(), TransportLayer::VIR_USB()] {
        let device = decoded(layer);
        assert!(device.is_usb());
        assert_eq!(device.properties.manufacturer.as_bytes(), b"usb-maker");
        assert_eq!(device.properties.user_defined_name.as_bytes(), b"usb-user");
        assert!(device.properties.manufacturer_specific_info.is_empty());
        assert!(device.properties.current_ip.is_none());
        assert!(device.properties.current_subnet_mask.is_none());
        assert!(device.properties.default_gateway.is_none());
        assert!(device.properties.host_nic_ip.is_none());
    }
}

#[test]
fn camera_link_devices_have_no_user_defined_name() {
    let device = decoded(TransportLayer::CAMERALINK());
    assert_eq!(device.properties.model.as_bytes(), b"cl-model");
    assert_eq!(device.properties.device_version.as_bytes(), b"cl-version");
    assert!(device.properties.user_defined_name.is_empty());
}

#[test]
fn frame_grabber_devices_name_their_vendor() {
    let cases = [
        (TransportLayer::GENTL_CAMERALINK(), "cml"),
        (TransportLayer::GENTL_CXP(), "cxp"),
        (TransportLayer::GENTL_XOF(), "xof"),
        (TransportLayer::GENTL_VIR(), "vir"),
    ];
    for (layer, name) in cases {
        let properties = decoded(layer).properties;
        assert_eq!(
            properties.manufacturer.to_str().unwrap(),
            format!("{name}-vendor")
        );
        assert_eq!(properties.serial.to_str().unwrap(), format!("{name}-serial"));
        assert_eq!(
            properties.user_defined_name.to_str().unwrap(),
            format!("{name}-user")
        );
        assert!(properties.manufacturer_specific_info.is_empty());
    }
}

#[test]
fn unknown_transports_have_no_texts() {
    for layer in [
        TransportLayer::UNKNOWN(),
        TransportLayer::IEEE_1394(),
        TransportLayer::GIGE() | TransportLayer::USB(),
    ] {
        let device = decoded(layer);
        assert!(device.properties.manufacturer.is_empty());
        assert!(device.properties.serial.is_empty());
        assert!(device.properties.current_ip.is_none());
        assert_eq!(device.properties.device_type_info, 77);
    }
}

#[test]
fn equality_goes_by_the_decoded_fields() {
    let one = decoded(TransportLayer::USB());
    let mut raw = record(TransportLayer::USB());
    raw.snapshot = vec![9];
    raw.gige.current_ip = 0;
    let other = DeviceInfo::from_record(raw);
    assert!(one == other);
    assert_eq!(other.as_raw().snapshot, [9]);
    let mut raw = record(TransportLayer::USB());
    raw.usb.serial_number = b"another\0".to_vec();
    assert!(one != DeviceInfo::from_record(raw));
    assert!(one != decoded(TransportLayer::VIR_USB()));
    assert!(one.clone() == one);
}

#[test]
fn enumeration_is_bounded_and_skips_empty_entries() {
    let list = || {
        vec![
            Some(record(TransportLayer::GIGE())),
            None,
            Some(record(TransportLayer::USB())),
            Some(record(TransportLayer::GENTL_CXP())),
        ]
    };
    let three = devices_from_list(3, list());
    assert_eq!(three.len(), 2);
    assert!(three[0].is_gige());
    assert!(three[1].is_usb());
    assert_eq!(devices_from_list(0, list()).len(), 0);
    assert_eq!(devices_from_list(400, list()).len(), 3);
    assert_eq!(devices_from_list(1, Vec::new()).len(), 0);
}

#[test]
fn absent_fields_are_empty_texts() {
    assert!(sdk_text(None).is_empty());
    assert_eq!(sdk_text(Some(b"ab\0c")).as_bytes(), b"ab");
}

#[test]
fn snapshots_of_one_record_are_equal() {
    assert!(decoded(TransportLayer::GIGE()) == decoded(TransportLayer::GIGE()));
    assert!(decoded(TransportLayer::GENTL_VIR()) == decoded(TransportLayer::GENTL_VIR()));
}

#[test]
fn device_diagnostics_are_exact() {
    let mut raw = record(TransportLayer::GIGE());
    raw.gige.manufacturer_name = b"M\0".to_vec();
    raw.gige.model_name = b"\0".to_vec();
    raw.gige.serial_number = b"S\0".to_vec();
    raw.gige.user_defined_name = b"\0".to_vec();
    raw.gige.device_version = b"\0".to_vec();
    raw.gige.manufacturer_specific_info = b"\0".to_vec();
    let device = DeviceInfo::from_record(raw);
    let empty = "SdkText { bytes: [], lossy: \"\" }";
    assert_eq!(
        device.debug_text(),
        format!(
            "DeviceInfo {{ transport_layer: TransportLayer(0x00000001), manufacturer: SdkText {{ \
             bytes: [77], lossy: \"M\" }}, model: {empty}, serial: SdkText {{ bytes: [83], lossy: \
             \"S\" }}, user_defined_name: {empty}, current_ip: Some(192.168.1.2) }}"
        )
    );
    assert_eq!(
        device.properties.debug_text(),
        format!(
            "DeviceProperties {{ major_version: 1, minor_version: 2, mac_address: [0, 0, 1, 2, 3, \
             4, 5, 6], transport_layer: TransportLayer(0x00000001), device_type_info: 77, \
             manufacturer: SdkText {{ bytes: [77], lossy: \"M\" }}, model: {empty}, \
             device_version: {empty}, manufacturer_specific_info: {empty}, serial: SdkText {{ \
             bytes: [83], lossy: \"S\" }}, user_defined_name: {empty}, current_ip: \
             Some(192.168.1.2), current_subnet_mask: Some(255.255.255.0), default_gateway: \
             Some(192.168.1.1), host_nic_ip: Some(192.168.1.100) }}"
        )
    );
    let usb = decoded(TransportLayer::USB()).debug_text();
    assert!(usb.ends_with("current_ip: None }"));
    assert_eq!(ipv4_from_sdk(0x0A00_00FF).text(), "10.0.0.255");
}
