use mvs_sdk_rs::codes::{MV_E_ACCESS_DENIED, MV_E_BUSY, MV_E_HANDLE, MV_E_RESOURCE};
use mvs_sdk_rs::error::ShutdownError;
use mvs_sdk_rs::{
    claim_initialization, AccessMode, CameraLinkFields, CameraState, DeviceInfo, GentlFields,
    GigeFields, MvsError, MvsResult, NativeCall, OwnedFrame, Platform, RawDeviceInfo, RuntimeCore,
    Sdk, TransportLayer, UsbFields,
};

/// A camera whose closures are numbers.
type Camera = mvs_sdk_rs::Camera<u32, u32, u32>;

fn gentl() -> GentlFields {
    GentlFields {
        vendor_name: Vec::new(),
        model_name: Vec::new(),
        serial_number: Vec::new(),
        user_defined_name: Vec::new(),
        device_version: Vec::new(),
    }
}

fn record() -> RawDeviceInfo {
    RawDeviceInfo {
        major_version: 0,
        minor_version: 0,
        mac_high: 0,
        mac_low: 0,
        transport_layer: TransportLayer::USB().raw(),
        device_type_info: 0,
        gige: GigeFields {
            manufacturer_name: Vec::new(),
            model_name: Vec::new(),
            serial_number: Vec::new(),
            user_defined_name: Vec::new(),
            device_version: Vec::new(),
            manufacturer_specific_info: Vec::new(),
            current_ip: 0,
            current_subnet_mask: 0,
            default_gateway: 0,
            net_export: 0,
        },
        usb: UsbFields {
            manufacturer_name: Vec::new(),
            model_name: Vec::new(),
            serial_number: b"S1\0".to_vec(),
            user_defined_name: Vec::new(),
            device_version: Vec::new(),
        },
        camera_link: CameraLinkFields {
            manufacturer_name: Vec::new(),
            model_name: Vec::new(),
            serial_number: Vec::new(),
            device_version: Vec::new(),
        },
        gentl_camera_link: gentl(),
        gentl_cxp: gentl(),
        gentl_xof: gentl(),
        gentl_virtual: gentl(),
        snapshot: vec![4, 2],
    }
}

/// Open a camera, answering each call with a code and a handle.
fn open(sdk: &mut Sdk, replies: &[(i32, usize)]) -> (Vec<NativeCall>, MvsResult<Camera>) {
    let device = DeviceInfo::from_record(record());
    let mut attempt = sdk.open(false, &device, AccessMode::Control, 7).ok().unwrap();
    let mut calls = Vec::new();
    while let Some(call) = attempt.next_call() {
        let (code, created) = replies[calls.len()];
        calls.push(call);
        attempt = attempt.reply(sdk.runtime(), code, created);
    }
    (calls, attempt.finish(sdk.runtime()))
}

fn close(sdk: &mut Sdk, mut camera: Camera, destroy: i32) {
    let mut cleanup = camera.cleanup(false).unwrap().unwrap();
    while let Some(call) = cleanup.next_call() {
        let code = if matches!(call, NativeCall::DestroyHandle { .. }) {
            destroy
        } else {
            0
        };
        cleanup.reply(code);
    }
    let _ = camera.cleanup_done(sdk.runtime(), cleanup);
    sdk.runtime().release_lease();
}

#[test]
fn initialization_claim_is_one_shot() {
    let mut claimed = false;
    assert!(claim_initialization(&mut claimed).is_ok());
    assert!(matches!(
        claim_initialization(&mut claimed),
        Err(MvsError::InvalidState(_))
    ));
}

#[test]
fn sdk_initialize_repeatedly_reports_unsupported_platform() {
    let mut claimed = false;
    for _ in 0..2 {
        let Err(error) = Sdk::initialize(Platform::Unsupported, &mut claimed) else {
            panic!("unsupported targets must not construct an SDK");
        };

        assert!(matches!(&error, MvsError::UnsupportedPlatform));
    }
    assert!(!claimed);
    assert!(matches!(
        Sdk::version(Platform::Unsupported),
        Err(MvsError::UnsupportedPlatform)
    ));
}

#[test]
fn public_runtime_types_follow_the_thread_contract() {
    fn assert_send<T: Send>() {}
    fn assert_send_sync<T: Send + Sync>() {}

    assert_send_sync::<Sdk>();
    assert_send_sync::<DeviceInfo>();
    assert_send_sync::<OwnedFrame>();
    assert_send::<Camera>();
}

#[test]
fn a_failed_initialization_is_spent() {
    let mut claimed = false;
    assert_eq!(
        Sdk::initialize(Platform::WindowsX64Msvc, &mut claimed).unwrap(),
        NativeCall::Initialize
    );
    assert_eq!(
        Sdk::initialize_done(MV_E_RESOURCE as i32)
            .unwrap_err()
            .raw_code(),
        Some(MV_E_RESOURCE)
    );
    assert!(matches!(
        Sdk::initialize(Platform::WindowsX64Msvc, &mut claimed),
        Err(MvsError::InvalidState(
            "SDK initialization has already been attempted in this process"
        ))
    ));
}

#[test]
fn version_keeps_its_bits() {
    assert_eq!(
        Sdk::version(Platform::WindowsX64Msvc).unwrap(),
        NativeCall::GetSdkVersion
    );
    assert_eq!(Sdk::version_done(0x0407_0000), 0x0407_0000);
    assert_eq!(Sdk::version_done(-1), 0xFFFF_FFFF);
    assert_eq!(Sdk::version_done(i32::MIN), 0x8000_0000);
}

#[test]
fn devices_are_listed_on_success() {
    let sdk = Sdk::initialize_done(0).unwrap();
    let layers = TransportLayer::GIGE() | TransportLayer::USB();
    assert_eq!(sdk.devices(layers), NativeCall::EnumDevices { layers: 5 });
    let devices = Sdk::devices_done(0, 2, vec![None, Some(record()), Some(record())]).unwrap();
    assert_eq!(devices.len(), 1);
    assert_eq!(devices[0].properties.serial.as_bytes(), b"S1");
    assert_eq!(
        Sdk::devices_done(MV_E_BUSY as i32, 2, Vec::new())
            .err()
            .unwrap()
            .raw_code(),
        Some(MV_E_BUSY)
    );
}

#[test]
fn accessibility_is_asked_with_the_record() {
    let sdk = Sdk::initialize_done(0).unwrap();
    let device = DeviceInfo::from_record(record());
    let (raw, call) = sdk.is_accessible(&device, AccessMode::Monitor);
    assert_eq!(raw.snapshot, [4, 2]);
    assert_eq!(call, NativeCall::IsDeviceAccessible { mode: 7 });
    assert!(Sdk::is_accessible_done(1));
    assert!(!Sdk::is_accessible_done(0));
}

#[test]
fn open_creates_and_opens() {
    let mut sdk = Sdk::initialize_done(0).unwrap();
    let (calls, camera) = open(&mut sdk, &[(0, 0x30), (0, 0)]);
    assert_eq!(
        calls,
        [
            NativeCall::CreateHandle,
            NativeCall::OpenDevice {
                handle: 0x30,
                mode: 3,
                switchover_key: 7
            }
        ]
    );
    let camera = camera.ok().unwrap();
    assert_eq!(camera.as_raw_handle(), 0x30);
    assert_eq!(camera.status().state, CameraState::Open);
    assert_eq!(sdk.runtime().live_native_handles(), 1);
    assert_eq!(sdk.runtime().leases(), 2);
}

#[test]
fn open_is_refused_inside_a_callback() {
    let sdk = Sdk::initialize_done(0).unwrap();
    let device = DeviceInfo::from_record(record());
    assert!(matches!(
        sdk.open(true, &device, AccessMode::Exclusive, 0),
        Err(MvsError::InvalidState(
            "camera lifecycle operations cannot run from an MVS callback"
        ))
    ));
    let attempt = sdk.open(false, &device, AccessMode::Exclusive, 0).ok().unwrap();
    assert_eq!(attempt.device().as_raw().snapshot, [4, 2]);
}

#[test]
fn failed_creation_reports_its_error() {
    let mut sdk = Sdk::initialize_done(0).unwrap();
    let (calls, camera) = open(&mut sdk, &[(MV_E_RESOURCE as i32, 0)]);
    assert_eq!(calls.len(), 1);
    assert_eq!(camera.err().unwrap().raw_code(), Some(MV_E_RESOURCE));
    let (_, camera) = open(&mut sdk, &[(0, 0)]);
    assert!(matches!(camera, Err(MvsError::NullHandleAfterCreate)));
    assert_eq!(sdk.runtime().live_native_handles(), 0);
    assert_eq!(sdk.runtime().leases(), 1);
}

#[test]
fn failed_open_destroys_its_handle() {
    let mut sdk = Sdk::initialize_done(0).unwrap();
    let (calls, camera) = open(
        &mut sdk,
        &[(0, 0x30), (MV_E_ACCESS_DENIED as i32, 0), (0, 0)],
    );
    assert_eq!(calls[2], NativeCall::DestroyHandle { handle: 0x30 });
    assert_eq!(camera.err().unwrap().raw_code(), Some(MV_E_ACCESS_DENIED));
    let (calls, camera) = open(&mut sdk, &[(MV_E_BUSY as i32, 0x31), (0, 0)]);
    assert_eq!(calls[1], NativeCall::DestroyHandle { handle: 0x31 });
    assert_eq!(camera.err().unwrap().raw_code(), Some(MV_E_BUSY));
    assert_eq!(sdk.runtime().live_native_handles(), 0);
}

#[test]
fn failed_rollback_keeps_both_errors_and_the_handle() {
    let mut sdk = Sdk::initialize_done(0).unwrap();
    let (_, camera) = open(
        &mut sdk,
        &[
            (0, 0x30),
            (MV_E_ACCESS_DENIED as i32, 0),
            (MV_E_HANDLE as i32, 0),
        ],
    );
    let Err(MvsError::OpenRollback { open, destroy }) = camera else {
        panic!("both errors must be kept");
    };
    assert_eq!(open.raw_code(), Some(MV_E_ACCESS_DENIED));
    assert_eq!(destroy.raw_code(), Some(MV_E_HANDLE));
    assert_eq!(sdk.runtime().live_native_handles(), 1);
    assert!(matches!(
        sdk.shutdown(),
        Err(ShutdownError::Terminal(MvsError::NativeHandlesLive))
    ));
}

#[test]
fn shutdown_waits_for_the_cameras() {
    let mut sdk = Sdk::initialize_done(0).unwrap();
    let (_, camera) = open(&mut sdk, &[(0, 0x30), (0, 0)]);
    let Err(blocked) = sdk.shutdown() else {
        panic!("an open camera must block the shutdown");
    };
    assert!(matches!(
        blocked.source(),
        Some(MvsError::InvalidState(
            "all cameras must be dropped before SDK shutdown"
        ))
    ));
    let mut sdk = blocked.into_sdk().unwrap();
    close(&mut sdk, camera.ok().unwrap(), 0);
    assert!(matches!(sdk.shutdown(), Ok(NativeCall::Finalize)));
    assert!(Sdk::shutdown_done(0).is_ok());
}

#[test]
fn unconfirmed_destruction_rules_shutdown_out() {
    let mut sdk = Sdk::initialize_done(0).unwrap();
    let (_, camera) = open(&mut sdk, &[(0, 0x30), (0, 0)]);
    close(&mut sdk, camera.ok().unwrap(), MV_E_HANDLE as i32);
    assert_eq!(sdk.runtime().leases(), 1);
    assert!(sdk.runtime().orphaned_native_handles_live());
    let Err(error) = sdk.shutdown() else {
        panic!("a live handle must rule the shutdown out");
    };
    assert!(matches!(
        error,
        ShutdownError::Terminal(MvsError::NativeHandlesLive)
    ));
}

#[test]
fn failed_finalization_is_terminal() {
    let Err(error) = Sdk::shutdown_done(MV_E_BUSY as i32) else {
        panic!("a failed finalization must be reported");
    };
    assert_eq!(error.source().unwrap().raw_code(), Some(MV_E_BUSY));
    assert_eq!(
        error.message(),
        "MVS SDK shutdown failed: GigE: device busy or network disconnected"
    );
    assert!(error.into_sdk().is_none());
}

#[test]
fn session_counts_owners_and_handles() {
    let mut runtime = RuntimeCore::new();
    runtime.lease();
    runtime.native_handle_created();
    runtime.native_handle_created();
    assert_eq!((runtime.leases(), runtime.live_native_handles()), (2, 2));
    runtime.native_handle_destroyed();
    runtime.release_lease();
    assert_eq!((runtime.leases(), runtime.live_native_handles()), (1, 1));
    runtime.native_handle_destroyed();
    assert!(!runtime.orphaned_native_handles_live());
}
