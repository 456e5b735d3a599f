use mvs_sdk_rs::codes::{MV_E_BUSY, MV_E_CALLORDER, MV_E_HANDLE, MV_E_RESOURCE};
use mvs_sdk_rs::error::CleanupStep;
use mvs_sdk_rs::{
    finite_timeout_ms, is_connected_done, owned_frame_released, record_first_error, step_of,
    AccessMode, AcquisitionMode, CameraLinkFields, CameraState, Cleanup, DeviceInfo, FloatBits,
    GentlFields, GigeFields, MvsError, MvsResult, NativeCall, NodeOp, NodeRequest, RawDeviceInfo,
    RawFrameInfo, Sdk, UsbFields, INFINITE_WAIT_MS,
};

const HANDLE: usize = 0x40;

/// A camera whose closures are numbers.
type Camera = mvs_sdk_rs::Camera<u32, u32, u32>;

fn gentl() -> GentlFields {
    GentlFields {
        vendor_name: Vec::new(),
        model_name: Vec::new(),
        serial_number: Vec::new(),
        user_defined_name: Vec::new(),
        device_version: Vec::new(),
    }
}

fn device() -> DeviceInfo {
    DeviceInfo::from_record(RawDeviceInfo {
        major_version: 0,
        minor_version: 0,
        mac_high: 0,
        mac_low: 0,
        transport_layer: 4,
        device_type_info: 0,
        gige: GigeFields {
            manufacturer_name: Vec::new(),
            model_name: Vec::new(),
            serial_number: Vec::new(),
            user_defined_name: Vec::new(),
            device_version: Vec::new(),
            manufacturer_specific_info: Vec::new(),
            current_ip: 0,
            current_subnet_mask: 0,
            default_gateway: 0,
            net_export: 0,
        },
        usb: UsbFields {
            manufacturer_name: Vec::new(),
            model_name: Vec::new(),
            serial_number: Vec::new(),
            user_defined_name: Vec::new(),
            device_version: Vec::new(),
        },
        camera_link: CameraLinkFields {
            manufacturer_name: Vec::new(),
            model_name: Vec::new(),
            serial_number: Vec::new(),
            device_version: Vec::new(),
        },
        gentl_camera_link: gentl(),
        gentl_cxp: gentl(),
        gentl_xof: gentl(),
        gentl_virtual: gentl(),
        snapshot: Vec::new(),
    })
}

fn open(sdk: &mut Sdk) -> Camera {
    let device = device();
    let attempt = sdk.open(false, &device, AccessMode::Exclusive, 0).ok().unwrap();
    let attempt = attempt.reply(sdk.runtime(), 0, HANDLE);
    let attempt = attempt.reply(sdk.runtime(), 0, 0);
    attempt.finish(sdk.runtime()).ok().unwrap()
}

fn session() -> Sdk {
    Sdk::initialize_done(0).unwrap()
}

fn start(camera: &mut Camera) {
    camera.start_grabbing(false).unwrap();
    camera.start_grabbing_done(0).unwrap();
}

fn register_image(camera: &mut Camera, callback: u32) {
    camera.register_image_callback(false, callback).unwrap();
    camera.register_image_callback_done(0).unwrap();
}

fn register_event(camera: &mut Camera, name: &str, callback: u32) -> usize {
    let call = camera.register_event_callback(false, name, callback).unwrap();
    let NativeCall::RegisterEventCallback { record, .. } = call else {
        panic!("an event registration names its record");
    };
    camera.register_event_callback_done(record, 0).unwrap();
    record
}

fn reason<T>(result: MvsResult<T>) -> &'static str {
    match result {
        Err(MvsError::InvalidState(reason)) => reason,
        _ => panic!("the operation must be refused"),
    }
}

fn is_request(request: &NodeRequest, key: &str, op: NodeOp, text: &[u8]) -> bool {
    request.handle == HANDLE
        && request.key.as_bytes() == key.as_bytes()
        && request.op == op
        && request.text.as_bytes() == text
}

fn raw_frame(len: u32) -> RawFrameInfo {
    RawFrameInfo {
        width: 2,
        height: 1,
        pixel_type: 0,
        frame_num: 1,
        frame_len: len,
        extend_width: 0,
        extend_height: 0,
        frame_len_ex: 0,
        offset_x: 0,
        offset_y: 0,
        gain: FloatBits::from_bits(0),
        exposure_time: FloatBits::from_bits(0),
        trigger_index: 0,
        lost_packets: 0,
        device_timestamp_high: 0,
        device_timestamp_low: 0,
        host_timestamp: 0,
    }
}

/// Run a cleanup, with a code for each call.
fn run(mut cleanup: Cleanup, codes: &[i32]) -> (Vec<NativeCall>, Cleanup) {
    let mut calls = Vec::new();
    let mut i = 0;
    while let Some(call) = cleanup.next_call() {
        calls.push(call);
        cleanup.reply(codes[i]);
        i += 1;
    }
    (calls, cleanup)
}

#[test]
fn finite_timeout_rejects_infinite_sentinel() {
    assert!(matches!(
        finite_timeout_ms(INFINITE_WAIT_MS),
        Err(MvsError::InvalidState(_))
    ));
    assert_eq!(finite_timeout_ms(0).unwrap(), 0);
    assert_eq!(
        finite_timeout_ms(INFINITE_WAIT_MS - 1).unwrap(),
        u32::MAX - 1
    );
}

#[test]
fn grabbing_follows_confirmed_calls() {
    let mut sdk = session();
    let mut camera = open(&mut sdk);
    assert_eq!(
        camera.start_grabbing(false).unwrap(),
        NativeCall::StartGrabbing { handle: HANDLE }
    );
    assert_eq!(
        camera
            .start_grabbing_done(MV_E_RESOURCE as i32)
            .unwrap_err()
            .raw_code(),
        Some(MV_E_RESOURCE)
    );
    assert_eq!(reason(camera.stop_grabbing(false)), "camera is not grabbing");
    start(&mut camera);
    assert_eq!(reason(camera.start_grabbing(false)), "camera must be stopped");
    assert_eq!(
        camera.stop_grabbing(false).unwrap(),
        NativeCall::StopGrabbing { handle: HANDLE }
    );
    assert!(camera.stop_grabbing_done(-1).is_err());
    assert_eq!(camera.status().state, CameraState::Grabbing);
    camera.stop_grabbing_done(0).unwrap();
    assert_eq!(camera.status().state, CameraState::Open);
}

#[test]
fn polling_and_image_callback_exclude_each_other() {
    let mut sdk = session();
    let mut camera = open(&mut sdk);
    let polling = "polling requires active grabbing without an image callback";
    assert_eq!(reason(camera.get_image_buffer(10)), polling);
    register_image(&mut camera, 1);
    start(&mut camera);
    assert_eq!(reason(camera.get_image_buffer(10)), polling);
    assert_eq!(reason(camera.get_owned_frame_blocking()), polling);
    assert_eq!(
        reason(camera.register_image_callback(false, 2)),
        "camera must be stopped"
    );
    assert_eq!(
        reason(camera.unregister_image_callback(false)),
        "camera must be stopped"
    );
    assert_eq!(
        camera.status().acquisition_mode,
        Some(AcquisitionMode::Callback)
    );
    camera.stop_grabbing_done(0).unwrap();
    assert_eq!(
        camera.unregister_image_callback(false).unwrap(),
        Some(NativeCall::UnregisterImageCallback {
            handle: HANDLE,
            auto_free: true
        })
    );
    camera.unregister_image_callback_done(0).unwrap();
    assert_eq!(camera.unregister_image_callback(false).unwrap(), None);
    start(&mut camera);
    assert_eq!(
        camera.status().acquisition_mode,
        Some(AcquisitionMode::Polling)
    );
    assert_eq!(
        camera.get_image_buffer(10).unwrap(),
        NativeCall::GetImageBuffer {
            handle: HANDLE,
            timeout_ms: 10
        }
    );
    assert_eq!(
        camera.get_image_buffer_blocking().unwrap(),
        NativeCall::GetImageBuffer {
            handle: HANDLE,
            timeout_ms: u32::MAX
        }
    );
}

#[test]
fn finite_waits_refuse_the_sentinel_first() {
    let mut sdk = session();
    let camera = open(&mut sdk);
    let sentinel = "u32::MAX selects infinite wait; call the blocking method instead";
    assert_eq!(reason(camera.get_image_buffer(u32::MAX)), sentinel);
    assert_eq!(reason(camera.get_owned_frame(u32::MAX)), sentinel);
}

#[test]
fn polled_frames_are_guarded_or_copied() {
    let mut sdk = session();
    let mut camera = open(&mut sdk);
    start(&mut camera);
    let data = [5, 6];
    let mut guard = camera
        .get_image_buffer_done(0, 8, raw_frame(2), &data)
        .ok()
        .unwrap();
    assert_eq!(guard.frame().data(), [5, 6]);
    let release = NativeCall::FreeImageBuffer {
        handle: HANDLE,
        buffer: 8,
    };
    assert_eq!(guard.release(), Some(release));
    assert_eq!(guard.release(), None);
    let failed = camera.get_image_buffer_done(MV_E_BUSY as i32, 8, raw_frame(0), &[]);
    assert_eq!(failed.err().unwrap().raw_code(), Some(MV_E_BUSY));

    let (owned, call) = camera
        .get_owned_frame_done(0, 8, raw_frame(2), &data)
        .ok()
        .unwrap();
    assert_eq!(call, release);
    assert_eq!(owned.data(), [5, 6]);
    assert_eq!(
        owned_frame_released(owned, MV_E_BUSY as i32)
            .err()
            .unwrap()
            .raw_code(),
        Some(MV_E_BUSY)
    );
    assert!(camera
        .get_owned_frame_done(-1, 8, raw_frame(0), &[])
        .is_err());
}

#[test]
fn image_registration_rolls_back_and_repeats() {
    let mut sdk = session();
    let mut camera = open(&mut sdk);
    assert_eq!(
        camera.register_image_callback(false, 1).unwrap(),
        NativeCall::RegisterImageCallback {
            handle: HANDLE,
            auto_free: true
        }
    );
    assert_eq!(camera.image_callback().as_deref(), Some(&1));
    assert!(camera.register_image_callback_done(-1).is_err());
    assert!(camera.image_callback().is_none());
    register_image(&mut camera, 2);
    assert_eq!(
        reason(camera.register_image_callback(false, 3)),
        "callback is already registered"
    );
    assert_eq!(camera.image_callback().as_deref(), Some(&2));
    camera.image_callback_invoked(false);
    assert!(camera.image_callback().is_some());
    camera.image_callback_invoked(true);
    assert!(camera.image_callback().is_none());
    assert!(camera.status().image_cb);
    assert!(camera.unregister_image_callback_done(-1).is_err());
    assert!(camera.status().image_cb);
    camera.unregister_image_callback_done(0).unwrap();
    assert!(!camera.status().image_cb);
}

#[test]
fn exception_registration_works_while_grabbing() {
    let mut sdk = session();
    let mut camera = open(&mut sdk);
    assert_eq!(camera.unregister_exception_callback(false).unwrap(), None);
    start(&mut camera);
    assert_eq!(
        camera.register_exception_callback(false, 4).unwrap(),
        NativeCall::RegisterExceptionCallback { handle: HANDLE }
    );
    camera.register_exception_callback_done(0).unwrap();
    assert_eq!(camera.exception_callback().as_deref(), Some(&4));
    assert_eq!(
        reason(camera.register_exception_callback(false, 5)),
        "callback is already registered"
    );
    assert_eq!(
        camera.unregister_exception_callback(false).unwrap(),
        Some(NativeCall::UnregisterExceptionCallback { handle: HANDLE })
    );
    camera.exception_callback_invoked(true);
    assert!(camera.exception_callback().is_none());
    camera.unregister_exception_callback_done(0).unwrap();
    assert!(!camera.status().exception_cb);
}

#[test]
fn events_are_registered_by_name() {
    let mut sdk = session();
    let mut camera = open(&mut sdk);
    let first = register_event(&mut camera, "ExposureEnd", 1);
    let second = register_event(&mut camera, "FrameStart", 2);
    assert_eq!((first, second), (0, 1));
    assert_eq!(camera.event_name(first).unwrap().as_bytes(), b"ExposureEnd");
    assert!(camera.event_name(2).is_none());
    assert_eq!(
        reason(camera.register_event_callback(false, "ExposureEnd", 3)),
        "callback is already registered"
    );
    assert_eq!(
        camera.unregister_event_callback(false, "ExposureEnd").unwrap(),
        Some(NativeCall::UnregisterEventCallback {
            handle: HANDLE,
            record: first
        })
    );
    camera.unregister_event_callback_done(first, 0).unwrap();
    assert_eq!(
        camera.unregister_event_callback(false, "ExposureEnd").unwrap(),
        None
    );
    assert_eq!(
        camera.unregister_event_callback(false, "Unknown").unwrap(),
        None
    );
    assert_eq!(camera.event_callback(second).as_deref(), Some(&2));
    assert_eq!(camera.status().event_cbs, 1);
    assert_eq!(register_event(&mut camera, "ExposureEnd", 9), first);
    assert_eq!(camera.event_callback(first).as_deref(), Some(&9));
    camera.event_callback_invoked(first, true);
    assert!(camera.event_callback(first).is_none());
    assert_eq!(camera.event_callback(second).as_deref(), Some(&2));
    camera.event_callback_invoked(50, true);
    assert!(camera.event_callback(50).is_none());
}

#[test]
fn failed_event_registration_leaves_the_others_in_place() {
    let mut sdk = session();
    let mut camera = open(&mut sdk);
    let first = register_event(&mut camera, "ExposureEnd", 1);
    camera.register_event_callback(false, "FrameStart", 2).unwrap();
    assert_eq!(
        camera
            .register_event_callback_done(1, MV_E_RESOURCE as i32)
            .unwrap_err()
            .raw_code(),
        Some(MV_E_RESOURCE)
    );
    assert!(camera.event_name(1).is_none());
    assert_eq!(camera.event_callback(first).as_deref(), Some(&1));
    let Err(MvsError::Nul(nul)) = camera.register_event_callback(false, "a\0b", 3) else {
        panic!("an event name with a NUL must be refused");
    };
    assert_eq!(nul.nul_position(), 1);
    assert!(matches!(
        camera.unregister_event_callback(false, "a\0b"),
        Err(MvsError::Nul(_))
    ));
}

#[test]
fn node_requests_carry_their_arguments() {
    let mut sdk = session();
    let camera = open(&mut sdk);
    let get = camera.get_int("Width").unwrap();
    assert!(is_request(&get, "Width", NodeOp::GetInt, b""));
    let set = camera.set_int("Width", -5).unwrap();
    assert!(is_request(&set, "Width", NodeOp::SetInt(-5), b""));
    let get = camera.get_enum("PixelFormat").unwrap();
    assert!(is_request(&get, "PixelFormat", NodeOp::GetEnum, b""));
    let set = camera.set_enum_value("PixelFormat", 7).unwrap();
    assert!(is_request(&set, "PixelFormat", NodeOp::SetEnumValue(7), b""));
    let set = camera.set_enum_symbolic("PixelFormat", "Mono8").unwrap();
    assert!(is_request(&set, "PixelFormat", NodeOp::SetEnumSymbolic, b"Mono8"));
    let get = camera.get_float("Gain").unwrap();
    assert!(is_request(&get, "Gain", NodeOp::GetFloat, b""));
    let gain = FloatBits::from_bits(1.5f32.to_bits());
    let set = camera.set_float("Gain", gain).unwrap();
    assert!(is_request(&set, "Gain", NodeOp::SetFloat(gain), b""));
    let get = camera.get_bool("ReverseX").unwrap();
    assert!(is_request(&get, "ReverseX", NodeOp::GetBool, b""));
    let set = camera.set_bool("ReverseX", true).unwrap();
    assert!(is_request(&set, "ReverseX", NodeOp::SetBool(1), b""));
    let get = camera.get_string("DeviceUserID").unwrap();
    assert!(is_request(&get, "DeviceUserID", NodeOp::GetString, b""));
    let set = camera.set_string("DeviceUserID", b"\x80\x81").unwrap();
    assert!(is_request(&set, "DeviceUserID", NodeOp::SetString, b"\x80\x81"));
    let run = camera.exec_command("TriggerSoftware").unwrap();
    assert!(is_request(&run, "TriggerSoftware", NodeOp::ExecCommand, b""));
    let on = camera.event_notification_on(false, "ExposureEnd").unwrap();
    assert!(is_request(&on, "ExposureEnd", NodeOp::EventNotificationOn, b""));
    let off = camera.event_notification_off(false, "ExposureEnd").unwrap();
    assert!(is_request(&off, "ExposureEnd", NodeOp::EventNotificationOff, b""));
}

#[test]
fn node_requests_refuse_what_no_c_string_holds() {
    let mut sdk = session();
    let camera = open(&mut sdk);
    assert!(matches!(camera.get_int("a\0"), Err(MvsError::Nul(_))));
    let Err(MvsError::Nul(nul)) = camera.set_string("Key", b"ab\0") else {
        panic!("a text with a NUL must be refused");
    };
    assert_eq!(nul.nul_position(), 2);
    assert_eq!(nul.into_vec(), b"ab\0");
    assert!(matches!(
        camera.set_enum_symbolic("Key", "\0"),
        Err(MvsError::Nul(_))
    ));
}

#[test]
fn lifecycle_operations_change_nothing_inside_a_callback() {
    let mut sdk = session();
    let mut camera = open(&mut sdk);
    let context = "camera lifecycle operations cannot run from an MVS callback";
    let before = camera.status();
    assert_eq!(reason(camera.start_grabbing(true)), context);
    assert_eq!(reason(camera.stop_grabbing(true)), context);
    assert_eq!(reason(camera.register_image_callback(true, 1)), context);
    assert_eq!(reason(camera.unregister_image_callback(true)), context);
    assert_eq!(reason(camera.register_exception_callback(true, 1)), context);
    assert_eq!(reason(camera.unregister_exception_callback(true)), context);
    assert_eq!(
        reason(camera.register_event_callback(true, "a\0b", 1)),
        context
    );
    assert_eq!(reason(camera.unregister_event_callback(true, "a")), context);
    assert_eq!(reason(camera.event_notification_on(true, "a")), context);
    assert_eq!(reason(camera.event_notification_off(true, "a")), context);
    assert_eq!(camera.status(), before);
    assert!(camera.get_int("Width").is_ok());
}

#[test]
fn cleanup_undoes_everything_in_order() {
    let mut sdk = session();
    let mut camera = open(&mut sdk);
    register_image(&mut camera, 1);
    camera.register_exception_callback(false, 2).unwrap();
    camera.register_exception_callback_done(0).unwrap();
    let first = register_event(&mut camera, "A", 3);
    let second = register_event(&mut camera, "B", 4);
    camera.unregister_event_callback_done(first, 0).unwrap();
    start(&mut camera);

    let cleanup = camera.cleanup(false).unwrap().unwrap();
    assert!(camera.image_callback().is_none());
    assert!(camera.exception_callback().is_none());
    assert!(camera.event_callback(second).is_none());
    assert_eq!(camera.event_name(second).unwrap().as_bytes(), b"B");
    let (calls, cleanup) = run(cleanup, &[0; 6]);
    assert_eq!(
        calls,
        [
            NativeCall::StopGrabbing { handle: HANDLE },
            NativeCall::UnregisterImageCallback {
                handle: HANDLE,
                auto_free: true
            },
            NativeCall::UnregisterExceptionCallback { handle: HANDLE },
            NativeCall::UnregisterEventCallback {
                handle: HANDLE,
                record: second
            },
            NativeCall::CloseDevice { handle: HANDLE },
            NativeCall::DestroyHandle { handle: HANDLE },
        ]
    );
    assert!(cleanup.destroyed());
    assert!(camera.cleanup_done(sdk.runtime(), cleanup).is_ok());
    assert_eq!(sdk.runtime().live_native_handles(), 0);
    let status = camera.status();
    assert_eq!(status.state, CameraState::Closed);
    assert_eq!(status.handle, 0);
    assert_eq!(status.event_cbs, 0);
    assert!(camera.cleanup(false).unwrap().is_none());
    assert!(camera.cleanup(true).unwrap().is_none());
}

#[test]
fn cleanup_keeps_the_first_failure_and_that_of_the_destruction() {
    let mut sdk = session();
    let mut camera = open(&mut sdk);
    register_image(&mut camera, 1);
    start(&mut camera);
    let cleanup = camera.cleanup(false).unwrap().unwrap();
    let codes = [
        0,
        MV_E_RESOURCE as i32,
        MV_E_CALLORDER as i32,
        MV_E_HANDLE as i32,
    ];
    let (calls, cleanup) = run(cleanup, &codes);
    assert_eq!(calls.len(), 4);
    assert!(!cleanup.destroyed());
    let error = camera.cleanup_done(sdk.runtime(), cleanup).unwrap_err();
    assert_eq!(error.failures().len(), 2);
    let prior = error.first_prior_failure().unwrap();
    assert_eq!(prior.step, CleanupStep::UnregisterImageCallback);
    assert_eq!(prior.error.raw_code(), Some(MV_E_RESOURCE));
    assert_eq!(error.destroy_error().unwrap().raw_code(), Some(MV_E_HANDLE));
    assert!(!error.native_handle_destroyed());
    assert_eq!(sdk.runtime().live_native_handles(), 1);
    assert_eq!(camera.status().state, CameraState::Closed);
}

#[test]
fn failure_before_the_destruction_does_not_keep_the_handle() {
    let mut sdk = session();
    let mut camera = open(&mut sdk);
    let cleanup = camera.cleanup(false).unwrap().unwrap();
    let (calls, mut cleanup) = run(cleanup, &[MV_E_BUSY as i32, 0]);
    assert_eq!(calls.len(), 2);
    // A reply that nobody waits for is ignored.
    cleanup.reply(-1);
    let error = camera.cleanup_done(sdk.runtime(), cleanup).unwrap_err();
    assert!(error.native_handle_destroyed());
    assert_eq!(error.into_first_error().raw_code(), Some(MV_E_BUSY));
    assert_eq!(sdk.runtime().live_native_handles(), 0);
}

#[test]
fn cleanup_inside_a_callback_keeps_the_handle() {
    let mut sdk = session();
    let mut camera = open(&mut sdk);
    register_image(&mut camera, 1);
    let error = camera.cleanup(true).unwrap_err();
    assert_eq!(error.failures()[0].step, CleanupStep::DrainCallbacks);
    assert!(matches!(
        error.failures()[0].error,
        MvsError::InvalidState("camera cleanup cannot run from an MVS callback")
    ));
    assert!(!error.native_handle_destroyed());
    assert!(camera.image_callback().is_none());
    assert_eq!(camera.as_raw_handle(), HANDLE);
    assert_eq!(sdk.runtime().live_native_handles(), 1);
}

#[test]
fn closed_cameras_refuse_everything() {
    let mut sdk = session();
    let mut camera = open(&mut sdk);
    assert_eq!(
        camera.is_connected(),
        Some(NativeCall::IsDeviceConnected { handle: HANDLE })
    );
    let cleanup = camera.cleanup(false).unwrap().unwrap();
    let (_, cleanup) = run(cleanup, &[0, 0]);
    camera.cleanup_done(sdk.runtime(), cleanup).unwrap();
    let gone = "camera handle is unavailable";
    assert_eq!(reason(camera.start_grabbing(false)), gone);
    assert_eq!(reason(camera.register_image_callback(false, 1)), gone);
    assert_eq!(reason(camera.register_exception_callback(false, 1)), gone);
    assert_eq!(reason(camera.register_event_callback(false, "a\0", 1)), gone);
    assert_eq!(reason(camera.get_int("a\0")), gone);
    assert_eq!(camera.is_connected(), None);
    assert_eq!(camera.as_raw_handle(), 0);
    assert!(!is_connected_done(None));
    assert!(is_connected_done(Some(1)));
    assert!(!is_connected_done(Some(0)));
}

#[test]
fn first_error_is_recorded_once() {
    let mut first = None;
    record_first_error(&mut first, CleanupStep::StopGrabbing, Ok(()));
    assert!(first.is_none());
    record_first_error(&mut first, CleanupStep::CloseDevice, Err(MvsError::Busy));
    record_first_error(&mut first, CleanupStep::DestroyHandle, Err(MvsError::Handle));
    let kept = first.unwrap();
    assert_eq!(kept.step, CleanupStep::CloseDevice);
    assert_eq!(kept.error.raw_code(), Some(MV_E_BUSY));
    assert_eq!(
        step_of(NativeCall::DestroyHandle { handle: 1 }),
        Some(CleanupStep::DestroyHandle)
    );
    assert_eq!(step_of(NativeCall::Initialize), None);
}

#[test]
fn camera_diagnostics_are_exact() {
    let mut sdk = session();
    let mut camera = open(&mut sdk);
    assert_eq!(
        camera.status().debug_text(),
        "Camera { handle: 0x40, state: \"Open\", image_cb: false, exception_cb: false, \
         event_cbs: 0 }"
    );
    register_image(&mut camera, 1);
    register_event(&mut camera, "A", 1);
    start(&mut camera);
    assert_eq!(
        camera.status().debug_text(),
        "Camera { handle: 0x40, state: \"Grabbing\", acquisition_mode: \"Callback\", \
         image_cb: true, exception_cb: false, event_cbs: 1 }"
    );
    let cleanup = camera.cleanup(false).unwrap().unwrap();
    let (_, cleanup) = run(cleanup, &[0; 5]);
    camera.cleanup_done(sdk.runtime(), cleanup).unwrap();
    assert_eq!(
        camera.status().debug_text(),
        "Camera { handle: 0x0, state: \"Closed\", image_cb: false, exception_cb: false, \
         event_cbs: 0 }"
    );
}

#[test]
fn failed_event_deregistration_keeps_the_registration() {
    let mut sdk = session();
    let mut camera = open(&mut sdk);
    let record = register_event(&mut camera, "A", 7);
    assert_eq!(
        camera
            .unregister_event_callback_done(record, MV_E_BUSY as i32)
            .unwrap_err()
            .raw_code(),
        Some(MV_E_BUSY)
    );
    assert_eq!(camera.event_callback(record).as_deref(), Some(&7));
    assert_eq!(camera.status().event_cbs, 1);
}

#[test]
fn failed_start_keeps_an_image_callback() {
    let mut sdk = session();
    let mut camera = open(&mut sdk);
    register_image(&mut camera, 3);
    let before = camera.status();
    assert!(camera.start_grabbing_done(MV_E_BUSY as i32).is_err());
    assert_eq!(camera.status(), before);
    assert_eq!(camera.image_callback().as_deref(), Some(&3));
    assert!(camera.unregister_image_callback_done(MV_E_BUSY as i32).is_err());
    assert_eq!(camera.status(), before);
    assert_eq!(camera.image_callback().as_deref(), Some(&3));
}

#[test]
fn failed_later_event_registration_empties_its_record() {
    let mut sdk = session();
    let mut camera = open(&mut sdk);
    let record = register_event(&mut camera, "A", 7);
    camera.unregister_event_callback_done(record, 0).unwrap();
    camera.register_event_callback(false, "A", 8).unwrap();
    assert_eq!(camera.event_callback(record).as_deref(), Some(&8));
    assert!(camera.register_event_callback_done(record, MV_E_BUSY as i32).is_err());
    assert_eq!(camera.event_name(record).unwrap().as_bytes(), b"A");
    assert!(camera.event_callback(record).is_none());
    assert_eq!(camera.status().event_cbs, 0);
}

#[test]
fn other_registrations_outlast_a_failed_one() {
    let mut sdk = session();
    let mut camera = open(&mut sdk);
    let kept = register_event(&mut camera, "A", 7);
    camera.register_event_callback(false, "B", 8).unwrap();
    assert!(camera.register_event_callback_done(1, -1).is_err());
    assert_eq!(
        camera.unregister_event_callback(false, "A").unwrap(),
        Some(NativeCall::UnregisterEventCallback {
            handle: HANDLE,
            record: kept
        })
    );
    assert_eq!(camera.status().event_cbs, 1);
}

#[test]
fn overlapping_registrations_keep_their_indices() {
    let mut sdk = session();
    let mut camera = open(&mut sdk);
    camera.register_event_callback(false, "A", 1).unwrap();
    assert_eq!(
        camera.register_event_callback(false, "B", 2).unwrap(),
        NativeCall::RegisterEventCallback {
            handle: HANDLE,
            record: 1
        }
    );
    camera.register_event_callback_done(1, 0).unwrap();
    assert!(camera.register_event_callback_done(0, MV_E_BUSY as i32).is_err());
    assert!(camera.event_callback(0).is_none());
    assert_eq!(camera.event_callback(1).as_deref(), Some(&2));
    assert_eq!(
        camera.unregister_event_callback(false, "B").unwrap(),
        Some(NativeCall::UnregisterEventCallback {
            handle: HANDLE,
            record: 1
        })
    );
    assert_eq!(camera.unregister_event_callback(false, "A").unwrap(), None);
    assert_eq!(register_event(&mut camera, "A", 3), 0);
    assert_eq!(camera.status().event_cbs, 2);
}
