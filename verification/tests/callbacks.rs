use std::sync::atomic::{AtomicUsize, Ordering};
use std::sync::{Arc, Mutex};

use mvs_sdk_rs::codes::{MV_E_PARAMETER, MV_OK};
use mvs_sdk_rs::{
    register_callback, register_callback_done, reject_callback_context, CallbackDepth,
    CallbackRecord, CallbackSlot, EventInfo, MvsError, RawEventInfo,
};

type ExceptionCallback = Box<dyn Fn(u32) -> bool + Send + Sync>;
type EventCallback = Box<dyn Fn(&EventInfo<'_>) + Send + Sync>;

/// Dispatch one exception the way a native trampoline does. The closure says
/// whether it panicked.
fn dispatch(slot: &mut CallbackSlot<ExceptionCallback>, msg_type: u32) {
    if let Some(callback) = slot.load() {
        let panicked = callback(msg_type);
        slot.invoked(panicked);
    }
}

fn dispatch_record(record: &mut Option<CallbackRecord<ExceptionCallback>>, msg_type: u32) {
    if let Some(record) = record.as_mut() {
        if let Some(callback) = record.load() {
            let panicked = callback(msg_type);
            record.invoked(panicked);
        }
    }
}

fn raw_event(name: &[u8]) -> RawEventInfo {
    RawEventInfo {
        name: name.to_vec(),
        event_id: 9,
        stream_channel: 3,
        block_id_high: 1,
        block_id_low: 2,
        timestamp_high: 0x1020_3040,
        timestamp_low: 0x5060_7080,
    }
}

#[test]
fn callback_panic_is_contained_at_ffi_boundary() {
    let calls = Arc::new(AtomicUsize::new(0));
    let callback_calls = Arc::clone(&calls);
    let mut slot: CallbackSlot<ExceptionCallback> = CallbackSlot::new();
    slot.set(Box::new(move |_| {
        callback_calls.fetch_add(1, Ordering::Relaxed);
        true
    }));

    dispatch(&mut slot, 1);
    // The first panic silenced the slot, so the closure is not entered again.
    dispatch(&mut slot, 1);

    assert_eq!(calls.load(Ordering::Relaxed), 1);
    assert!(slot.load().is_none());
}

#[test]
fn event_trampoline_converts_name_and_timestamp() {
    let observed = Arc::new(Mutex::new(None::<(String, u64)>));
    let callback_observed = Arc::clone(&observed);
    let mut slot: CallbackSlot<EventCallback> = CallbackSlot::new();
    slot.set(Box::new(move |event| {
        *callback_observed.lock().unwrap() = Some((event.name(), event.timestamp()));
    }));
    let mut name = b"ExposureEnd\0".to_vec();
    name.resize(128, 0);
    let raw = raw_event(&name);

    let callback = slot.load().unwrap();
    callback(&EventInfo::from_raw(&raw));

    assert_eq!(
        *observed.lock().unwrap(),
        Some(("ExposureEnd".to_string(), 0x1020_3040_5060_7080))
    );
}

#[test]
fn callback_record_registration_contract() {
    let calls = Arc::new(AtomicUsize::new(0));
    let failed_calls = Arc::clone(&calls);
    let mut record: Option<CallbackRecord<ExceptionCallback>> = None;

    let failed_callback: ExceptionCallback = Box::new(move |_| {
        failed_calls.fetch_add(1, Ordering::SeqCst);
        false
    });
    register_callback(&mut record, failed_callback).unwrap();
    // The SDK may dispatch before the native registration returns.
    dispatch_record(&mut record, 1);
    let error = register_callback_done(&mut record, MV_E_PARAMETER as i32).unwrap_err();

    assert_eq!(error.raw_code(), Some(MV_E_PARAMETER));
    assert_eq!(calls.load(Ordering::SeqCst), 1);
    assert!(record.is_none());

    let callback_calls = Arc::clone(&calls);
    let callback: ExceptionCallback = Box::new(move |_| {
        callback_calls.fetch_add(1, Ordering::SeqCst);
        false
    });
    register_callback(&mut record, callback).unwrap();
    dispatch_record(&mut record, 2);
    register_callback_done(&mut record, MV_OK as i32).unwrap();

    assert_eq!(calls.load(Ordering::SeqCst), 2);
    assert!(record.as_ref().is_some_and(|record| record.is_active()));
    let second: ExceptionCallback = Box::new(|_| false);
    assert!(matches!(
        register_callback(&mut record, second),
        Err(MvsError::InvalidState(_))
    ));

    let registered = record.as_mut().unwrap();
    assert!(registered.unregister());
    registered.unregister_done(MV_OK as i32).unwrap();
    assert!(!registered.unregister());
    dispatch_record(&mut record, 3);
    assert_eq!(calls.load(Ordering::SeqCst), 2);

    let callback_calls = Arc::clone(&calls);
    let callback: ExceptionCallback = Box::new(move |_| {
        callback_calls.fetch_add(1, Ordering::SeqCst);
        false
    });
    register_callback(&mut record, callback).unwrap();
    register_callback_done(&mut record, MV_OK as i32).unwrap();
    dispatch_record(&mut record, 4);
    assert_eq!(calls.load(Ordering::SeqCst), 3);
    record.as_mut().unwrap().unregister_done(MV_OK as i32).unwrap();
}

#[test]
fn failed_later_registration_keeps_an_empty_record() {
    let mut record: Option<CallbackRecord<u32>> = None;
    register_callback(&mut record, 1).unwrap();
    register_callback_done(&mut record, 0).unwrap();
    record.as_mut().unwrap().unregister_done(0).unwrap();

    register_callback(&mut record, 2).unwrap();
    assert!(register_callback_done(&mut record, -1).is_err());
    let kept = record.as_ref().unwrap();
    assert!(!kept.is_active());
    assert!(kept.is_committed());
    assert!(kept.load().is_none());
}

#[test]
fn failed_deregistration_keeps_the_closure() {
    let mut record: CallbackRecord<u32> = CallbackRecord::new();
    record.register(7).unwrap();
    record.register_done(0).unwrap();
    assert_eq!(
        record.unregister_done(MV_E_PARAMETER as i32).unwrap_err().raw_code(),
        Some(MV_E_PARAMETER)
    );
    assert!(record.is_active());
    assert_eq!(record.load().as_deref(), Some(&7));
    record.silence();
    assert!(record.is_active());
    assert!(record.load().is_none());
}

#[test]
fn registering_twice_names_the_reason() {
    let mut record: CallbackRecord<u32> = CallbackRecord::new();
    record.register(7).unwrap();
    record.register_done(0).unwrap();
    let refused = record.register(8);
    assert!(matches!(
        refused,
        Err(MvsError::InvalidState("callback is already registered"))
    ));
    assert_eq!(record.load().as_deref(), Some(&7));
}

#[test]
fn a_loaded_closure_survives_its_slot() {
    let mut slot: CallbackSlot<u32> = CallbackSlot::new();
    assert!(slot.load().is_none());
    slot.set(5);
    let running = slot.load().unwrap();
    slot.clear();
    assert!(slot.load().is_none());
    assert_eq!(*running, 5);
    slot.set(6);
    slot.invoked(false);
    assert_eq!(slot.load().as_deref(), Some(&6));
}

#[test]
fn event_fields_are_joined_and_copied() {
    let raw = raw_event(b"ExposureEnd\0trailing");
    let event = EventInfo::from_raw(&raw);
    assert_eq!(event.name(), "ExposureEnd");
    assert_eq!(event.event_id(), 9);
    assert_eq!(event.stream_channel(), 3);
    assert_eq!(event.block_id(), 0x1_0000_0002);
    assert_eq!(event.timestamp(), 0x1020_3040_5060_7080);
}

#[test]
fn event_name_may_fill_its_field_and_may_not_be_utf8() {
    let full = raw_event(&[b'x'; 128]);
    assert_eq!(EventInfo::from_raw(&full).name().len(), 128);
    let odd = raw_event(&[b'a', 0x80, b'b', 0, b'c']);
    assert_eq!(EventInfo::from_raw(&odd).name(), "a\u{FFFD}b");
    let built = EventInfo::new(b"End", 1, 2, 3, 4);
    assert_eq!(built.name(), "End");
    assert_eq!(built.block_id(), 3);
}

#[test]
fn callback_depth_nests_and_saturates() {
    let mut depth = CallbackDepth::new();
    assert!(!depth.in_callback());
    depth.enter();
    depth.enter();
    depth.leave();
    assert!(depth.in_callback());
    depth.leave();
    assert!(!depth.in_callback());
    depth.leave();
    assert_eq!(depth.depth, 0);
    let mut deep = CallbackDepth { depth: u32::MAX };
    deep.enter();
    assert_eq!(deep.depth, u32::MAX);
}

#[test]
fn lifecycle_operations_are_refused_inside_callbacks() {
    assert!(reject_callback_context(false).is_ok());
    assert!(matches!(
        reject_callback_context(true),
        Err(MvsError::InvalidState(
            "camera lifecycle operations cannot run from an MVS callback"
        ))
    ));
}

#[test]
fn event_diagnostics_are_exact() {
    let raw = raw_event(b"Exposure\tEnd\0rest");
    assert_eq!(
        EventInfo::from_raw(&raw).debug_text(),
        "EventInfo { name: \"Exposure\\tEnd\", event_id: 9, block_id: 4294967298 }"
    );
}
