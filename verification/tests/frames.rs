use mvs_sdk_rs::codes::MV_E_RESOURCE;
use mvs_sdk_rs::{
    data_len_from_raw, extended_or_legacy, frame_len_from_raw, info_from_raw, join_words,
    owned_frame_released, FloatBits, Frame, FrameGuard, FrameInfo, NativeCall, PixelType,
    RawFrameInfo,
};

fn empty_raw() -> RawFrameInfo {
    RawFrameInfo {
        width: 0,
        height: 0,
        pixel_type: 0,
        frame_num: 0,
        frame_len: 0,
        extend_width: 0,
        extend_height: 0,
        frame_len_ex: 0,
        offset_x: 0,
        offset_y: 0,
        gain: FloatBits::from_bits(0),
        exposure_time: FloatBits::from_bits(0),
        trigger_index: 0,
        lost_packets: 0,
        device_timestamp_high: 0,
        device_timestamp_low: 0,
        host_timestamp: 0,
    }
}

fn float(bits: FloatBits) -> f32 {
    f32::from_bits(bits.to_bits())
}

#[test]
fn raw_frame_metadata_and_data_are_converted() {
    let data = vec![1, 2, 3, 4, 5, 6, 7, 8];
    let raw = RawFrameInfo {
        width: 1,
        height: 1,
        pixel_type: PixelType::MONO8().raw() as i32,
        frame_num: 11,
        frame_len: 1,
        extend_width: 4,
        extend_height: 2,
        frame_len_ex: data.len() as u64,
        offset_x: 3,
        offset_y: 5,
        gain: FloatBits::from_bits(1.25f32.to_bits()),
        exposure_time: FloatBits::from_bits(200.5f32.to_bits()),
        trigger_index: 7,
        lost_packets: 9,
        device_timestamp_high: 0x0123_4567,
        device_timestamp_low: 0x89AB_CDEF,
        host_timestamp: 42,
    };
    let guard = FrameGuard::new(0, 0, raw, &data);
    let frame = guard.frame();
    let info = frame.info();

    assert_eq!(frame.data(), data);
    assert_eq!((info.width(), info.height(), info.frame_len()), (4, 2, 8));
    assert!((info.pixel_type(), info.frame_num()) == (PixelType::MONO8(), 11));
    assert_eq!((info.offset_x(), info.offset_y()), (3, 5));
    assert_eq!(
        (float(info.gain()), float(info.exposure_time())),
        (1.25, 200.5)
    );
    assert_eq!((info.trigger_index(), info.lost_packets()), (7, 9));
    assert_eq!(info.device_timestamp(), 0x0123_4567_89AB_CDEF);
    assert_eq!(info.host_timestamp_raw(), 42);

    let legacy = RawFrameInfo {
        width: 640,
        height: 480,
        frame_len: 307_200,
        ..empty_raw()
    };
    let info = info_from_raw(&legacy);
    assert_eq!(
        (info.width(), info.height(), info.frame_len()),
        (640, 480, 307_200)
    );
}

#[test]
fn owned_frame_keeps_data_length_and_metadata_consistent() {
    let info = FrameInfo {
        width: 2,
        height: 1,
        pixel_type: PixelType::MONO8(),
        frame_num: 1,
        frame_len: 99,
        offset_x: 0,
        offset_y: 0,
        gain: FloatBits::from_bits(0.0f32.to_bits()),
        exposure_time: FloatBits::from_bits(0.0f32.to_bits()),
        trigger_index: 0,
        lost_packets: 0,
        device_timestamp: 0,
        host_timestamp_raw: 0,
    };

    let mut owned = Frame::from_parts(&[1, 2], info).to_owned();
    assert_eq!(owned.info().frame_len(), 2);
    owned.data_mut()[1] = 3;
    assert_eq!(owned.as_frame().data(), [1, 3]);
    assert_eq!(owned.into_data(), [1, 3]);
}

#[test]
fn extended_fields_win_unless_they_are_zero() {
    assert_eq!(extended_or_legacy(0, 640), 640);
    assert_eq!(extended_or_legacy(70_000, 640), 70_000);
    let extended = RawFrameInfo {
        frame_len: 5,
        frame_len_ex: 0x1_0000_0000,
        ..empty_raw()
    };
    assert_eq!(frame_len_from_raw(&extended), 0x1_0000_0000);
    let legacy = RawFrameInfo {
        frame_len: 5,
        ..empty_raw()
    };
    assert_eq!(data_len_from_raw(&legacy), 5);
}

#[test]
fn split_words_are_joined() {
    assert_eq!(join_words(0, 7), 7);
    assert_eq!(join_words(1, 0), 0x1_0000_0000);
    assert_eq!(join_words(u32::MAX, u32::MAX), u64::MAX);
}

#[test]
fn buffer_is_released_exactly_once() {
    let raw = RawFrameInfo {
        frame_len: 2,
        ..empty_raw()
    };
    let data = [9, 8];
    let mut guard = FrameGuard::new(0x40, 3, raw, &data);
    assert_eq!(guard.info().frame_len(), 2);
    assert_eq!(
        guard.release(),
        Some(NativeCall::FreeImageBuffer {
            handle: 0x40,
            buffer: 3
        })
    );
    assert_eq!(guard.release(), None);
    assert_eq!(guard.to_owned().data(), [9, 8]);
    let mut nothing = FrameGuard::new(0, 3, raw, &data);
    assert_eq!(nothing.release(), None);
}

#[test]
fn failed_release_replaces_the_copy() {
    let info = info_from_raw(&empty_raw());
    let owned = Frame::from_parts(&[1], info).to_owned();
    assert_eq!(owned_frame_released(owned.clone(), 0).ok().unwrap().data(), [1]);
    let failed = owned_frame_released(owned, MV_E_RESOURCE as i32);
    assert_eq!(failed.err().unwrap().raw_code(), Some(MV_E_RESOURCE));
}

#[test]
fn copying_a_copy_changes_nothing() {
    let mut info = info_from_raw(&empty_raw());
    info.frame_len = 77;
    let once = Frame::from_parts(&[1, 2, 3], info).to_owned();
    let again = once.as_frame().to_owned();
    assert_eq!(again.data(), once.data());
    assert!(again.info() == once.info());
    assert_eq!(once.info().frame_len(), 3);
}

#[test]
fn frame_diagnostics_are_exact() {
    let raw = RawFrameInfo {
        width: 640,
        height: 480,
        pixel_type: PixelType::MONO8().raw() as i32,
        frame_num: 11,
        frame_len: 307_200,
        ..empty_raw()
    };
    let info = info_from_raw(&raw);
    assert_eq!(
        info.debug_text(),
        "FrameInfo { width: 640, height: 480, pixel_type: PixelType(0x01080001), frame_num: 11, \
         frame_len: 307200 }"
    );
    let frame = Frame::from_parts(&[1, 2], info);
    assert_eq!(
        frame.debug_text(),
        format!("Frame {{ info: {}, data.len: 2 }}", info.debug_text())
    );
    let owned = frame.to_owned();
    assert_eq!(
        owned.debug_text(),
        format!("OwnedFrame {{ info: {}, data.len: 2 }}", owned.info().debug_text())
    );
}

#[test]
fn copying_a_whole_frame_keeps_its_metadata() {
    let raw = RawFrameInfo {
        width: 3,
        height: 1,
        frame_len: 3,
        ..empty_raw()
    };
    let guard = FrameGuard::new(1, 0, raw, &[1, 2, 3]);
    assert!(guard.to_owned().info() == guard.info());
}

#[test]
fn writing_pixels_keeps_the_stated_length() {
    let mut owned = Frame::from_parts(&[1, 2, 3], info_from_raw(&empty_raw())).to_owned();
    let pixels = owned.data_mut();
    assert_eq!(pixels.len(), 3);
    pixels[0] = 9;
    pixels[2] = 7;
    assert_eq!(owned.data(), [9, 2, 7]);
    assert_eq!(owned.info().frame_len(), 3);
}
