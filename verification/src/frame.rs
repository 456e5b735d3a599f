//! Image frame views and ownership types.

use vstd::prelude::*;

use vstd::slice::slice_to_vec;

use crate::error::{check, is_code_error, MvsError, MvsResult};
use crate::format::{decimal, decimal_spec, decimal_u64};
use crate::native::{join_words, NativeCall};
use crate::types::{FloatBits, PixelType};

verus! {

/// Frame metadata as the SDK reports it, field by field.
#[derive(Copy, Clone, PartialEq, Eq, Structural, Debug)]
pub struct RawFrameInfo {
    /// Legacy 16-bit width.
    pub width: u16,
    /// Legacy 16-bit height.
    pub height: u16,
    /// Pixel format, as the SDK's signed enumeration.
    pub pixel_type: i32,
    /// Frame sequence number.
    pub frame_num: u32,
    /// Legacy 32-bit length.
    pub frame_len: u32,
    /// Extended width; zero when the SDK does not report one.
    pub extend_width: u32,
    /// Extended height; zero when the SDK does not report one.
    pub extend_height: u32,
    /// Extended length; zero when the SDK does not report one.
    pub frame_len_ex: u64,
    /// Horizontal offset.
    pub offset_x: u16,
    /// Vertical offset.
    pub offset_y: u16,
    /// Gain.
    pub gain: FloatBits,
    /// Exposure time.
    pub exposure_time: FloatBits,
    /// Trigger sequence index.
    pub trigger_index: u32,
    /// Lost packets.
    pub lost_packets: u32,
    /// High word of the device timestamp.
    pub device_timestamp_high: u32,
    /// Low word of the device timestamp.
    pub device_timestamp_low: u32,
    /// Host timestamp.
    pub host_timestamp: i64,
}

/// An extended field when the SDK reports one, else the legacy field.
pub open spec fn extended_or_legacy_spec(extended: u32, legacy: u16) -> u32 {
    if extended == 0 {
        legacy as u32
    } else {
        extended
    }
}

impl RawFrameInfo {
    /// Number of valid bytes in the image buffer.
    pub open spec fn frame_len_spec(self) -> u64 {
        if self.frame_len_ex == 0 {
            self.frame_len as u64
        } else {
            self.frame_len_ex
        }
    }

    /// The metadata that the record stands for.
    pub open spec fn info_spec(self) -> FrameInfo {
        FrameInfo {
            width: extended_or_legacy_spec(self.extend_width, self.width),
            height: extended_or_legacy_spec(self.extend_height, self.height),
            pixel_type: PixelType(self.pixel_type as u32),
            frame_num: self.frame_num,
            frame_len: self.frame_len_spec(),
            offset_x: self.offset_x as u32,
            offset_y: self.offset_y as u32,
            gain: self.gain,
            exposure_time: self.exposure_time,
            trigger_index: self.trigger_index,
            lost_packets: self.lost_packets,
            device_timestamp: (self.device_timestamp_high * 0x1_0000_0000
                + self.device_timestamp_low) as u64,
            host_timestamp_raw: self.host_timestamp,
        }
    }
}

/// An extended field when the SDK reports one, else the legacy field.
pub fn extended_or_legacy(extended: u32, legacy: u16) -> (r: u32)
    ensures
        r == extended_or_legacy_spec(extended, legacy),
{
    if extended == 0 {
        legacy as u32
    } else {
        extended
    }
}

/// Valid frame length that the SDK reports.
pub fn frame_len_from_raw(raw: &RawFrameInfo) -> (r: u64)
    ensures
        r == raw.frame_len_spec(),
{
    if raw.frame_len_ex == 0 {
        raw.frame_len as u64
    } else {
        raw.frame_len_ex
    }
}

/// Valid frame length as a memory size. On the 64-bit targets that have a
/// native SDK every length fits.
pub fn data_len_from_raw(raw: &RawFrameInfo) -> (r: usize)
    ensures
        r == raw.frame_len_spec() as usize,
        raw.frame_len_spec() <= usize::MAX ==> r == raw.frame_len_spec(),
{
    #[verifier::truncate]
    (frame_len_from_raw(raw) as usize)
}

/// Copy native metadata into a value that holds no SDK pointer.
pub fn info_from_raw(raw: &RawFrameInfo) -> (r: FrameInfo)
    ensures
        r == raw.info_spec(),
{
    FrameInfo {
        width: extended_or_legacy(raw.extend_width, raw.width),
        height: extended_or_legacy(raw.extend_height, raw.height),
        pixel_type: PixelType::from_raw(
            #[verifier::truncate]
            (raw.pixel_type as u32),
        ),
        frame_num: raw.frame_num,
        frame_len: frame_len_from_raw(raw),
        offset_x: raw.offset_x as u32,
        offset_y: raw.offset_y as u32,
        gain: raw.gain,
        exposure_time: raw.exposure_time,
        trigger_index: raw.trigger_index,
        lost_packets: raw.lost_packets,
        device_timestamp: join_words(raw.device_timestamp_high, raw.device_timestamp_low),
        host_timestamp_raw: raw.host_timestamp,
    }
}

/// Metadata for an image frame.
#[derive(Copy, Clone, PartialEq, Eq, Structural)]
pub struct FrameInfo {
    /// See [`FrameInfo::width`].
    pub width: u32,
    /// See [`FrameInfo::height`].
    pub height: u32,
    /// See [`FrameInfo::pixel_type`].
    pub pixel_type: PixelType,
    /// See [`FrameInfo::frame_num`].
    pub frame_num: u32,
    /// See [`FrameInfo::frame_len`].
    pub frame_len: u64,
    /// See [`FrameInfo::offset_x`].
    pub offset_x: u32,
    /// See [`FrameInfo::offset_y`].
    pub offset_y: u32,
    /// See [`FrameInfo::gain`].
    pub gain: FloatBits,
    /// See [`FrameInfo::exposure_time`].
    pub exposure_time: FloatBits,
    /// See [`FrameInfo::trigger_index`].
    pub trigger_index: u32,
    /// See [`FrameInfo::lost_packets`].
    pub lost_packets: u32,
    /// See [`FrameInfo::device_timestamp`].
    pub device_timestamp: u64,
    /// See [`FrameInfo::host_timestamp_raw`].
    pub host_timestamp_raw: i64,
}

impl FrameInfo {
    /// The same metadata with another number of valid bytes.
    pub open spec fn with_len(self, len: nat) -> FrameInfo {
        FrameInfo { frame_len: len as u64, ..self }
    }

    /// Diagnostic text of the metadata.
    pub open spec fn debug_text_spec(self) -> Seq<char> {
        "FrameInfo { width: "@ + decimal_spec(self.width as nat) + ", height: "@ + decimal_spec(
            self.height as nat,
        ) + ", pixel_type: "@ + self.pixel_type.debug_text_spec() + ", frame_num: "@
            + decimal_spec(self.frame_num as nat) + ", frame_len: "@ + decimal_spec(
            self.frame_len as nat,
        ) + " }"@
    }

    /// Diagnostic text: size, pixel format, number and length.
    pub fn debug_text(&self) -> (r: String)
        ensures
            r@ == self.debug_text_spec(),
    {
        let mut text = "FrameInfo { width: ".to_owned();
        text.append(decimal_u64(self.width as u64).as_str());
        text.append(", height: ");
        text.append(decimal_u64(self.height as u64).as_str());
        text.append(", pixel_type: ");
        text.append(self.pixel_type.debug_text().as_str());
        text.append(", frame_num: ");
        text.append(decimal_u64(self.frame_num as u64).as_str());
        text.append(", frame_len: ");
        text.append(decimal_u64(self.frame_len).as_str());
        text.append(" }");
        text
    }

    /// Image width in pixels.
    pub fn width(&self) -> (r: u32)
        ensures
            r == self.width,
    {
        self.width
    }

    /// Image height in pixels.
    pub fn height(&self) -> (r: u32)
        ensures
            r == self.height,
    {
        self.height
    }

    /// Pixel format reported by the SDK.
    pub fn pixel_type(&self) -> (r: PixelType)
        ensures
            r == self.pixel_type,
    {
        self.pixel_type
    }

    /// Device frame sequence number.
    pub fn frame_num(&self) -> (r: u32)
        ensures
            r == self.frame_num,
    {
        self.frame_num
    }

    /// Number of valid bytes in the image buffer.
    pub fn frame_len(&self) -> (r: u64)
        ensures
            r == self.frame_len,
    {
        self.frame_len
    }

    /// Horizontal image-region offset in pixels.
    pub fn offset_x(&self) -> (r: u32)
        ensures
            r == self.offset_x,
    {
        self.offset_x
    }

    /// Vertical image-region offset in pixels.
    pub fn offset_y(&self) -> (r: u32)
        ensures
            r == self.offset_y,
    {
        self.offset_y
    }

    /// Gain recorded in the frame metadata.
    pub fn gain(&self) -> (r: FloatBits)
        ensures
            r == self.gain,
    {
        self.gain
    }

    /// Exposure time recorded in the frame metadata.
    pub fn exposure_time(&self) -> (r: FloatBits)
        ensures
            r == self.exposure_time,
    {
        self.exposure_time
    }

    /// Trigger sequence index reported by the device.
    pub fn trigger_index(&self) -> (r: u32)
        ensures
            r == self.trigger_index,
    {
        self.trigger_index
    }

    /// Number of lost packets reported for this frame.
    pub fn lost_packets(&self) -> (r: u32)
        ensures
            r == self.lost_packets,
    {
        self.lost_packets
    }

    /// Device timestamp assembled from the SDK's high and low words.
    pub fn device_timestamp(&self) -> (r: u64)
        ensures
            r == self.device_timestamp,
    {
        self.device_timestamp
    }

    /// Raw signed host timestamp returned by the SDK, in no defined unit.
    pub fn host_timestamp_raw(&self) -> (r: i64)
        ensures
            r == self.host_timestamp_raw,
    {
        self.host_timestamp_raw
    }
}

/// A borrowed image frame. To keep it beyond the callback or guard lifetime,
/// call [`Frame::to_owned`].
pub struct Frame<'a> {
    data: &'a [u8],
    info: FrameInfo,
}

impl<'a> Frame<'a> {
    /// The pixel bytes.
    pub closed spec fn bytes(self) -> Seq<u8> {
        self.data@
    }

    /// The metadata.
    pub closed spec fn metadata(self) -> FrameInfo {
        self.info
    }

    /// Put pixels and metadata together.
    pub fn from_parts(data: &'a [u8], info: FrameInfo) -> (r: Self)
        ensures
            r.bytes() == data@,
            r.metadata() == info,
    {
        Frame { data, info }
    }

    /// Borrow the valid pixel bytes for this frame.
    pub fn data(&self) -> (r: &[u8])
        ensures
            r@ == self.bytes(),
    {
        self.data
    }

    /// Return a copy of this frame's metadata.
    pub fn info(&self) -> (r: FrameInfo)
        ensures
            r == self.metadata(),
    {
        self.info
    }

    /// Copy the pixels and metadata into SDK-independent storage. The copied
    /// metadata states the actual number of bytes.
    pub fn to_owned(&self) -> (r: OwnedFrame)
        ensures
            r.bytes() == self.bytes(),
            r.metadata() == self.metadata().with_len(self.bytes().len()),
            r.length_is_stated(),
    {
        let mut info = self.info;
        info.frame_len = self.data.len() as u64;
        OwnedFrame { data: slice_to_vec(self.data), info }
    }

    /// Diagnostic text: the metadata and the number of pixel bytes.
    pub fn debug_text(&self) -> (r: String)
        ensures
            r@ == "Frame { info: "@ + self.metadata().debug_text_spec() + ", data.len: "@
                + decimal_spec(self.bytes().len()) + " }"@,
    {
        let mut text = "Frame { info: ".to_owned();
        text.append(self.info.debug_text().as_str());
        text.append(", data.len: ");
        text.append(decimal(self.data.len()).as_str());
        text.append(" }");
        text
    }
}

/// `<Vec<u8> as AsMut<[u8]>>::as_mut`: the whole vector as a mutable slice.
/// What is written through the slice is what the vector then holds, and a
/// slice cannot change its length.
#[verifier::external_body]
fn slice_of_vec(data: &mut Vec<u8>) -> (r: &mut [u8])
    ensures
        r@ == old(data)@,
        final(data)@ == final(r)@,
        final(r)@.len() == r@.len(),
{
    data.as_mut()
}

/// An owned image frame, independent of any SDK buffer.
pub struct OwnedFrame {
    data: Vec<u8>,
    info: FrameInfo,
}

impl OwnedFrame {
    /// The pixel bytes.
    pub closed spec fn bytes(self) -> Seq<u8> {
        self.data@
    }

    /// The metadata.
    pub closed spec fn metadata(self) -> FrameInfo {
        self.info
    }

    /// Whether the metadata states the actual number of bytes.
    pub open spec fn length_is_stated(self) -> bool {
        self.metadata().frame_len == self.bytes().len()
    }

    /// Borrow the owned pixel bytes in the format indicated by
    /// [`FrameInfo::pixel_type`].
    pub fn data(&self) -> (r: &[u8])
        ensures
            r@ == self.bytes(),
    {
        self.data.as_slice()
    }

    /// Mutably borrow the owned pixel bytes without changing their length, so
    /// that the metadata goes on stating it.
    pub fn data_mut(&mut self) -> (r: &mut [u8])
        ensures
            r@ == old(self).bytes(),
            final(self).bytes() == final(r)@,
            final(self).bytes().len() == old(self).bytes().len(),
            final(self).metadata() == old(self).metadata(),
            old(self).length_is_stated() ==> final(self).length_is_stated(),
    {
        slice_of_vec(&mut self.data)
    }

    /// Consume the frame and return its pixel allocation.
    pub fn into_data(self) -> (r: Vec<u8>)
        ensures
            r@ == self.bytes(),
    {
        self.data
    }

    /// Return a copy of the owned frame's metadata.
    pub fn info(&self) -> (r: FrameInfo)
        ensures
            r == self.metadata(),
    {
        self.info
    }

    /// Borrow this owned allocation as a [`Frame`].
    pub fn as_frame(&self) -> (r: Frame<'_>)
        ensures
            r.bytes() == self.bytes(),
            r.metadata() == self.metadata(),
    {
        Frame::from_parts(self.data.as_slice(), self.info)
    }

    /// Diagnostic text: the metadata and the number of pixel bytes.
    pub fn debug_text(&self) -> (r: String)
        ensures
            r@ == "OwnedFrame { info: "@ + self.metadata().debug_text_spec() + ", data.len: "@
                + decimal_spec(self.bytes().len()) + " }"@,
    {
        let mut text = "OwnedFrame { info: ".to_owned();
        text.append(self.info.debug_text().as_str());
        text.append(", data.len: ");
        text.append(decimal(self.data.len()).as_str());
        text.append(" }");
        text
    }
}

impl Clone for OwnedFrame {
    /// A copy with the same pixels and metadata.
    fn clone(&self) -> (r: Self)
        ensures
            r.bytes() == self.bytes(),
            r.metadata() == self.metadata(),
    {
        OwnedFrame { data: slice_to_vec(self.data.as_slice()), info: self.info }
    }
}

/// A polled SDK buffer that is given back exactly once.
///
/// The guard keeps the camera borrowed and the SDK buffer valid. The first
/// [`FrameGuard::release`] yields the native release call, every later one
/// yields nothing.
pub struct FrameGuard<'cam> {
    handle: Option<usize>,
    buffer: usize,
    raw: RawFrameInfo,
    data: &'cam [u8],
}

impl<'cam> FrameGuard<'cam> {
    /// The camera handle, until the buffer has been given back.
    pub closed spec fn pending(self) -> Option<usize> {
        self.handle
    }

    /// The driver's number for the native buffer record.
    pub closed spec fn buffer(self) -> usize {
        self.buffer
    }

    /// Frame metadata as the SDK reported it.
    pub closed spec fn raw(self) -> RawFrameInfo {
        self.raw
    }

    /// The pixel bytes.
    pub closed spec fn bytes(self) -> Seq<u8> {
        self.data@
    }

    /// Whether the guard holds as many bytes as the SDK reported.
    pub open spec fn is_whole(self) -> bool {
        self.bytes().len() == self.raw().frame_len_spec() as usize
    }

    /// Guard the buffer of one successful poll: the bytes that the SDK reports
    /// as valid, [`data_len_from_raw`] of them. With the null handle there is
    /// nothing to give back.
    pub fn new(handle: usize, buffer: usize, raw: RawFrameInfo, data: &'cam [u8]) -> (r: Self)
        requires
            data@.len() == raw.frame_len_spec() as usize,
        ensures
            r.pending() == (if handle == 0 {
                None::<usize>
            } else {
                Some(handle)
            }),
            r.buffer() == buffer,
            r.raw() == raw,
            r.bytes() == data@,
            r.is_whole(),
    {
        let pending = if handle == 0 {
            None
        } else {
            Some(handle)
        };
        FrameGuard { handle: pending, buffer, raw, data }
    }

    /// Borrow the guarded SDK buffer as a frame.
    pub fn frame(&self) -> (r: Frame<'_>)
        ensures
            r.bytes() == self.bytes(),
            r.metadata() == self.raw().info_spec(),
    {
        Frame::from_parts(self.data, self.info())
    }

    /// Return a copy of the guarded frame's metadata without borrowing pixels.
    pub fn info(&self) -> (r: FrameInfo)
        ensures
            r == self.raw().info_spec(),
    {
        info_from_raw(&self.raw)
    }

    /// Copy the guarded frame into SDK-independent storage.
    pub fn to_owned(&self) -> (r: OwnedFrame)
        ensures
            r.bytes() == self.bytes(),
            r.metadata() == self.raw().info_spec().with_len(self.bytes().len()),
            r.length_is_stated(),
    {
        self.frame().to_owned()
    }

    /// Take the native release call, which is there exactly once. The result of
    /// the call is [`check`] of its code.
    pub fn release(&mut self) -> (r: Option<NativeCall>)
        ensures
            match old(self).pending() {
                Some(handle) => r == Some(
                    NativeCall::FreeImageBuffer { handle, buffer: old(self).buffer() },
                ),
                None => r is None,
            },
            final(self).pending() is None,
            final(self).buffer() == old(self).buffer(),
            final(self).raw() == old(self).raw(),
            final(self).bytes() == old(self).bytes(),
    {
        match self.handle.take() {
            Some(handle) => Some(NativeCall::FreeImageBuffer { handle, buffer: self.buffer }),
            None => None,
        }
    }
}

/// Outcome of polling, copying and releasing one frame: a failed release
/// replaces the finished copy, so that nobody takes the buffer for returned.
pub fn owned_frame_released(owned: OwnedFrame, release_code: i32) -> (r: MvsResult<OwnedFrame>)
    ensures
        release_code == 0 ==> r == Ok::<OwnedFrame, MvsError>(owned),
        release_code != 0 ==> is_code_error(r, release_code),
{
    match check(release_code) {
        Ok(()) => Ok(owned),
        Err(error) => Err(error),
    }
}

/// Copying is idempotent: copying an owned frame again gives the pixels of the
/// first frame and the metadata of the first copy.
pub proof fn law_copy_is_idempotent(frame: Frame, once: OwnedFrame, again: OwnedFrame)
    requires
        once.bytes() == frame.bytes(),
        once.metadata() == frame.metadata().with_len(frame.bytes().len()),
        again.bytes() == once.bytes(),
        again.metadata() == once.metadata().with_len(once.bytes().len()),
    ensures
        again.bytes() == frame.bytes(),
        again.metadata() == once.metadata(),
{
}

/// Copying changes nothing in the metadata of a whole polled frame whose
/// length fits into memory.
pub proof fn law_copy_keeps_whole_frames(guard: FrameGuard)
    requires
        guard.is_whole(),
        guard.raw().frame_len_spec() <= usize::MAX,
    ensures
        guard.raw().info_spec().with_len(guard.bytes().len()) == guard.raw().info_spec(),
{
}

/// The device timestamp determines both words that it was assembled from.
pub proof fn law_timestamp_words_are_recoverable(raw: RawFrameInfo)
    ensures
        raw.info_spec().device_timestamp as int / 0x1_0000_0000 == raw.device_timestamp_high,
        raw.info_spec().device_timestamp as int % 0x1_0000_0000 == raw.device_timestamp_low as int,
{
}

/// The metadata of a frame is what the SDK reported of it: the pixel format bit
/// for bit, and every plain field as it is.
pub proof fn law_metadata_is_what_was_reported(raw: RawFrameInfo)
    ensures
        raw.info_spec().pixel_type.0 as i32 == raw.pixel_type,
        raw.info_spec().pixel_type.0 == (if raw.pixel_type >= 0 {
            raw.pixel_type as int
        } else {
            raw.pixel_type + 0x1_0000_0000
        }),
        raw.info_spec().frame_num == raw.frame_num,
        raw.info_spec().offset_x == raw.offset_x,
        raw.info_spec().offset_y == raw.offset_y,
        raw.info_spec().gain.0 == raw.gain.0,
        raw.info_spec().exposure_time.0 == raw.exposure_time.0,
        raw.info_spec().trigger_index == raw.trigger_index,
        raw.info_spec().lost_packets == raw.lost_packets,
        raw.info_spec().host_timestamp_raw == raw.host_timestamp,
{
    let code: i32 = raw.pixel_type;
    assert((code as u32) as i32 == code && (code >= 0 ==> code as u32 == code) && (code < 0
        ==> code as u32 == code + 0x1_0000_0000)) by (bit_vector);
}

/// Two frames with the same metadata were reported with the same pixel format,
/// so no two formats are confused.
pub proof fn law_pixel_formats_are_told_apart(a: RawFrameInfo, b: RawFrameInfo)
    requires
        a.info_spec().pixel_type == b.info_spec().pixel_type,
    ensures
        a.pixel_type == b.pixel_type,
{
    law_metadata_is_what_was_reported(a);
    law_metadata_is_what_was_reported(b);
}

/// Size and length are the extended ones where the SDK reports them, and the
/// legacy ones where it does not; width, height and length are chosen each on
/// its own.
pub proof fn law_extended_sizes_win(raw: RawFrameInfo)
    ensures
        raw.extend_width != 0 ==> raw.info_spec().width == raw.extend_width,
        raw.extend_width == 0 ==> raw.info_spec().width == raw.width,
        raw.extend_height != 0 ==> raw.info_spec().height == raw.extend_height,
        raw.extend_height == 0 ==> raw.info_spec().height == raw.height,
        raw.frame_len_ex != 0 ==> raw.info_spec().frame_len == raw.frame_len_ex,
        raw.frame_len_ex == 0 ==> raw.info_spec().frame_len == raw.frame_len,
        raw.frame_len_spec() == raw.info_spec().frame_len,
{
}

/// An extended field wins over the legacy one exactly when it is not zero.
pub proof fn law_extended_field_wins(extended: u32, legacy: u16)
    ensures
        extended != 0 ==> extended_or_legacy_spec(extended, legacy) == extended,
        extended == 0 ==> extended_or_legacy_spec(extended, legacy) == legacy,
{
}

/// Correcting the length changes the length alone.
pub proof fn law_length_is_corrected_alone(info: FrameInfo, len: nat)
    requires
        len <= u64::MAX,
    ensures
        info.with_len(len).frame_len == len,
        info.with_len(len).width == info.width,
        info.with_len(len).height == info.height,
        info.with_len(len).pixel_type == info.pixel_type,
        info.with_len(len).frame_num == info.frame_num,
        info.with_len(len).offset_x == info.offset_x,
        info.with_len(len).offset_y == info.offset_y,
        info.with_len(len).gain == info.gain,
        info.with_len(len).exposure_time == info.exposure_time,
        info.with_len(len).trigger_index == info.trigger_index,
        info.with_len(len).lost_packets == info.lost_packets,
        info.with_len(len).device_timestamp == info.device_timestamp,
        info.with_len(len).host_timestamp_raw == info.host_timestamp_raw,
{
}

/// A guard is whole exactly when it holds as many bytes as the frame length
/// says, and an owned frame states its length exactly when the metadata has it.
pub proof fn law_whole_means_the_reported_length(guard: FrameGuard, owned: OwnedFrame)
    ensures
        guard.is_whole() <==> guard.bytes().len() == guard.raw().info_spec().frame_len as usize,
        owned.length_is_stated() <==> owned.metadata().frame_len == owned.bytes().len(),
{
}

/// The diagnostic text of metadata shows size, pixel format, number and length.
pub proof fn law_metadata_texts_show_their_fields(info: FrameInfo)
    ensures
        info.debug_text_spec() == "FrameInfo { width: "@ + decimal_spec(info.width as nat)
            + ", height: "@ + decimal_spec(info.height as nat) + ", pixel_type: "@
            + info.pixel_type.debug_text_spec() + ", frame_num: "@ + decimal_spec(
            info.frame_num as nat,
        ) + ", frame_len: "@ + decimal_spec(info.frame_len as nat) + " }"@,
{
}

} // verus!
