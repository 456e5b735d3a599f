//! Errors of the MVS SDK.
//!
//! [`MvsError`] covers every code of the vendor's error header plus local
//! marshalling and lifecycle failures. Unknown codes are preserved through
//! [`MvsError::Unknown`], so nothing is lost.

use vstd::prelude::*;

use vstd::std_specs::convert::FromSpec;

use crate::codes::{
    MV_OK, MV_E_HANDLE, MV_E_SUPPORT, MV_E_BUFOVER, MV_E_CALLORDER, MV_E_PARAMETER,
    MV_E_RESOURCE, MV_E_NODATA, MV_E_PRECONDITION, MV_E_VERSION, MV_E_NOENOUGH_BUF,
    MV_E_ABNORMAL_IMAGE, MV_E_LOAD_LIBRARY, MV_E_NOOUTBUF, MV_E_ENCRYPT, MV_E_OPENFILE,
    MV_E_BUF_IN_USE, MV_E_BUF_INVALID, MV_E_NOALIGN_BUF, MV_E_NOENOUGH_BUF_NUM, MV_E_PORT_IN_USE,
    MV_E_IMAGE_DECODEC, MV_E_UINT32_LIMIT, MV_E_IMAGE_HEIGHT, MV_E_NOENOUGH_DDR,
    MV_E_NOENOUGH_STREAM, MV_E_NORESPONSE, MV_E_UNKNOW, MV_E_GC_GENERIC, MV_E_GC_ARGUMENT,
    MV_E_GC_RANGE, MV_E_GC_PROPERTY, MV_E_GC_RUNTIME, MV_E_GC_LOGICAL, MV_E_GC_ACCESS,
    MV_E_GC_TIMEOUT, MV_E_GC_DYNAMICCAST, MV_E_GC_UNKNOW, MV_E_NOT_IMPLEMENTED,
    MV_E_INVALID_ADDRESS, MV_E_WRITE_PROTECT, MV_E_ACCESS_DENIED, MV_E_BUSY, MV_E_PACKET,
    MV_E_NETER, MV_E_SUPPORT_MODIFY_DEVICE_IP, MV_E_KEY_VERIFICATION, MV_E_IP_CONFLICT,
    MV_E_USB_READ, MV_E_USB_WRITE, MV_E_USB_DEVICE, MV_E_USB_GENICAM, MV_E_USB_BANDWIDTH,
    MV_E_USB_DRIVER, MV_E_USB_UNKNOW, MV_E_UPG_FILE_MISMATCH, MV_E_UPG_LANGUSGE_MISMATCH,
    MV_E_UPG_CONFLICT, MV_E_UPG_INNER_ERR, MV_E_UPG_UNKNOW,
};
use crate::format::{decimal, decimal_spec, hex8, hex8_spec};
use crate::library::Sdk;
use crate::text::NulError;

verus! {

/// Crate-wide result alias.
pub type MvsResult<T> = Result<T, MvsError>;

/// Error of a native SDK call, or a local marshalling, lifecycle or
/// open-rollback failure.
#[derive(Debug)]
pub enum MvsError {
    // ---- Generic SDK errors (0x80000000 - 0x800000FF) ----
    /// The native camera handle is invalid.
    Handle,
    /// The device or SDK does not support the requested operation.
    NotSupported,
    /// A native buffer overflowed.
    BufferOverflow,
    /// The operation is invalid in the camera's current state.
    CallOrder,
    /// A parameter supplied to the SDK is invalid.
    Parameter,
    /// The SDK could not allocate a required resource.
    Resource,
    /// No data is currently available.
    NoData,
    /// A precondition failed or the device environment changed.
    Precondition,
    /// The runtime and component versions are incompatible.
    Version,
    /// The SDK has insufficient memory for the operation.
    NotEnoughBuffer,
    /// The image is abnormal, commonly because packets were lost.
    AbnormalImage,
    /// A required native library could not be loaded.
    LoadLibrary,
    /// No output buffer is currently available.
    NoOutputBuffer,
    /// The SDK reported an encryption failure.
    Encrypt,
    /// The SDK could not open a required file.
    OpenFile,
    /// The requested buffer is already in use.
    BufferInUse,
    /// A buffer address is invalid.
    BufferInvalid,
    /// A buffer does not meet the SDK's alignment requirements.
    NoAlignBuffer,
    /// Too few buffers were configured for the operation.
    NotEnoughBufferNum,
    /// The requested port is already in use.
    PortInUse,
    /// Image decoding failed.
    ImageDecodec,
    /// The image size exceeds the SDK's `u32` limit.
    Uint32Limit,
    /// The image height reported by the device is invalid.
    ImageHeight,
    /// The device has insufficient DDR cache.
    NotEnoughDdr,
    /// No additional stream channel is available.
    NotEnoughStream,
    /// The device did not respond.
    NoResponse,
    /// The SDK returned an unspecified generic error.
    UnknownGeneric,

    // ---- GenICam errors (0x80000100 - 0x800001FF) ----
    /// A general GenICam operation failed.
    GcGeneric,
    /// A GenICam argument is invalid.
    GcArgument,
    /// A GenICam value is outside its accepted range.
    GcRange,
    /// A GenICam property operation failed.
    GcProperty,
    /// A GenICam runtime operation failed.
    GcRuntime,
    /// A GenICam logical condition failed.
    GcLogical,
    /// The GenICam node is not accessible in its current state.
    GcAccess,
    /// A GenICam operation timed out.
    GcTimeout,
    /// A GenICam dynamic cast failed.
    GcDynamicCast,
    /// The SDK returned an unspecified GenICam error.
    GcUnknown,

    // ---- GigE errors (0x80000200 - 0x800002FF) ----
    /// The GigE device does not implement the requested command.
    NotImplemented,
    /// A GigE address is invalid.
    InvalidAddress,
    /// The addressed GigE register or property is write-protected.
    WriteProtect,
    /// Access to the GigE device was denied.
    AccessDenied,
    /// The GigE device is busy or disconnected from the network.
    Busy,
    /// A GigE network packet was invalid or lost.
    Packet,
    /// A general GigE network operation failed.
    Net,
    /// This GigE device does not support changing its IP address.
    ModifyDeviceIpNotSupported,
    /// GigE key verification failed.
    KeyVerificationFailed,
    /// The GigE device's IP address conflicts with another host.
    IpConflict,

    // ---- USB errors (0x80000300 - 0x800003FF) ----
    /// Reading from the USB device failed.
    UsbRead,
    /// Writing to the USB device failed.
    UsbWrite,
    /// The USB device reported an exception.
    UsbDevice,
    /// A USB GenICam operation failed.
    UsbGenicam,
    /// The USB connection has insufficient bandwidth.
    UsbBandwidth,
    /// The USB driver is missing or incompatible.
    UsbDriver,
    /// The SDK returned an unspecified USB error.
    UsbUnknown,

    // ---- Upgrade errors (0x80000400 - 0x800004FF) ----
    /// The firmware file does not match the device.
    UpgFileMismatch,
    /// The firmware language does not match the device.
    UpgLanguageMismatch,
    /// A firmware upgrade is already in progress or conflicts with this one.
    UpgConflict,
    /// The device reported an internal upgrade error.
    UpgInnerErr,
    /// The SDK returned an unspecified upgrade error.
    UpgUnknown,

    // ---- Unknown SDK code ----
    /// An unrecognized vendor error code, preserved without loss.
    Unknown(u32),

    // ---- Local failures ----
    /// A string passed to the native interface holds an interior NUL byte.
    Nul(NulError),
    /// The call is out of order for the local state; the text says why.
    InvalidState(&'static str),
    /// The native MVS SDK backend is unavailable on this target.
    UnsupportedPlatform,
    /// An SDK operation was requested before initialization.
    SdkNotInitialized,
    /// The process-wide SDK has already been finalized.
    SdkFinalized,
    /// A failed finalization left the process-wide SDK state unknown.
    SdkStateUnknown,
    /// Handle creation reported success without producing a handle.
    NullHandleAfterCreate,
    /// A native handle whose destruction was not confirmed blocks finalization.
    NativeHandlesLive,
    /// Opening failed and destroying the partially created handle failed too.
    OpenRollback {
        /// Error returned while opening the device.
        open: Box<MvsError>,
        /// Error returned while rolling back the newly created handle.
        destroy: Box<MvsError>,
    },
}

/// The error that stands for a vendor return code.
pub open spec fn from_code_spec(code: u32) -> MvsError {
    if code == MV_E_HANDLE {
        MvsError::Handle
    } else if code == MV_E_SUPPORT {
        MvsError::NotSupported
    } else if code == MV_E_BUFOVER {
        MvsError::BufferOverflow
    } else if code == MV_E_CALLORDER {
        MvsError::CallOrder
    } else if code == MV_E_PARAMETER {
        MvsError::Parameter
    } else if code == MV_E_RESOURCE {
        MvsError::Resource
    } else if code == MV_E_NODATA {
        MvsError::NoData
    } else if code == MV_E_PRECONDITION {
        MvsError::Precondition
    } else if code == MV_E_VERSION {
        MvsError::Version
    } else if code == MV_E_NOENOUGH_BUF {
        MvsError::NotEnoughBuffer
    } else if code == MV_E_ABNORMAL_IMAGE {
        MvsError::AbnormalImage
    } else if code == MV_E_LOAD_LIBRARY {
        MvsError::LoadLibrary
    } else if code == MV_E_NOOUTBUF {
        MvsError::NoOutputBuffer
    } else if code == MV_E_ENCRYPT {
        MvsError::Encrypt
    } else if code == MV_E_OPENFILE {
        MvsError::OpenFile
    } else if code == MV_E_BUF_IN_USE {
        MvsError::BufferInUse
    } else if code == MV_E_BUF_INVALID {
        MvsError::BufferInvalid
    } else if code == MV_E_NOALIGN_BUF {
        MvsError::NoAlignBuffer
    } else if code == MV_E_NOENOUGH_BUF_NUM {
        MvsError::NotEnoughBufferNum
    } else if code == MV_E_PORT_IN_USE {
        MvsError::PortInUse
    } else if code == MV_E_IMAGE_DECODEC {
        MvsError::ImageDecodec
    } else if code == MV_E_UINT32_LIMIT {
        MvsError::Uint32Limit
    } else if code == MV_E_IMAGE_HEIGHT {
        MvsError::ImageHeight
    } else if code == MV_E_NOENOUGH_DDR {
        MvsError::NotEnoughDdr
    } else if code == MV_E_NOENOUGH_STREAM {
        MvsError::NotEnoughStream
    } else if code == MV_E_NORESPONSE {
        MvsError::NoResponse
    } else if code == MV_E_UNKNOW {
        MvsError::UnknownGeneric
    } else if code == MV_E_GC_GENERIC {
        MvsError::GcGeneric
    } else if code == MV_E_GC_ARGUMENT {
        MvsError::GcArgument
    } else if code == MV_E_GC_RANGE {
        MvsError::GcRange
    } else if code == MV_E_GC_PROPERTY {
        MvsError::GcProperty
    } else if code == MV_E_GC_RUNTIME {
        MvsError::GcRuntime
    } else if code == MV_E_GC_LOGICAL {
        MvsError::GcLogical
    } else if code == MV_E_GC_ACCESS {
        MvsError::GcAccess
    } else if code == MV_E_GC_TIMEOUT {
        MvsError::GcTimeout
    } else if code == MV_E_GC_DYNAMICCAST {
        MvsError::GcDynamicCast
    } else if code == MV_E_GC_UNKNOW {
        MvsError::GcUnknown
    } else if code == MV_E_NOT_IMPLEMENTED {
        MvsError::NotImplemented
    } else if code == MV_E_INVALID_ADDRESS {
        MvsError::InvalidAddress
    } else if code == MV_E_WRITE_PROTECT {
        MvsError::WriteProtect
    } else if code == MV_E_ACCESS_DENIED {
        MvsError::AccessDenied
    } else if code == MV_E_BUSY {
        MvsError::Busy
    } else if code == MV_E_PACKET {
        MvsError::Packet
    } else if code == MV_E_NETER {
        MvsError::Net
    } else if code == MV_E_SUPPORT_MODIFY_DEVICE_IP {
        MvsError::ModifyDeviceIpNotSupported
    } else if code == MV_E_KEY_VERIFICATION {
        MvsError::KeyVerificationFailed
    } else if code == MV_E_IP_CONFLICT {
        MvsError::IpConflict
    } else if code == MV_E_USB_READ {
        MvsError::UsbRead
    } else if code == MV_E_USB_WRITE {
        MvsError::UsbWrite
    } else if code == MV_E_USB_DEVICE {
        MvsError::UsbDevice
    } else if code == MV_E_USB_GENICAM {
        MvsError::UsbGenicam
    } else if code == MV_E_USB_BANDWIDTH {
        MvsError::UsbBandwidth
    } else if code == MV_E_USB_DRIVER {
        MvsError::UsbDriver
    } else if code == MV_E_USB_UNKNOW {
        MvsError::UsbUnknown
    } else if code == MV_E_UPG_FILE_MISMATCH {
        MvsError::UpgFileMismatch
    } else if code == MV_E_UPG_LANGUSGE_MISMATCH {
        MvsError::UpgLanguageMismatch
    } else if code == MV_E_UPG_CONFLICT {
        MvsError::UpgConflict
    } else if code == MV_E_UPG_INNER_ERR {
        MvsError::UpgInnerErr
    } else if code == MV_E_UPG_UNKNOW {
        MvsError::UpgUnknown
    } else {
        MvsError::Unknown(code)
    }
}

/// Result of a native call with the given return code.
pub open spec fn check_spec(code: i32) -> MvsResult<()> {
    if code == 0 {
        Ok(())
    } else {
        Err(from_code_spec(code as u32))
    }
}

/// Whether `r` is the error of a native call that returned `code`.
pub open spec fn is_code_error<T>(r: MvsResult<T>, code: i32) -> bool {
    r matches Err(error) && check_spec(code) == Err::<(), MvsError>(error)
}

/// Whether `r` is an [`MvsError::InvalidState`] with the given reason.
pub open spec fn is_invalid_state<T>(r: MvsResult<T>, reason: Seq<char>) -> bool {
    r matches Err(MvsError::InvalidState(text)) && text@ == reason
}

/// Whether `r` reports the first NUL of `bytes`.
pub open spec fn is_nul_error<T>(r: MvsResult<T>, bytes: Seq<u8>) -> bool {
    r matches Err(MvsError::Nul(error)) && error.reports(bytes)
}

impl MvsError {
    /// The vendor code of an error that came from the SDK.
    pub open spec fn raw_code_spec(self) -> Option<u32> {
        match self {
            MvsError::Handle => Some(MV_E_HANDLE),
            MvsError::NotSupported => Some(MV_E_SUPPORT),
            MvsError::BufferOverflow => Some(MV_E_BUFOVER),
            MvsError::CallOrder => Some(MV_E_CALLORDER),
            MvsError::Parameter => Some(MV_E_PARAMETER),
            MvsError::Resource => Some(MV_E_RESOURCE),
            MvsError::NoData => Some(MV_E_NODATA),
            MvsError::Precondition => Some(MV_E_PRECONDITION),
            MvsError::Version => Some(MV_E_VERSION),
            MvsError::NotEnoughBuffer => Some(MV_E_NOENOUGH_BUF),
            MvsError::AbnormalImage => Some(MV_E_ABNORMAL_IMAGE),
            MvsError::LoadLibrary => Some(MV_E_LOAD_LIBRARY),
            MvsError::NoOutputBuffer => Some(MV_E_NOOUTBUF),
            MvsError::Encrypt => Some(MV_E_ENCRYPT),
            MvsError::OpenFile => Some(MV_E_OPENFILE),
            MvsError::BufferInUse => Some(MV_E_BUF_IN_USE),
            MvsError::BufferInvalid => Some(MV_E_BUF_INVALID),
            MvsError::NoAlignBuffer => Some(MV_E_NOALIGN_BUF),
            MvsError::NotEnoughBufferNum => Some(MV_E_NOENOUGH_BUF_NUM),
            MvsError::PortInUse => Some(MV_E_PORT_IN_USE),
            MvsError::ImageDecodec => Some(MV_E_IMAGE_DECODEC),
            MvsError::Uint32Limit => Some(MV_E_UINT32_LIMIT),
            MvsError::ImageHeight => Some(MV_E_IMAGE_HEIGHT),
            MvsError::NotEnoughDdr => Some(MV_E_NOENOUGH_DDR),
            MvsError::NotEnoughStream => Some(MV_E_NOENOUGH_STREAM),
            MvsError::NoResponse => Some(MV_E_NORESPONSE),
            MvsError::UnknownGeneric => Some(MV_E_UNKNOW),
            MvsError::GcGeneric => Some(MV_E_GC_GENERIC),
            MvsError::GcArgument => Some(MV_E_GC_ARGUMENT),
            MvsError::GcRange => Some(MV_E_GC_RANGE),
            MvsError::GcProperty => Some(MV_E_GC_PROPERTY),
            MvsError::GcRuntime => Some(MV_E_GC_RUNTIME),
            MvsError::GcLogical => Some(MV_E_GC_LOGICAL),
            MvsError::GcAccess => Some(MV_E_GC_ACCESS),
            MvsError::GcTimeout => Some(MV_E_GC_TIMEOUT),
            MvsError::GcDynamicCast => Some(MV_E_GC_DYNAMICCAST),
            MvsError::GcUnknown => Some(MV_E_GC_UNKNOW),
            MvsError::NotImplemented => Some(MV_E_NOT_IMPLEMENTED),
            MvsError::InvalidAddress => Some(MV_E_INVALID_ADDRESS),
            MvsError::WriteProtect => Some(MV_E_WRITE_PROTECT),
            MvsError::AccessDenied => Some(MV_E_ACCESS_DENIED),
            MvsError::Busy => Some(MV_E_BUSY),
            MvsError::Packet => Some(MV_E_PACKET),
            MvsError::Net => Some(MV_E_NETER),
            MvsError::ModifyDeviceIpNotSupported => Some(MV_E_SUPPORT_MODIFY_DEVICE_IP),
            MvsError::KeyVerificationFailed => Some(MV_E_KEY_VERIFICATION),
            MvsError::IpConflict => Some(MV_E_IP_CONFLICT),
            MvsError::UsbRead => Some(MV_E_USB_READ),
            MvsError::UsbWrite => Some(MV_E_USB_WRITE),
            MvsError::UsbDevice => Some(MV_E_USB_DEVICE),
            MvsError::UsbGenicam => Some(MV_E_USB_GENICAM),
            MvsError::UsbBandwidth => Some(MV_E_USB_BANDWIDTH),
            MvsError::UsbDriver => Some(MV_E_USB_DRIVER),
            MvsError::UsbUnknown => Some(MV_E_USB_UNKNOW),
            MvsError::UpgFileMismatch => Some(MV_E_UPG_FILE_MISMATCH),
            MvsError::UpgLanguageMismatch => Some(MV_E_UPG_LANGUSGE_MISMATCH),
            MvsError::UpgConflict => Some(MV_E_UPG_CONFLICT),
            MvsError::UpgInnerErr => Some(MV_E_UPG_INNER_ERR),
            MvsError::UpgUnknown => Some(MV_E_UPG_UNKNOW),
            MvsError::Unknown(code) => Some(code),
            _ => None,
        }
    }

    /// Message text of the error.
    pub open spec fn message_spec(self) -> Seq<char>
        decreases self,
    {
        match self {
            MvsError::Handle => "invalid handle"@,
            MvsError::NotSupported => "unsupported operation"@,
            MvsError::BufferOverflow => "buffer overflow"@,
            MvsError::CallOrder => "incorrect call order"@,
            MvsError::Parameter => "invalid parameter"@,
            MvsError::Resource => "resource allocation failed"@,
            MvsError::NoData => "no data"@,
            MvsError::Precondition => "precondition failed or environment changed"@,
            MvsError::Version => "version mismatch"@,
            MvsError::NotEnoughBuffer => "insufficient memory"@,
            MvsError::AbnormalImage => "abnormal image (possibly incomplete due to packet loss)"@,
            MvsError::LoadLibrary => "failed to load library"@,
            MvsError::NoOutputBuffer => "no available output buffer"@,
            MvsError::Encrypt => "encryption error"@,
            MvsError::OpenFile => "open file failed"@,
            MvsError::BufferInUse => "buffer already in use"@,
            MvsError::BufferInvalid => "invalid buffer address"@,
            MvsError::NoAlignBuffer => "buffer alignment error"@,
            MvsError::NotEnoughBufferNum => "insufficient buffer count"@,
            MvsError::PortInUse => "port in use"@,
            MvsError::ImageDecodec => "image decoding error"@,
            MvsError::Uint32Limit => "image size exceeds u32 limit"@,
            MvsError::ImageHeight => "image height anomaly"@,
            MvsError::NotEnoughDdr => "insufficient DDR cache"@,
            MvsError::NotEnoughStream => "insufficient stream channels"@,
            MvsError::NoResponse => "no response from device"@,
            MvsError::UnknownGeneric => "unknown generic error"@,
            MvsError::GcGeneric => "GenICam: general error"@,
            MvsError::GcArgument => "GenICam: illegal argument"@,
            MvsError::GcRange => "GenICam: value out of range"@,
            MvsError::GcProperty => "GenICam: property error"@,
            MvsError::GcRuntime => "GenICam: runtime error"@,
            MvsError::GcLogical => "GenICam: logical error"@,
            MvsError::GcAccess => "GenICam: node access condition error"@,
            MvsError::GcTimeout => "GenICam: timeout"@,
            MvsError::GcDynamicCast => "GenICam: dynamic cast error"@,
            MvsError::GcUnknown => "GenICam: unknown error"@,
            MvsError::NotImplemented => "GigE: command not implemented by device"@,
            MvsError::InvalidAddress => "GigE: invalid address"@,
            MvsError::WriteProtect => "GigE: write protected"@,
            MvsError::AccessDenied => "GigE: access denied"@,
            MvsError::Busy => "GigE: device busy or network disconnected"@,
            MvsError::Packet => "GigE: network packet error"@,
            MvsError::Net => "GigE: network error"@,
            MvsError::ModifyDeviceIpNotSupported => "GigE: modifying the device IP is not supported"@,
            MvsError::KeyVerificationFailed => "GigE: key verification failed"@,
            MvsError::IpConflict => "GigE: device IP conflict"@,
            MvsError::UsbRead => "USB: read error"@,
            MvsError::UsbWrite => "USB: write error"@,
            MvsError::UsbDevice => "USB: device exception"@,
            MvsError::UsbGenicam => "USB: GenICam error"@,
            MvsError::UsbBandwidth => "USB: insufficient bandwidth"@,
            MvsError::UsbDriver => "USB: driver mismatch or missing"@,
            MvsError::UsbUnknown => "USB: unknown error"@,
            MvsError::UpgFileMismatch => "upgrade: firmware mismatch"@,
            MvsError::UpgLanguageMismatch => "upgrade: firmware language mismatch"@,
            MvsError::UpgConflict => "upgrade: conflict (already upgrading)"@,
            MvsError::UpgInnerErr => "upgrade: internal device error"@,
            MvsError::UpgUnknown => "upgrade: unknown error"@,
            MvsError::Unknown(code) => "unknown MVS error code: 0x"@ + hex8_spec(code),
            MvsError::Nul(error) => "string contains interior NUL byte: "@ + error.message_spec(),
            MvsError::InvalidState(reason) => "invalid state: "@ + reason@,
            MvsError::UnsupportedPlatform => "MVS SDK is only available on Windows x86_64"@,
            MvsError::SdkNotInitialized => "MVS SDK has not been initialized"@,
            MvsError::SdkFinalized => "MVS SDK has already been shut down for this process"@,
            MvsError::SdkStateUnknown => "MVS SDK process state is unknown after finalization failed"@,
            MvsError::NullHandleAfterCreate => "CreateHandle succeeded without returning a handle"@,
            MvsError::NativeHandlesLive => "native camera handles are still live"@,
            MvsError::OpenRollback { open, destroy } => "camera open failed ("@
                + open.message_spec() + "); rollback handle destruction also failed ("@
                + destroy.message_spec() + ")"@,
        }
    }

    /// Return the raw SDK return code, if this error originated from the SDK.
    pub fn raw_code(&self) -> (r: Option<u32>)
        ensures
            r == self.raw_code_spec(),
    {
        match self {
            MvsError::Handle => Some(MV_E_HANDLE),
            MvsError::NotSupported => Some(MV_E_SUPPORT),
            MvsError::BufferOverflow => Some(MV_E_BUFOVER),
            MvsError::CallOrder => Some(MV_E_CALLORDER),
            MvsError::Parameter => Some(MV_E_PARAMETER),
            MvsError::Resource => Some(MV_E_RESOURCE),
            MvsError::NoData => Some(MV_E_NODATA),
            MvsError::Precondition => Some(MV_E_PRECONDITION),
            MvsError::Version => Some(MV_E_VERSION),
            MvsError::NotEnoughBuffer => Some(MV_E_NOENOUGH_BUF),
            MvsError::AbnormalImage => Some(MV_E_ABNORMAL_IMAGE),
            MvsError::LoadLibrary => Some(MV_E_LOAD_LIBRARY),
            MvsError::NoOutputBuffer => Some(MV_E_NOOUTBUF),
            MvsError::Encrypt => Some(MV_E_ENCRYPT),
            MvsError::OpenFile => Some(MV_E_OPENFILE),
            MvsError::BufferInUse => Some(MV_E_BUF_IN_USE),
            MvsError::BufferInvalid => Some(MV_E_BUF_INVALID),
            MvsError::NoAlignBuffer => Some(MV_E_NOALIGN_BUF),
            MvsError::NotEnoughBufferNum => Some(MV_E_NOENOUGH_BUF_NUM),
            MvsError::PortInUse => Some(MV_E_PORT_IN_USE),
            MvsError::ImageDecodec => Some(MV_E_IMAGE_DECODEC),
            MvsError::Uint32Limit => Some(MV_E_UINT32_LIMIT),
            MvsError::ImageHeight => Some(MV_E_IMAGE_HEIGHT),
            MvsError::NotEnoughDdr => Some(MV_E_NOENOUGH_DDR),
            MvsError::NotEnoughStream => Some(MV_E_NOENOUGH_STREAM),
            MvsError::NoResponse => Some(MV_E_NORESPONSE),
            MvsError::UnknownGeneric => Some(MV_E_UNKNOW),
            MvsError::GcGeneric => Some(MV_E_GC_GENERIC),
            MvsError::GcArgument => Some(MV_E_GC_ARGUMENT),
            MvsError::GcRange => Some(MV_E_GC_RANGE),
            MvsError::GcProperty => Some(MV_E_GC_PROPERTY),
            MvsError::GcRuntime => Some(MV_E_GC_RUNTIME),
            MvsError::GcLogical => Some(MV_E_GC_LOGICAL),
            MvsError::GcAccess => Some(MV_E_GC_ACCESS),
            MvsError::GcTimeout => Some(MV_E_GC_TIMEOUT),
            MvsError::GcDynamicCast => Some(MV_E_GC_DYNAMICCAST),
            MvsError::GcUnknown => Some(MV_E_GC_UNKNOW),
            MvsError::NotImplemented => Some(MV_E_NOT_IMPLEMENTED),
            MvsError::InvalidAddress => Some(MV_E_INVALID_ADDRESS),
            MvsError::WriteProtect => Some(MV_E_WRITE_PROTECT),
            MvsError::AccessDenied => Some(MV_E_ACCESS_DENIED),
            MvsError::Busy => Some(MV_E_BUSY),
            MvsError::Packet => Some(MV_E_PACKET),
            MvsError::Net => Some(MV_E_NETER),
            MvsError::ModifyDeviceIpNotSupported => Some(MV_E_SUPPORT_MODIFY_DEVICE_IP),
            MvsError::KeyVerificationFailed => Some(MV_E_KEY_VERIFICATION),
            MvsError::IpConflict => Some(MV_E_IP_CONFLICT),
            MvsError::UsbRead => Some(MV_E_USB_READ),
            MvsError::UsbWrite => Some(MV_E_USB_WRITE),
            MvsError::UsbDevice => Some(MV_E_USB_DEVICE),
            MvsError::UsbGenicam => Some(MV_E_USB_GENICAM),
            MvsError::UsbBandwidth => Some(MV_E_USB_BANDWIDTH),
            MvsError::UsbDriver => Some(MV_E_USB_DRIVER),
            MvsError::UsbUnknown => Some(MV_E_USB_UNKNOW),
            MvsError::UpgFileMismatch => Some(MV_E_UPG_FILE_MISMATCH),
            MvsError::UpgLanguageMismatch => Some(MV_E_UPG_LANGUSGE_MISMATCH),
            MvsError::UpgConflict => Some(MV_E_UPG_CONFLICT),
            MvsError::UpgInnerErr => Some(MV_E_UPG_INNER_ERR),
            MvsError::UpgUnknown => Some(MV_E_UPG_UNKNOW),
            MvsError::Unknown(code) => Some(*code),
            _ => None,
        }
    }

    /// Decode a vendor return code.
    fn from_code(code: u32) -> (r: MvsError)
        ensures
            r == from_code_spec(code),
    {
        if code == MV_E_HANDLE {
            MvsError::Handle
        } else if code == MV_E_SUPPORT {
            MvsError::NotSupported
        } else if code == MV_E_BUFOVER {
            MvsError::BufferOverflow
        } else if code == MV_E_CALLORDER {
            MvsError::CallOrder
        } else if code == MV_E_PARAMETER {
            MvsError::Parameter
        } else if code == MV_E_RESOURCE {
            MvsError::Resource
        } else if code == MV_E_NODATA {
            MvsError::NoData
        } else if code == MV_E_PRECONDITION {
            MvsError::Precondition
        } else if code == MV_E_VERSION {
            MvsError::Version
        } else if code == MV_E_NOENOUGH_BUF {
            MvsError::NotEnoughBuffer
        } else if code == MV_E_ABNORMAL_IMAGE {
            MvsError::AbnormalImage
        } else if code == MV_E_LOAD_LIBRARY {
            MvsError::LoadLibrary
        } else if code == MV_E_NOOUTBUF {
            MvsError::NoOutputBuffer
        } else if code == MV_E_ENCRYPT {
            MvsError::Encrypt
        } else if code == MV_E_OPENFILE {
            MvsError::OpenFile
        } else if code == MV_E_BUF_IN_USE {
            MvsError::BufferInUse
        } else if code == MV_E_BUF_INVALID {
            MvsError::BufferInvalid
        } else if code == MV_E_NOALIGN_BUF {
            MvsError::NoAlignBuffer
        } else if code == MV_E_NOENOUGH_BUF_NUM {
            MvsError::NotEnoughBufferNum
        } else if code == MV_E_PORT_IN_USE {
            MvsError::PortInUse
        } else if code == MV_E_IMAGE_DECODEC {
            MvsError::ImageDecodec
        } else if code == MV_E_UINT32_LIMIT {
            MvsError::Uint32Limit
        } else if code == MV_E_IMAGE_HEIGHT {
            MvsError::ImageHeight
        } else if code == MV_E_NOENOUGH_DDR {
            MvsError::NotEnoughDdr
        } else if code == MV_E_NOENOUGH_STREAM {
            MvsError::NotEnoughStream
        } else if code == MV_E_NORESPONSE {
            MvsError::NoResponse
        } else if code == MV_E_UNKNOW {
            MvsError::UnknownGeneric
        } else if code == MV_E_GC_GENERIC {
            MvsError::GcGeneric
        } else if code == MV_E_GC_ARGUMENT {
            MvsError::GcArgument
        } else if code == MV_E_GC_RANGE {
            MvsError::GcRange
        } else if code == MV_E_GC_PROPERTY {
            MvsError::GcProperty
        } else if code == MV_E_GC_RUNTIME {
            MvsError::GcRuntime
        } else if code == MV_E_GC_LOGICAL {
            MvsError::GcLogical
        } else if code == MV_E_GC_ACCESS {
            MvsError::GcAccess
        } else if code == MV_E_GC_TIMEOUT {
            MvsError::GcTimeout
        } else if code == MV_E_GC_DYNAMICCAST {
            MvsError::GcDynamicCast
        } else if code == MV_E_GC_UNKNOW {
            MvsError::GcUnknown
        } else if code == MV_E_NOT_IMPLEMENTED {
            MvsError::NotImplemented
        } else if code == MV_E_INVALID_ADDRESS {
            MvsError::InvalidAddress
        } else if code == MV_E_WRITE_PROTECT {
            MvsError::WriteProtect
        } else if code == MV_E_ACCESS_DENIED {
            MvsError::AccessDenied
        } else if code == MV_E_BUSY {
            MvsError::Busy
        } else if code == MV_E_PACKET {
            MvsError::Packet
        } else if code == MV_E_NETER {
            MvsError::Net
        } else if code == MV_E_SUPPORT_MODIFY_DEVICE_IP {
            MvsError::ModifyDeviceIpNotSupported
        } else if code == MV_E_KEY_VERIFICATION {
            MvsError::KeyVerificationFailed
        } else if code == MV_E_IP_CONFLICT {
            MvsError::IpConflict
        } else if code == MV_E_USB_READ {
            MvsError::UsbRead
        } else if code == MV_E_USB_WRITE {
            MvsError::UsbWrite
        } else if code == MV_E_USB_DEVICE {
            MvsError::UsbDevice
        } else if code == MV_E_USB_GENICAM {
            MvsError::UsbGenicam
        } else if code == MV_E_USB_BANDWIDTH {
            MvsError::UsbBandwidth
        } else if code == MV_E_USB_DRIVER {
            MvsError::UsbDriver
        } else if code == MV_E_USB_UNKNOW {
            MvsError::UsbUnknown
        } else if code == MV_E_UPG_FILE_MISMATCH {
            MvsError::UpgFileMismatch
        } else if code == MV_E_UPG_LANGUSGE_MISMATCH {
            MvsError::UpgLanguageMismatch
        } else if code == MV_E_UPG_CONFLICT {
            MvsError::UpgConflict
        } else if code == MV_E_UPG_INNER_ERR {
            MvsError::UpgInnerErr
        } else if code == MV_E_UPG_UNKNOW {
            MvsError::UpgUnknown
        } else {
            MvsError::Unknown(code)
        }
    }

    /// Render the error for a reader.
    pub fn message(&self) -> (r: String)
        ensures
            r@ == self.message_spec(),
        decreases self,
    {
        match self {
            MvsError::Handle => "invalid handle".to_owned(),
            MvsError::NotSupported => "unsupported operation".to_owned(),
            MvsError::BufferOverflow => "buffer overflow".to_owned(),
            MvsError::CallOrder => "incorrect call order".to_owned(),
            MvsError::Parameter => "invalid parameter".to_owned(),
            MvsError::Resource => "resource allocation failed".to_owned(),
            MvsError::NoData => "no data".to_owned(),
            MvsError::Precondition => "precondition failed or environment changed".to_owned(),
            MvsError::Version => "version mismatch".to_owned(),
            MvsError::NotEnoughBuffer => "insufficient memory".to_owned(),
            MvsError::AbnormalImage => "abnormal image (possibly incomplete due to packet loss)".to_owned(),
            MvsError::LoadLibrary => "failed to load library".to_owned(),
            MvsError::NoOutputBuffer => "no available output buffer".to_owned(),
            MvsError::Encrypt => "encryption error".to_owned(),
            MvsError::OpenFile => "open file failed".to_owned(),
            MvsError::BufferInUse => "buffer already in use".to_owned(),
            MvsError::BufferInvalid => "invalid buffer address".to_owned(),
            MvsError::NoAlignBuffer => "buffer alignment error".to_owned(),
            MvsError::NotEnoughBufferNum => "insufficient buffer count".to_owned(),
            MvsError::PortInUse => "port in use".to_owned(),
            MvsError::ImageDecodec => "image decoding error".to_owned(),
            MvsError::Uint32Limit => "image size exceeds u32 limit".to_owned(),
            MvsError::ImageHeight => "image height anomaly".to_owned(),
            MvsError::NotEnoughDdr => "insufficient DDR cache".to_owned(),
            MvsError::NotEnoughStream => "insufficient stream channels".to_owned(),
            MvsError::NoResponse => "no response from device".to_owned(),
            MvsError::UnknownGeneric => "unknown generic error".to_owned(),
            MvsError::GcGeneric => "GenICam: general error".to_owned(),
            MvsError::GcArgument => "GenICam: illegal argument".to_owned(),
            MvsError::GcRange => "GenICam: value out of range".to_owned(),
            MvsError::GcProperty => "GenICam: property error".to_owned(),
            MvsError::GcRuntime => "GenICam: runtime error".to_owned(),
            MvsError::GcLogical => "GenICam: logical error".to_owned(),
            MvsError::GcAccess => "GenICam: node access condition error".to_owned(),
            MvsError::GcTimeout => "GenICam: timeout".to_owned(),
            MvsError::GcDynamicCast => "GenICam: dynamic cast error".to_owned(),
            MvsError::GcUnknown => "GenICam: unknown error".to_owned(),
            MvsError::NotImplemented => "GigE: command not implemented by device".to_owned(),
            MvsError::InvalidAddress => "GigE: invalid address".to_owned(),
            MvsError::WriteProtect => "GigE: write protected".to_owned(),
            MvsError::AccessDenied => "GigE: access denied".to_owned(),
            MvsError::Busy => "GigE: device busy or network disconnected".to_owned(),
            MvsError::Packet => "GigE: network packet error".to_owned(),
            MvsError::Net => "GigE: network error".to_owned(),
            MvsError::ModifyDeviceIpNotSupported => "GigE: modifying the device IP is not supported".to_owned(),
            MvsError::KeyVerificationFailed => "GigE: key verification failed".to_owned(),
            MvsError::IpConflict => "GigE: device IP conflict".to_owned(),
            MvsError::UsbRead => "USB: read error".to_owned(),
            MvsError::UsbWrite => "USB: write error".to_owned(),
            MvsError::UsbDevice => "USB: device exception".to_owned(),
            MvsError::UsbGenicam => "USB: GenICam error".to_owned(),
            MvsError::UsbBandwidth => "USB: insufficient bandwidth".to_owned(),
            MvsError::UsbDriver => "USB: driver mismatch or missing".to_owned(),
            MvsError::UsbUnknown => "USB: unknown error".to_owned(),
            MvsError::UpgFileMismatch => "upgrade: firmware mismatch".to_owned(),
            MvsError::UpgLanguageMismatch => "upgrade: firmware language mismatch".to_owned(),
            MvsError::UpgConflict => "upgrade: conflict (already upgrading)".to_owned(),
            MvsError::UpgInnerErr => "upgrade: internal device error".to_owned(),
            MvsError::UpgUnknown => "upgrade: unknown error".to_owned(),
            MvsError::Unknown(code) => {
                let mut text = "unknown MVS error code: 0x".to_owned();
                text.append(hex8(*code).as_str());
                text
            },
            MvsError::Nul(error) => {
                let mut text = "string contains interior NUL byte: ".to_owned();
                text.append(error.message().as_str());
                text
            },
            MvsError::InvalidState(reason) => {
                let mut text = "invalid state: ".to_owned();
                text.append(reason);
                text
            },
            MvsError::UnsupportedPlatform => "MVS SDK is only available on Windows x86_64".to_owned(),
            MvsError::SdkNotInitialized => "MVS SDK has not been initialized".to_owned(),
            MvsError::SdkFinalized => "MVS SDK has already been shut down for this process".to_owned(),
            MvsError::SdkStateUnknown => "MVS SDK process state is unknown after finalization failed".to_owned(),
            MvsError::NullHandleAfterCreate => "CreateHandle succeeded without returning a handle".to_owned(),
            MvsError::NativeHandlesLive => "native camera handles are still live".to_owned(),
            MvsError::OpenRollback { open, destroy } => {
                let mut text = "camera open failed (".to_owned();
                text.append(open.message().as_str());
                text.append("); rollback handle destruction also failed (");
                text.append(destroy.message().as_str());
                text.append(")");
                text
            },
        }
    }
}

impl From<i32> for MvsError {
    /// Decode the return value of a native call, comparing bit patterns.
    fn from(code: i32) -> (r: Self) {
        MvsError::from_code(
            #[verifier::truncate]
            (code as u32),
        )
    }
}

impl vstd::std_specs::convert::FromSpecImpl<i32> for MvsError {
    open spec fn obeys_from_spec() -> bool {
        true
    }

    open spec fn from_spec(code: i32) -> Self {
        from_code_spec(code as u32)
    }
}

impl From<u32> for MvsError {
    /// Decode a vendor code.
    fn from(code: u32) -> (r: Self) {
        MvsError::from_code(code)
    }
}

impl vstd::std_specs::convert::FromSpecImpl<u32> for MvsError {
    open spec fn obeys_from_spec() -> bool {
        true
    }

    open spec fn from_spec(code: u32) -> Self {
        from_code_spec(code)
    }
}

impl From<NulError> for MvsError {
    /// Report text that no C string can hold.
    fn from(error: NulError) -> (r: Self) {
        MvsError::Nul(error)
    }
}

impl vstd::std_specs::convert::FromSpecImpl<NulError> for MvsError {
    open spec fn obeys_from_spec() -> bool {
        true
    }

    open spec fn from_spec(error: NulError) -> Self {
        MvsError::Nul(error)
    }
}

/// Convert an SDK return code to a result.
pub fn check(code: i32) -> (r: MvsResult<()>)
    ensures
        r == check_spec(code),
        r is Ok <==> code == 0,
{
    assert(code as u32 == MV_OK <==> code == 0) by (bit_vector);
    if #[verifier::truncate]
    (code as u32) == MV_OK {
        Ok(())
    } else {
        Err(MvsError::from(code))
    }
}

/// Every return code, known or not, survives decoding: its error gives the
/// code back.
pub proof fn law_codes_round_trip(code: u32)
    ensures
        from_code_spec(code).raw_code_spec() == Some(code),
{
}

/// Decoding the code of an SDK error gives the error back. An
/// [`MvsError::Unknown`] that holds a known code is left out, since the code
/// decodes to its own variant.
pub proof fn law_errors_round_trip(error: MvsError, code: u32)
    requires
        error.raw_code_spec() == Some(code),
        error is Unknown ==> from_code_spec(code) is Unknown,
    ensures
        from_code_spec(code) == error,
{
}

/// No two errors that decoding can give share a vendor code.
pub proof fn law_decoded_codes_are_distinct(a: u32, b: u32)
    requires
        from_code_spec(a) == from_code_spec(b),
    ensures
        a == b,
{
    law_codes_round_trip(a);
    law_codes_round_trip(b);
}

/// A decoded error always has a vendor code, so it is none of the local
/// failures; and only codes of the documented ranges have a variant of their
/// own.
pub proof fn law_decoding_gives_sdk_errors(code: u32)
    ensures
        from_code_spec(code).raw_code_spec() is Some,
        from_code_spec(code) !is Unknown ==> 0x8000_0000 <= code <= 0x8000_04FF,
{
}

/// A native call succeeds exactly when its code is zero; otherwise its error
/// carries the bit pattern of the code.
pub proof fn law_check_reports_the_code(code: i32)
    ensures
        check_spec(code) is Ok <==> code == 0,
        check_spec(code) matches Err(error) ==> error.raw_code_spec() == Some(code as u32),
{
    law_codes_round_trip(code as u32);
}

/// A code decodes alike whether it comes as the signed value that native calls
/// return or as the unsigned value of the vendor's header.
pub proof fn law_signed_and_unsigned_codes_agree(code: u32)
    ensures
        from_code_spec((code as i32) as u32) == from_code_spec(code),
{
    assert((code as i32) as u32 == code) by (bit_vector);
}

/// One operation attempted while closing a camera.
#[derive(Clone, Copy, Debug, Eq, PartialEq, Structural)]
pub enum CleanupStep {
    /// Drain callbacks before native teardown.
    DrainCallbacks,
    /// Stop image acquisition when it may still be active.
    StopGrabbing,
    /// Unregister the image callback.
    UnregisterImageCallback,
    /// Unregister the device-exception callback.
    UnregisterExceptionCallback,
    /// Unregister one named event callback.
    UnregisterEventCallback,
    /// Close the device.
    CloseDevice,
    /// Destroy the native handle.
    DestroyHandle,
}

impl CleanupStep {
    /// Words for the step.
    pub open spec fn message_spec(self) -> Seq<char> {
        match self {
            CleanupStep::DrainCallbacks => "drain callbacks"@,
            CleanupStep::StopGrabbing => "stop grabbing"@,
            CleanupStep::UnregisterImageCallback => "unregister image callback"@,
            CleanupStep::UnregisterExceptionCallback => "unregister exception callback"@,
            CleanupStep::UnregisterEventCallback => "unregister event callback"@,
            CleanupStep::CloseDevice => "close device"@,
            CleanupStep::DestroyHandle => "destroy handle"@,
        }
    }

    /// Name of the operation that carries the step out.
    pub open spec fn operation_spec(self) -> Seq<char> {
        match self {
            CleanupStep::DrainCallbacks => "Camera::close"@,
            CleanupStep::StopGrabbing => "MV_CC_StopGrabbing"@,
            CleanupStep::UnregisterImageCallback => "MV_CC_RegisterImageCallBackEx2(NULL)"@,
            CleanupStep::UnregisterExceptionCallback => "MV_CC_RegisterExceptionCallBack(NULL)"@,
            CleanupStep::UnregisterEventCallback => "MV_CC_RegisterEventCallBackEx(NULL)"@,
            CleanupStep::CloseDevice => "MV_CC_CloseDevice"@,
            CleanupStep::DestroyHandle => "MV_CC_DestroyHandle"@,
        }
    }

    /// Render the step for a reader.
    pub fn message(self) -> (r: &'static str)
        ensures
            r@ == self.message_spec(),
    {
        match self {
            CleanupStep::DrainCallbacks => "drain callbacks",
            CleanupStep::StopGrabbing => "stop grabbing",
            CleanupStep::UnregisterImageCallback => "unregister image callback",
            CleanupStep::UnregisterExceptionCallback => "unregister exception callback",
            CleanupStep::UnregisterEventCallback => "unregister event callback",
            CleanupStep::CloseDevice => "close device",
            CleanupStep::DestroyHandle => "destroy handle",
        }
    }

    /// Name the operation that carries the step out.
    pub fn operation(self) -> (r: &'static str)
        ensures
            r@ == self.operation_spec(),
    {
        match self {
            CleanupStep::DrainCallbacks => "Camera::close",
            CleanupStep::StopGrabbing => "MV_CC_StopGrabbing",
            CleanupStep::UnregisterImageCallback => "MV_CC_RegisterImageCallBackEx2(NULL)",
            CleanupStep::UnregisterExceptionCallback => "MV_CC_RegisterExceptionCallBack(NULL)",
            CleanupStep::UnregisterEventCallback => "MV_CC_RegisterEventCallBackEx(NULL)",
            CleanupStep::CloseDevice => "MV_CC_CloseDevice",
            CleanupStep::DestroyHandle => "MV_CC_DestroyHandle",
        }
    }
}

/// One failed operation of a camera cleanup attempt.
#[derive(Debug)]
pub struct CleanupFailure {
    /// The cleanup operation that failed.
    pub step: CleanupStep,
    /// The error returned by that operation.
    pub error: MvsError,
}

impl CleanupFailure {
    /// Message text of the failure.
    pub open spec fn message_spec(self) -> Seq<char> {
        self.step.message_spec() + ": "@ + self.error.message_spec()
    }

    /// Whether the failure leaves the native handle undestroyed.
    pub open spec fn keeps_handle(self) -> bool {
        self.step is DrainCallbacks || self.step is DestroyHandle
    }

    /// Render the failure for a reader.
    pub fn message(&self) -> (r: String)
        ensures
            r@ == self.message_spec(),
    {
        let mut text = self.step.message().to_owned();
        text.append(": ");
        text.append(self.error.message().as_str());
        text
    }
}

/// Each failure's message behind a separator, in order.
pub open spec fn failure_list_spec(failures: Seq<CleanupFailure>) -> Seq<char>
    decreases failures.len(),
{
    if failures.len() == 0 {
        Seq::empty()
    } else {
        failure_list_spec(failures.drop_last()) + "; "@ + failures.last().message_spec()
    }
}

/// Errors of a camera cleanup.
///
/// Cleanup continues after a failure so that handle destruction is attempted,
/// and errors are retained in call order. An error therefore does not imply
/// that the native handle is still alive; see
/// [`CleanupError::native_handle_destroyed`].
#[derive(Debug)]
pub struct CleanupError {
    failures: Vec<CleanupFailure>,
}

impl View for CleanupError {
    type V = Seq<CleanupFailure>;

    closed spec fn view(&self) -> Seq<CleanupFailure> {
        self.failures@
    }
}

impl CleanupError {
    /// A cleanup error names at least one failure.
    #[verifier::type_invariant]
    pub open spec fn has_failures(self) -> bool {
        self@.len() > 0
    }

    /// Whether no failure leaves the handle undestroyed.
    pub open spec fn native_handle_destroyed_spec(self) -> bool {
        forall|i: int| 0 <= i < self@.len() ==> !(#[trigger] self@[i]).keeps_handle()
    }

    /// Message text of the error.
    pub open spec fn message_spec(self) -> Seq<char> {
        "camera cleanup failed in "@ + decimal_spec(self@.len()) + " step(s)"@
            + failure_list_spec(self@)
    }

    /// Collect the failures of one cleanup attempt, in call order.
    pub fn new(failures: Vec<CleanupFailure>) -> (r: Self)
        requires
            failures@.len() > 0,
        ensures
            r@ == failures@,
    {
        CleanupError { failures }
    }

    /// Return the failures in attempted call order.
    pub fn failures(&self) -> (r: &[CleanupFailure])
        ensures
            r@ == self@,
            r@.len() > 0,
    {
        proof {
            use_type_invariant(self);
        }
        self.failures.as_slice()
    }

    /// Return the non-empty cleanup errors in attempted call order.
    pub fn errors(&self) -> (r: Vec<&MvsError>)
        ensures
            r@.len() == self@.len(),
            r@.len() > 0,
            forall|i: int| 0 <= i < r@.len() ==> *(#[trigger] r@[i]) == self@[i].error,
    {
        proof {
            use_type_invariant(self);
        }
        let mut errors: Vec<&MvsError> = Vec::new();
        let mut i: usize = 0;
        while i < self.failures.len()
            invariant
                i <= self@.len(),
                errors@.len() == i,
                forall|j: int| 0 <= j < i ==> *(#[trigger] errors@[j]) == self@[j].error,
            decreases self@.len() - i,
        {
            errors.push(&self.failures[i].error);
            i += 1;
        }
        errors
    }

    /// Keep the first error alone.
    pub fn into_first_error(self) -> (r: MvsError)
        ensures
            self@.len() > 0,
            r == self@[0].error,
    {
        proof {
            use_type_invariant(&self);
        }
        let mut failures = self.failures;
        failures.swap_remove(0).error
    }

    /// The first failed operation before handle destruction, with its error.
    pub fn first_prior_failure(&self) -> (r: Option<&CleanupFailure>)
        ensures
            match r {
                Some(failure) => exists|i: int|
                    0 <= i < self@.len() && *failure == #[trigger] self@[i]
                        && failure.step !is DestroyHandle && forall|j: int|
                        0 <= j < i ==> (#[trigger] self@[j]).step is DestroyHandle,
                None => forall|i: int|
                    0 <= i < self@.len() ==> (#[trigger] self@[i]).step is DestroyHandle,
            },
    {
        let mut i: usize = 0;
        while i < self.failures.len()
            invariant
                i <= self@.len(),
                forall|j: int| 0 <= j < i ==> (#[trigger] self@[j]).step is DestroyHandle,
            decreases self@.len() - i,
        {
            if self.failures[i].step != CleanupStep::DestroyHandle {
                let failure = &self.failures[i];
                assert(*failure == self@[i as int]);
                return Some(failure);
            }
            i += 1;
        }
        None
    }

    /// The error of the handle destruction, when that failed.
    pub fn destroy_error(&self) -> (r: Option<&MvsError>)
        ensures
            match r {
                Some(error) => exists|i: int|
                    0 <= i < self@.len() && (#[trigger] self@[i]).step is DestroyHandle
                        && self@[i].error == *error && forall|j: int|
                        0 <= j < i ==> (#[trigger] self@[j]).step !is DestroyHandle,
                None => forall|i: int|
                    0 <= i < self@.len() ==> (#[trigger] self@[i]).step !is DestroyHandle,
            },
    {
        let mut i: usize = 0;
        while i < self.failures.len()
            invariant
                i <= self@.len(),
                forall|j: int| 0 <= j < i ==> (#[trigger] self@[j]).step !is DestroyHandle,
            decreases self@.len() - i,
        {
            if self.failures[i].step == CleanupStep::DestroyHandle {
                let error = &self.failures[i].error;
                assert(self@[i as int].error == *error);
                return Some(error);
            }
            i += 1;
        }
        None
    }

    /// Whether native handle destruction was confirmed despite the reported
    /// cleanup failures.
    pub fn native_handle_destroyed(&self) -> (r: bool)
        ensures
            r == self.native_handle_destroyed_spec(),
    {
        let mut i: usize = 0;
        while i < self.failures.len()
            invariant
                i <= self@.len(),
                forall|j: int| 0 <= j < i ==> !(#[trigger] self@[j]).keeps_handle(),
            decreases self@.len() - i,
        {
            let step = self.failures[i].step;
            if step == CleanupStep::DrainCallbacks || step == CleanupStep::DestroyHandle {
                assert(self@[i as int].keeps_handle());
                return false;
            }
            i += 1;
        }
        true
    }

    /// Render the error for a reader.
    pub fn message(&self) -> (r: String)
        ensures
            r@ == self.message_spec(),
    {
        let mut text = "camera cleanup failed in ".to_owned();
        text.append(decimal(self.failures.len()).as_str());
        text.append(" step(s)");
        let ghost head = text@;
        let mut i: usize = 0;
        assert(self@.take(0) =~= Seq::empty());
        while i < self.failures.len()
            invariant
                i <= self@.len(),
                text@ == head + failure_list_spec(self@.take(i as int)),
            decreases self@.len() - i,
        {
            assert(self@.take(i + 1).drop_last() =~= self@.take(i as int));
            assert(self@.take(i + 1).last() == self@[i as int]);
            text.append("; ");
            text.append(self.failures[i].message().as_str());
            assert(text@ =~= head + failure_list_spec(self@.take(i + 1)));
            i += 1;
        }
        assert(self@.take(i as int) =~= self@);
        text
    }
}

/// Error of an SDK shutdown.
#[derive(Debug)]
pub enum ShutdownError {
    /// Another owner still holds the session. The SDK entry is handed back, so
    /// that the caller can close the cameras and try again.
    Recoverable {
        /// The entry that the shutdown consumed.
        sdk: Sdk,
        /// Why the session could not be finalized.
        error: MvsError,
    },
    /// The one finalization of this process is spent; the caller should treat
    /// the process as ending.
    Terminal(MvsError),
    /// Native camera resources or callbacks are still live.
    InUse {
        /// Cameras that have not completed handle destruction.
        live_cameras: usize,
        /// Callbacks that are still executing.
        active_callbacks: usize,
    },
    /// A native handle could not be destroyed safely, so finalization is
    /// permanently blocked for this process.
    UnresolvedResources {
        /// Number of native handles whose destruction could not be confirmed.
        orphaned_handles: usize,
    },
    /// The vendor finalization call failed.
    Finalize(MvsError),
    /// A previous finalization attempt left the vendor SDK in an unknown
    /// process-wide state. The call is not retried.
    StateUnknown {
        /// Original vendor error code, when one was available.
        finalize_code: Option<u32>,
    },
}

impl ShutdownError {
    /// Message text of the error.
    pub open spec fn message_spec(self) -> Seq<char> {
        match self {
            ShutdownError::Recoverable { sdk, error } => "MVS SDK shutdown is blocked: "@
                + error.message_spec(),
            ShutdownError::Terminal(error) => "MVS SDK shutdown failed: "@ + error.message_spec(),
            ShutdownError::InUse { live_cameras, active_callbacks } => "MVS SDK is still in use by "@
                + decimal_spec(live_cameras as nat) + " camera(s) and "@ + decimal_spec(
                active_callbacks as nat,
            ) + " callback(s)"@,
            ShutdownError::UnresolvedResources { orphaned_handles } =>
                "MVS SDK cannot be finalized because "@ + decimal_spec(orphaned_handles as nat)
                    + " native handle(s) could not be destroyed"@,
            ShutdownError::Finalize(error) => "MVS SDK finalization failed: "@
                + error.message_spec(),
            ShutdownError::StateUnknown { finalize_code: Some(code) } =>
                "MVS SDK state is unknown after finalization failed with 0x"@ + hex8_spec(code),
            ShutdownError::StateUnknown { finalize_code: None } =>
                "MVS SDK state is unknown after finalization failed"@,
        }
    }

    /// A shutdown that was refused while other owners hold the session.
    pub fn recoverable(sdk: Sdk, error: MvsError) -> (r: Self)
        ensures
            r == (ShutdownError::Recoverable { sdk, error }),
    {
        ShutdownError::Recoverable { sdk, error }
    }

    /// A shutdown that spent the one finalization of this process.
    pub fn terminal(error: MvsError) -> (r: Self)
        ensures
            r == ShutdownError::Terminal(error),
    {
        ShutdownError::Terminal(error)
    }

    /// Take the SDK entry back, when the shutdown can be tried again.
    pub fn into_sdk(self) -> (r: Option<Sdk>)
        ensures
            match self {
                ShutdownError::Recoverable { sdk, error } => r == Some(sdk),
                _ => r is None,
            },
    {
        match self {
            ShutdownError::Recoverable { sdk, error: _ } => Some(sdk),
            _ => None,
        }
    }

    /// The underlying SDK error, where there is one.
    pub fn source(&self) -> (r: Option<&MvsError>)
        ensures
            match *self {
                ShutdownError::Recoverable { sdk, error } => r == Some(&error),
                ShutdownError::Terminal(error) => r == Some(&error),
                ShutdownError::Finalize(error) => r == Some(&error),
                _ => r is None,
            },
    {
        match self {
            ShutdownError::Recoverable { sdk: _, error } => Some(error),
            ShutdownError::Terminal(error) => Some(error),
            ShutdownError::Finalize(error) => Some(error),
            _ => None,
        }
    }

    /// Render the error for a reader.
    pub fn message(&self) -> (r: String)
        ensures
            r@ == self.message_spec(),
    {
        match self {
            ShutdownError::Recoverable { sdk: _, error } => {
                let mut text = "MVS SDK shutdown is blocked: ".to_owned();
                text.append(error.message().as_str());
                text
            },
            ShutdownError::Terminal(error) => {
                let mut text = "MVS SDK shutdown failed: ".to_owned();
                text.append(error.message().as_str());
                text
            },
            ShutdownError::InUse { live_cameras, active_callbacks } => {
                let mut text = "MVS SDK is still in use by ".to_owned();
                text.append(decimal(*live_cameras).as_str());
                text.append(" camera(s) and ");
                text.append(decimal(*active_callbacks).as_str());
                text.append(" callback(s)");
                text
            },
            ShutdownError::UnresolvedResources { orphaned_handles } => {
                let mut text = "MVS SDK cannot be finalized because ".to_owned();
                text.append(decimal(*orphaned_handles).as_str());
                text.append(" native handle(s) could not be destroyed");
                text
            },
            ShutdownError::Finalize(error) => {
                let mut text = "MVS SDK finalization failed: ".to_owned();
                text.append(error.message().as_str());
                text
            },
            ShutdownError::StateUnknown { finalize_code } => match finalize_code {
                Some(code) => {
                    let mut text =
                        "MVS SDK state is unknown after finalization failed with 0x".to_owned();
                    text.append(hex8(*code).as_str());
                    text
                },
                None => "MVS SDK state is unknown after finalization failed".to_owned(),
            },
        }
    }
}

/// Every SDK error has the number that the vendor's header gives it, and local
/// failures have none. With the round trips, each number decodes to its error.
pub proof fn law_errors_have_the_vendor_numbers(error: MvsError)
    ensures
        MvsError::Handle.raw_code_spec() == Some(0x8000_0000u32),
        MvsError::NotSupported.raw_code_spec() == Some(0x8000_0001u32),
        MvsError::BufferOverflow.raw_code_spec() == Some(0x8000_0002u32),
        MvsError::CallOrder.raw_code_spec() == Some(0x8000_0003u32),
        MvsError::Parameter.raw_code_spec() == Some(0x8000_0004u32),
        MvsError::Resource.raw_code_spec() == Some(0x8000_0006u32),
        MvsError::NoData.raw_code_spec() == Some(0x8000_0007u32),
        MvsError::Precondition.raw_code_spec() == Some(0x8000_0008u32),
        MvsError::Version.raw_code_spec() == Some(0x8000_0009u32),
        MvsError::NotEnoughBuffer.raw_code_spec() == Some(0x8000_000Au32),
        MvsError::AbnormalImage.raw_code_spec() == Some(0x8000_000Bu32),
        MvsError::LoadLibrary.raw_code_spec() == Some(0x8000_000Cu32),
        MvsError::NoOutputBuffer.raw_code_spec() == Some(0x8000_000Du32),
        MvsError::Encrypt.raw_code_spec() == Some(0x8000_000Eu32),
        MvsError::OpenFile.raw_code_spec() == Some(0x8000_000Fu32),
        MvsError::BufferInUse.raw_code_spec() == Some(0x8000_0010u32),
        MvsError::BufferInvalid.raw_code_spec() == Some(0x8000_0011u32),
        MvsError::NoAlignBuffer.raw_code_spec() == Some(0x8000_0012u32),
        MvsError::NotEnoughBufferNum.raw_code_spec() == Some(0x8000_0013u32),
        MvsError::PortInUse.raw_code_spec() == Some(0x8000_0014u32),
        MvsError::ImageDecodec.raw_code_spec() == Some(0x8000_0015u32),
        MvsError::Uint32Limit.raw_code_spec() == Some(0x8000_0016u32),
        MvsError::ImageHeight.raw_code_spec() == Some(0x8000_0017u32),
        MvsError::NotEnoughDdr.raw_code_spec() == Some(0x8000_0018u32),
        MvsError::NotEnoughStream.raw_code_spec() == Some(0x8000_0019u32),
        MvsError::NoResponse.raw_code_spec() == Some(0x8000_001Au32),
        MvsError::UnknownGeneric.raw_code_spec() == Some(0x8000_00FFu32),
        MvsError::GcGeneric.raw_code_spec() == Some(0x8000_0100u32),
        MvsError::GcArgument.raw_code_spec() == Some(0x8000_0101u32),
        MvsError::GcRange.raw_code_spec() == Some(0x8000_0102u32),
        MvsError::GcProperty.raw_code_spec() == Some(0x8000_0103u32),
        MvsError::GcRuntime.raw_code_spec() == Some(0x8000_0104u32),
        MvsError::GcLogical.raw_code_spec() == Some(0x8000_0105u32),
        MvsError::GcAccess.raw_code_spec() == Some(0x8000_0106u32),
        MvsError::GcTimeout.raw_code_spec() == Some(0x8000_0107u32),
        MvsError::GcDynamicCast.raw_code_spec() == Some(0x8000_0108u32),
        MvsError::GcUnknown.raw_code_spec() == Some(0x8000_01FFu32),
        MvsError::NotImplemented.raw_code_spec() == Some(0x8000_0200u32),
        MvsError::InvalidAddress.raw_code_spec() == Some(0x8000_0201u32),
        MvsError::WriteProtect.raw_code_spec() == Some(0x8000_0202u32),
        MvsError::AccessDenied.raw_code_spec() == Some(0x8000_0203u32),
        MvsError::Busy.raw_code_spec() == Some(0x8000_0204u32),
        MvsError::Packet.raw_code_spec() == Some(0x8000_0205u32),
        MvsError::Net.raw_code_spec() == Some(0x8000_0206u32),
        MvsError::ModifyDeviceIpNotSupported.raw_code_spec() == Some(0x8000_020Eu32),
        MvsError::KeyVerificationFailed.raw_code_spec() == Some(0x8000_020Fu32),
        MvsError::IpConflict.raw_code_spec() == Some(0x8000_0221u32),
        MvsError::UsbRead.raw_code_spec() == Some(0x8000_0300u32),
        MvsError::UsbWrite.raw_code_spec() == Some(0x8000_0301u32),
        MvsError::UsbDevice.raw_code_spec() == Some(0x8000_0302u32),
        MvsError::UsbGenicam.raw_code_spec() == Some(0x8000_0303u32),
        MvsError::UsbBandwidth.raw_code_spec() == Some(0x8000_0304u32),
        MvsError::UsbDriver.raw_code_spec() == Some(0x8000_0305u32),
        MvsError::UsbUnknown.raw_code_spec() == Some(0x8000_03FFu32),
        MvsError::UpgFileMismatch.raw_code_spec() == Some(0x8000_0400u32),
        MvsError::UpgLanguageMismatch.raw_code_spec() == Some(0x8000_0401u32),
        MvsError::UpgConflict.raw_code_spec() == Some(0x8000_0402u32),
        MvsError::UpgInnerErr.raw_code_spec() == Some(0x8000_0403u32),
        MvsError::UpgUnknown.raw_code_spec() == Some(0x8000_04FFu32),
        error matches MvsError::Unknown(code) ==> error.raw_code_spec() == Some(code),
        error is Nul || error is InvalidState || error is UnsupportedPlatform
            || error is SdkNotInitialized || error is SdkFinalized || error is SdkStateUnknown
            || error is NullHandleAfterCreate || error is NativeHandlesLive
            || error is OpenRollback ==> error.raw_code_spec() is None,
{
}

/// Each error reads as documented.
pub proof fn law_errors_read_as_documented()
    ensures
        MvsError::Handle.message_spec() == "invalid handle"@,
        MvsError::NotSupported.message_spec() == "unsupported operation"@,
        MvsError::BufferOverflow.message_spec() == "buffer overflow"@,
        MvsError::CallOrder.message_spec() == "incorrect call order"@,
        MvsError::Parameter.message_spec() == "invalid parameter"@,
        MvsError::Resource.message_spec() == "resource allocation failed"@,
        MvsError::NoData.message_spec() == "no data"@,
        MvsError::Precondition.message_spec() == "precondition failed or environment changed"@,
        MvsError::Version.message_spec() == "version mismatch"@,
        MvsError::NotEnoughBuffer.message_spec() == "insufficient memory"@,
        MvsError::AbnormalImage.message_spec() == "abnormal image (possibly incomplete due to packet loss)"@,
        MvsError::LoadLibrary.message_spec() == "failed to load library"@,
        MvsError::NoOutputBuffer.message_spec() == "no available output buffer"@,
        MvsError::Encrypt.message_spec() == "encryption error"@,
        MvsError::OpenFile.message_spec() == "open file failed"@,
        MvsError::BufferInUse.message_spec() == "buffer already in use"@,
        MvsError::BufferInvalid.message_spec() == "invalid buffer address"@,
        MvsError::NoAlignBuffer.message_spec() == "buffer alignment error"@,
        MvsError::NotEnoughBufferNum.message_spec() == "insufficient buffer count"@,
        MvsError::PortInUse.message_spec() == "port in use"@,
        MvsError::ImageDecodec.message_spec() == "image decoding error"@,
        MvsError::Uint32Limit.message_spec() == "image size exceeds u32 limit"@,
        MvsError::ImageHeight.message_spec() == "image height anomaly"@,
        MvsError::NotEnoughDdr.message_spec() == "insufficient DDR cache"@,
        MvsError::NotEnoughStream.message_spec() == "insufficient stream channels"@,
        MvsError::NoResponse.message_spec() == "no response from device"@,
        MvsError::UnknownGeneric.message_spec() == "unknown generic error"@,
        MvsError::GcGeneric.message_spec() == "GenICam: general error"@,
        MvsError::GcArgument.message_spec() == "GenICam: illegal argument"@,
        MvsError::GcRange.message_spec() == "GenICam: value out of range"@,
        MvsError::GcProperty.message_spec() == "GenICam: property error"@,
        MvsError::GcRuntime.message_spec() == "GenICam: runtime error"@,
        MvsError::GcLogical.message_spec() == "GenICam: logical error"@,
        MvsError::GcAccess.message_spec() == "GenICam: node access condition error"@,
        MvsError::GcTimeout.message_spec() == "GenICam: timeout"@,
        MvsError::GcDynamicCast.message_spec() == "GenICam: dynamic cast error"@,
        MvsError::GcUnknown.message_spec() == "GenICam: unknown error"@,
        MvsError::NotImplemented.message_spec() == "GigE: command not implemented by device"@,
        MvsError::InvalidAddress.message_spec() == "GigE: invalid address"@,
        MvsError::WriteProtect.message_spec() == "GigE: write protected"@,
        MvsError::AccessDenied.message_spec() == "GigE: access denied"@,
        MvsError::Busy.message_spec() == "GigE: device busy or network disconnected"@,
        MvsError::Packet.message_spec() == "GigE: network packet error"@,
        MvsError::Net.message_spec() == "GigE: network error"@,
        MvsError::ModifyDeviceIpNotSupported.message_spec() == "GigE: modifying the device IP is not supported"@,
        MvsError::KeyVerificationFailed.message_spec() == "GigE: key verification failed"@,
        MvsError::IpConflict.message_spec() == "GigE: device IP conflict"@,
        MvsError::UsbRead.message_spec() == "USB: read error"@,
        MvsError::UsbWrite.message_spec() == "USB: write error"@,
        MvsError::UsbDevice.message_spec() == "USB: device exception"@,
        MvsError::UsbGenicam.message_spec() == "USB: GenICam error"@,
        MvsError::UsbBandwidth.message_spec() == "USB: insufficient bandwidth"@,
        MvsError::UsbDriver.message_spec() == "USB: driver mismatch or missing"@,
        MvsError::UsbUnknown.message_spec() == "USB: unknown error"@,
        MvsError::UpgFileMismatch.message_spec() == "upgrade: firmware mismatch"@,
        MvsError::UpgLanguageMismatch.message_spec() == "upgrade: firmware language mismatch"@,
        MvsError::UpgConflict.message_spec() == "upgrade: conflict (already upgrading)"@,
        MvsError::UpgInnerErr.message_spec() == "upgrade: internal device error"@,
        MvsError::UpgUnknown.message_spec() == "upgrade: unknown error"@,
        MvsError::UnsupportedPlatform.message_spec() == "MVS SDK is only available on Windows x86_64"@,
        MvsError::SdkNotInitialized.message_spec() == "MVS SDK has not been initialized"@,
        MvsError::SdkFinalized.message_spec() == "MVS SDK has already been shut down for this process"@,
        MvsError::NullHandleAfterCreate.message_spec()
            == "CreateHandle succeeded without returning a handle"@,
        MvsError::NativeHandlesLive.message_spec() == "native camera handles are still live"@,
        MvsError::SdkStateUnknown.message_spec() == "MVS SDK process state is unknown after finalization failed"@,
{
}

/// An error that holds something shows it: the number of an unknown code, the
/// place of a NUL, the reason of a refusal, and both errors of a failed
/// rollback, that of opening first.
pub proof fn law_messages_show_what_errors_hold(
    code: u32,
    nul: NulError,
    reason: &'static str,
    open: MvsError,
    destroy: MvsError,
)
    ensures
        MvsError::Unknown(code).message_spec() == "unknown MVS error code: 0x"@ + hex8_spec(code),
        MvsError::Nul(nul).message_spec() == "string contains interior NUL byte: "@
            + nul.message_spec(),
        nul.message_spec() == "nul byte found in provided data at position: "@ + decimal_spec(
            nul.position() as nat,
        ),
        MvsError::InvalidState(reason).message_spec() == "invalid state: "@ + reason@,
        (MvsError::OpenRollback {
            open: Box::new(open),
            destroy: Box::new(destroy),
        }).message_spec() == "camera open failed ("@ + open.message_spec()
            + "); rollback handle destruction also failed ("@ + destroy.message_spec() + ")"@,
{
}

/// A result reports a code exactly when it is the error that carries the code;
/// a refusal exactly when it gives the reason; a NUL exactly when it points at
/// the first one.
pub proof fn law_errors_are_reported_as_they_are<T>(
    r: MvsResult<T>,
    code: i32,
    reason: Seq<char>,
    bytes: Seq<u8>,
)
    ensures
        is_code_error(r, code) <==> code != 0 && (r matches Err(error) && error.raw_code_spec()
            == Some(code as u32) && (error is Unknown ==> from_code_spec(code as u32) is Unknown)),
        is_invalid_state(r, reason) <==> (r matches Err(MvsError::InvalidState(text)) && text@
            == reason),
        is_nul_error(r, bytes) <==> (r matches Err(MvsError::Nul(error)) && error.bytes() == bytes
            && bytes.index_of_first(0u8) == Some(error.position())),
{
    law_codes_round_trip(code as u32);
    match r {
        Err(error) => {
            if error.raw_code_spec() == Some(code as u32) && (error is Unknown ==> from_code_spec(
                code as u32,
            ) is Unknown) {
                law_errors_round_trip(error, code as u32);
            }
        },
        Ok(_) => {},
    }
}

/// A cleanup step reads as what it does, and names the operation behind it.
pub proof fn law_cleanup_steps_read_as_documented()
    ensures
        CleanupStep::DrainCallbacks.message_spec() == "drain callbacks"@,
        CleanupStep::StopGrabbing.message_spec() == "stop grabbing"@,
        CleanupStep::UnregisterImageCallback.message_spec() == "unregister image callback"@,
        CleanupStep::UnregisterExceptionCallback.message_spec() == "unregister exception callback"@,
        CleanupStep::UnregisterEventCallback.message_spec() == "unregister event callback"@,
        CleanupStep::CloseDevice.message_spec() == "close device"@,
        CleanupStep::DestroyHandle.message_spec() == "destroy handle"@,
        CleanupStep::DrainCallbacks.operation_spec() == "Camera::close"@,
        CleanupStep::StopGrabbing.operation_spec() == "MV_CC_StopGrabbing"@,
        CleanupStep::UnregisterImageCallback.operation_spec()
            == "MV_CC_RegisterImageCallBackEx2(NULL)"@,
        CleanupStep::UnregisterExceptionCallback.operation_spec()
            == "MV_CC_RegisterExceptionCallBack(NULL)"@,
        CleanupStep::UnregisterEventCallback.operation_spec()
            == "MV_CC_RegisterEventCallBackEx(NULL)"@,
        CleanupStep::CloseDevice.operation_spec() == "MV_CC_CloseDevice"@,
        CleanupStep::DestroyHandle.operation_spec() == "MV_CC_DestroyHandle"@,
{
}

/// A cleanup error counts its failures and lists each with its step and its
/// error, in order: one more failure adds one more entry at the end.
pub proof fn law_cleanup_errors_list_every_failure(
    error: CleanupError,
    failures: Seq<CleanupFailure>,
    next: CleanupFailure,
)
    ensures
        error.message_spec() == "camera cleanup failed in "@ + decimal_spec(error@.len())
            + " step(s)"@ + failure_list_spec(error@),
        failure_list_spec(Seq::empty()) == Seq::<char>::empty(),
        failure_list_spec(failures.push(next)) == failure_list_spec(failures) + "; "@
            + next.step.message_spec() + ": "@ + next.error.message_spec(),
{
    assert(failures.push(next).drop_last() =~= failures);
    assert(failures.push(next).last() == next);
    assert(failure_list_spec(failures.push(next)) =~= failure_list_spec(failures) + "; "@
        + next.step.message_spec() + ": "@ + next.error.message_spec());
}

/// A failure keeps the handle alive exactly when teardown never began or the
/// destruction itself failed; the handle counts as destroyed exactly when no
/// failure is of these two.
pub proof fn law_only_two_failures_keep_the_handle(failure: CleanupFailure, error: CleanupError)
    ensures
        failure.keeps_handle() <==> failure.step == CleanupStep::DrainCallbacks || failure.step
            == CleanupStep::DestroyHandle,
        error.native_handle_destroyed_spec() <==> forall|i: int|
            0 <= i < error@.len() ==> (#[trigger] error@[i]).step != CleanupStep::DrainCallbacks
                && error@[i].step != CleanupStep::DestroyHandle,
{
    if error.native_handle_destroyed_spec() {
        assert forall|i: int| 0 <= i < error@.len() implies (#[trigger] error@[i]).step
            != CleanupStep::DrainCallbacks && error@[i].step != CleanupStep::DestroyHandle by {
            assert(!error@[i].keeps_handle());
        }
    }
}

/// A shutdown error reads as documented and shows what it holds.
pub proof fn law_shutdown_errors_read_as_documented(
    sdk: Sdk,
    error: MvsError,
    count: usize,
    other: usize,
    code: u32,
)
    ensures
        (ShutdownError::Recoverable { sdk, error }).message_spec()
            == "MVS SDK shutdown is blocked: "@ + error.message_spec(),
        ShutdownError::Terminal(error).message_spec() == "MVS SDK shutdown failed: "@
            + error.message_spec(),
        (ShutdownError::InUse { live_cameras: count, active_callbacks: other }).message_spec()
            == "MVS SDK is still in use by "@ + decimal_spec(count as nat) + " camera(s) and "@
            + decimal_spec(other as nat) + " callback(s)"@,
        (ShutdownError::UnresolvedResources { orphaned_handles: count }).message_spec()
            == "MVS SDK cannot be finalized because "@ + decimal_spec(count as nat)
            + " native handle(s) could not be destroyed"@,
        ShutdownError::Finalize(error).message_spec() == "MVS SDK finalization failed: "@
            + error.message_spec(),
        (ShutdownError::StateUnknown { finalize_code: Some(code) }).message_spec()
            == "MVS SDK state is unknown after finalization failed with 0x"@ + hex8_spec(code),
        (ShutdownError::StateUnknown { finalize_code: None }).message_spec()
            == "MVS SDK state is unknown after finalization failed"@,
{
}

/// An error made from a code carries that code, whichever sign it is read with;
/// one made from text that no C string can hold is that text's error.
pub proof fn law_conversions_keep_what_they_are_given(code: i32, raw: u32, error: NulError)
    ensures
        <MvsError as FromSpec<i32>>::obeys_from_spec(),
        <MvsError as FromSpec<u32>>::obeys_from_spec(),
        <MvsError as FromSpec<NulError>>::obeys_from_spec(),
        <MvsError as FromSpec<i32>>::from_spec(code).raw_code_spec() == Some(code as u32),
        <MvsError as FromSpec<u32>>::from_spec(raw).raw_code_spec() == Some(raw),
        <MvsError as FromSpec<NulError>>::from_spec(error) == MvsError::Nul(error),
{
    law_codes_round_trip(code as u32);
    law_codes_round_trip(raw);
}

} // verus!
