//! Numeric constants of the vendor headers: return codes, transport types,
//! access modes and pixel formats.

use vstd::prelude::*;

verus! {

/// Return code of a successful native call.
pub const MV_OK: u32 = 0x0000_0000;

// Generic errors.
pub const MV_E_HANDLE: u32 = 0x8000_0000;
pub const MV_E_SUPPORT: u32 = 0x8000_0001;
pub const MV_E_BUFOVER: u32 = 0x8000_0002;
pub const MV_E_CALLORDER: u32 = 0x8000_0003;
pub const MV_E_PARAMETER: u32 = 0x8000_0004;
pub const MV_E_RESOURCE: u32 = 0x8000_0006;
pub const MV_E_NODATA: u32 = 0x8000_0007;
pub const MV_E_PRECONDITION: u32 = 0x8000_0008;
pub const MV_E_VERSION: u32 = 0x8000_0009;
pub const MV_E_NOENOUGH_BUF: u32 = 0x8000_000A;
pub const MV_E_ABNORMAL_IMAGE: u32 = 0x8000_000B;
pub const MV_E_LOAD_LIBRARY: u32 = 0x8000_000C;
pub const MV_E_NOOUTBUF: u32 = 0x8000_000D;
pub const MV_E_ENCRYPT: u32 = 0x8000_000E;
pub const MV_E_OPENFILE: u32 = 0x8000_000F;
pub const MV_E_BUF_IN_USE: u32 = 0x8000_0010;
pub const MV_E_BUF_INVALID: u32 = 0x8000_0011;
pub const MV_E_NOALIGN_BUF: u32 = 0x8000_0012;
pub const MV_E_NOENOUGH_BUF_NUM: u32 = 0x8000_0013;
pub const MV_E_PORT_IN_USE: u32 = 0x8000_0014;
pub const MV_E_IMAGE_DECODEC: u32 = 0x8000_0015;
pub const MV_E_UINT32_LIMIT: u32 = 0x8000_0016;
pub const MV_E_IMAGE_HEIGHT: u32 = 0x8000_0017;
pub const MV_E_NOENOUGH_DDR: u32 = 0x8000_0018;
pub const MV_E_NOENOUGH_STREAM: u32 = 0x8000_0019;
pub const MV_E_NORESPONSE: u32 = 0x8000_001A;
pub const MV_E_UNKNOW: u32 = 0x8000_00FF;

// GenICam errors.
pub const MV_E_GC_GENERIC: u32 = 0x8000_0100;
pub const MV_E_GC_ARGUMENT: u32 = 0x8000_0101;
pub const MV_E_GC_RANGE: u32 = 0x8000_0102;
pub const MV_E_GC_PROPERTY: u32 = 0x8000_0103;
pub const MV_E_GC_RUNTIME: u32 = 0x8000_0104;
pub const MV_E_GC_LOGICAL: u32 = 0x8000_0105;
pub const MV_E_GC_ACCESS: u32 = 0x8000_0106;
pub const MV_E_GC_TIMEOUT: u32 = 0x8000_0107;
pub const MV_E_GC_DYNAMICCAST: u32 = 0x8000_0108;
pub const MV_E_GC_UNKNOW: u32 = 0x8000_01FF;

// GigE errors.
pub const MV_E_NOT_IMPLEMENTED: u32 = 0x8000_0200;
pub const MV_E_INVALID_ADDRESS: u32 = 0x8000_0201;
pub const MV_E_WRITE_PROTECT: u32 = 0x8000_0202;
pub const MV_E_ACCESS_DENIED: u32 = 0x8000_0203;
pub const MV_E_BUSY: u32 = 0x8000_0204;
pub const MV_E_PACKET: u32 = 0x8000_0205;
pub const MV_E_NETER: u32 = 0x8000_0206;
pub const MV_E_SUPPORT_MODIFY_DEVICE_IP: u32 = 0x8000_020E;
pub const MV_E_KEY_VERIFICATION: u32 = 0x8000_020F;
pub const MV_E_IP_CONFLICT: u32 = 0x8000_0221;

// USB errors.
pub const MV_E_USB_READ: u32 = 0x8000_0300;
pub const MV_E_USB_WRITE: u32 = 0x8000_0301;
pub const MV_E_USB_DEVICE: u32 = 0x8000_0302;
pub const MV_E_USB_GENICAM: u32 = 0x8000_0303;
pub const MV_E_USB_BANDWIDTH: u32 = 0x8000_0304;
pub const MV_E_USB_DRIVER: u32 = 0x8000_0305;
pub const MV_E_USB_UNKNOW: u32 = 0x8000_03FF;

// Firmware upgrade errors.
pub const MV_E_UPG_FILE_MISMATCH: u32 = 0x8000_0400;
pub const MV_E_UPG_LANGUSGE_MISMATCH: u32 = 0x8000_0401;
pub const MV_E_UPG_CONFLICT: u32 = 0x8000_0402;
pub const MV_E_UPG_INNER_ERR: u32 = 0x8000_0403;
pub const MV_E_UPG_UNKNOW: u32 = 0x8000_04FF;

// Transport types; each device carries exactly one of them.
pub const MV_UNKNOW_DEVICE: u32 = 0x0000_0000;
pub const MV_GIGE_DEVICE: u32 = 0x0000_0001;
pub const MV_1394_DEVICE: u32 = 0x0000_0002;
pub const MV_USB_DEVICE: u32 = 0x0000_0004;
pub const MV_CAMERALINK_DEVICE: u32 = 0x0000_0008;
pub const MV_VIR_GIGE_DEVICE: u32 = 0x0000_0010;
pub const MV_VIR_USB_DEVICE: u32 = 0x0000_0020;
pub const MV_GENTL_GIGE_DEVICE: u32 = 0x0000_0040;
pub const MV_GENTL_CAMERALINK_DEVICE: u32 = 0x0000_0080;
pub const MV_GENTL_CXP_DEVICE: u32 = 0x0000_0100;
pub const MV_GENTL_XOF_DEVICE: u32 = 0x0000_0200;
pub const MV_GENTL_VIR_DEVICE: u32 = 0x0000_0400;

// Device access modes.
pub const MV_ACCESS_EXCLUSIVE: u32 = 1;
pub const MV_ACCESS_EXCLUSIVE_WITH_SWITCH: u32 = 2;
pub const MV_ACCESS_CONTROL: u32 = 3;
pub const MV_ACCESS_CONTROL_WITH_SWITCH: u32 = 4;
pub const MV_ACCESS_CONTROL_SWITCH_ENABLE: u32 = 5;
pub const MV_ACCESS_CONTROL_SWITCH_ENABLE_WITH_KEY: u32 = 6;
pub const MV_ACCESS_MONITOR: u32 = 7;

// Wire pixel formats.
pub const PIXEL_UNDEFINED: u32 = 0x0000_0000;
pub const PIXEL_MONO8: u32 = 0x0108_0001;
pub const PIXEL_MONO10: u32 = 0x0110_0003;
pub const PIXEL_MONO10_PACKED: u32 = 0x010C_0004;
pub const PIXEL_MONO12: u32 = 0x0110_0005;
pub const PIXEL_MONO12_PACKED: u32 = 0x010C_0006;
pub const PIXEL_MONO14: u32 = 0x0110_0025;
pub const PIXEL_MONO16: u32 = 0x0110_0007;
pub const PIXEL_BAYER_GR8: u32 = 0x0108_0008;
pub const PIXEL_BAYER_RG8: u32 = 0x0108_0009;
pub const PIXEL_BAYER_GB8: u32 = 0x0108_000A;
pub const PIXEL_BAYER_BG8: u32 = 0x0108_000B;
pub const PIXEL_RGB8_PACKED: u32 = 0x0218_0014;
pub const PIXEL_BGR8_PACKED: u32 = 0x0218_0015;
pub const PIXEL_RGBA8_PACKED: u32 = 0x0220_0016;
pub const PIXEL_BGRA8_PACKED: u32 = 0x0220_0017;
pub const PIXEL_YUV422_PACKED: u32 = 0x0210_001F;
pub const PIXEL_YUV422_YUYV_PACKED: u32 = 0x0210_0032;

} // verus!
