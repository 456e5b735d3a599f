//! Safe access to the MVS machine-vision camera SDK, with a verified core.
//!
//! The library holds the rules of the SDK: which native call an operation comes
//! to, what its return code means, and how the state of the session, of a
//! camera and of its callbacks moves on. It makes no native call itself. An
//! operation takes two steps: a first method refuses it or names the
//! [`NativeCall`] (or [`NodeRequest`]), a driver makes that call, and a second
//! method, whose name ends in `_done`, takes the outcome.
//!
//! # Workflow
//!
//! Initialize [`Sdk`], discover owned [`DeviceInfo`] snapshots with
//! [`Sdk::devices`], open one through [`Sdk::open`], configure nodes through
//! [`Camera`], then choose one acquisition mode:
//!
//! - Register an image callback before [`Camera::start_grabbing`] for callback
//!   mode. Each [`Frame`] is borrowed only for one invocation.
//! - Start without an image callback for polling mode, then call
//!   [`Camera::get_image_buffer`]. Its [`FrameGuard`] gives the buffer back
//!   exactly once. [`Camera::get_owned_frame`] copies the frame as well.
//!
//! Acquisition stops before the image callback is registered or unregistered.
//! On a thread that is inside an SDK callback every lifecycle operation is
//! refused with [`MvsError::InvalidState`]; [`Camera::cleanup`] reports it
//! through [`CleanupError`].
//!
//! # Lifetimes and shutdown
//!
//! A camera holds a lease on the session. [`Camera::cleanup`] stops, unregisters
//! every callback, closes and destroys, in this order and once, whatever fails;
//! the first failure and that of the destruction are kept. [`Sdk::shutdown`]
//! finalizes only when every camera is released and every native handle is
//! confirmed destroyed.
//!
//! Modules ending in `_state` and the functions whose names begin with `law_`
//! hold the models and what is proved of them.

pub mod callback;
pub mod camera;
pub mod camera_state;
pub mod cleanup;
pub mod codes;
pub mod device;
pub mod error;
pub mod format;
pub mod frame;
pub mod library;
pub mod native;
pub mod node;
pub mod runtime;
pub mod text;
pub mod types;

pub use callback::{
    register_callback, register_callback_done, reject_callback_context, CallbackDepth,
    CallbackRecord, CallbackSlot, EventInfo, RawEventInfo,
};
pub use camera::{
    finite_timeout_ms, is_connected_done, AcquisitionMode, Camera, CameraState, CameraStatus,
};
pub use camera_state::INFINITE_WAIT_MS;
pub use cleanup::{record_first_error, step_of, Cleanup};

pub use device::{
    devices_from_list, ipv4_from_sdk, mac_from_parts, sdk_text, CameraLinkFields, DeviceInfo,
    DeviceProperties, GentlFields, GigeAddresses, GigeFields, Ipv4Address, RawDeviceInfo,
    UsbFields,
};
pub use error::{CleanupError, MvsError, MvsResult};
pub use frame::{
    data_len_from_raw, extended_or_legacy, frame_len_from_raw, info_from_raw,
    owned_frame_released, Frame, FrameGuard, FrameInfo, OwnedFrame, RawFrameInfo,
};
pub use library::{OpenAttempt, OpenState, Sdk};
pub use native::{join_words, NativeCall, NodeOp, NodeRequest};
pub use node::{
    bool_to_sdk, get_bool_done, get_enum_done, get_float_done, get_int_done, get_string_done,
};
pub use runtime::{claim_initialization, Platform, RuntimeCore};
pub use text::{sdk_bytes_from_cstr_array, NulError, SdkText};
pub use types::{AccessMode, EnumValue, FloatBits, FloatValue, IntValue, PixelType, TransportLayer};
