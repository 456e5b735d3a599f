//! Requests to the native SDK.
//!
//! The library decides which native call comes next and what its outcome
//! means; a driver performs the call. Handles, buffers and callback slots are
//! plain numbers here: the driver knows what they stand for.

use vstd::prelude::*;

use crate::text::SdkText;
use crate::types::FloatBits;

verus! {

/// One native call, with every argument that the library decides.
#[derive(Copy, Clone, PartialEq, Eq, Structural, Debug)]
pub enum NativeCall {
    /// `MV_CC_Initialize`
    Initialize,
    /// `MV_CC_Finalize`
    Finalize,
    /// `MV_CC_GetSDKVersion`
    GetSdkVersion,
    /// `MV_CC_EnumDevices`
    EnumDevices { layers: u32 },
    /// `MV_CC_IsDeviceAccessible`
    IsDeviceAccessible { mode: u32 },
    /// `MV_CC_CreateHandle`
    CreateHandle,
    /// `MV_CC_OpenDevice`
    OpenDevice { handle: usize, mode: u32, switchover_key: u16 },
    /// `MV_CC_IsDeviceConnected`
    IsDeviceConnected { handle: usize },
    /// `MV_CC_CloseDevice`
    CloseDevice { handle: usize },
    /// `MV_CC_DestroyHandle`
    DestroyHandle { handle: usize },
    /// `MV_CC_StartGrabbing`
    StartGrabbing { handle: usize },
    /// `MV_CC_StopGrabbing`
    StopGrabbing { handle: usize },
    /// `MV_CC_GetImageBuffer`
    GetImageBuffer { handle: usize, timeout_ms: u32 },
    /// `MV_CC_FreeImageBuffer`
    FreeImageBuffer { handle: usize, buffer: usize },
    /// `MV_CC_RegisterImageCallBackEx2` with the image trampoline
    RegisterImageCallback { handle: usize, auto_free: bool },
    /// `MV_CC_RegisterImageCallBackEx2` with a null callback
    UnregisterImageCallback { handle: usize, auto_free: bool },
    /// `MV_CC_RegisterExceptionCallBack` with the exception trampoline
    RegisterExceptionCallback { handle: usize },
    /// `MV_CC_RegisterExceptionCallBack` with a null callback
    UnregisterExceptionCallback { handle: usize },
    /// `MV_CC_RegisterEventCallBackEx` with the event trampoline, for the event
    /// name and the slot of the given record
    RegisterEventCallback { handle: usize, record: usize },
    /// `MV_CC_RegisterEventCallBackEx` with a null callback
    UnregisterEventCallback { handle: usize, record: usize },
}

/// What a node request does with its node.
#[derive(Copy, Clone, PartialEq, Eq, Structural, Debug)]
pub enum NodeOp {
    /// `MV_CC_GetIntValueEx`
    GetInt,
    /// `MV_CC_SetIntValueEx`
    SetInt(i64),
    /// `MV_CC_GetEnumValueEx`
    GetEnum,
    /// `MV_CC_SetEnumValue`
    SetEnumValue(u32),
    /// `MV_CC_SetEnumValueByString`, with the request's text
    SetEnumSymbolic,
    /// `MV_CC_GetFloatValue`
    GetFloat,
    /// `MV_CC_SetFloatValue`
    SetFloat(FloatBits),
    /// `MV_CC_GetBoolValue`
    GetBool,
    /// `MV_CC_SetBoolValue`
    SetBool(u8),
    /// `MV_CC_GetStringValue`
    GetString,
    /// `MV_CC_SetStringValue`, with the request's text
    SetString,
    /// `MV_CC_SetCommandValue`
    ExecCommand,
    /// `MV_CC_EventNotificationOn`
    EventNotificationOn,
    /// `MV_CC_EventNotificationOff`
    EventNotificationOff,
}

/// A native call on a named node. Both texts can be written as C strings.
pub struct NodeRequest {
    /// The open camera handle.
    pub handle: usize,
    /// Node or event name.
    pub key: SdkText,
    /// The operation.
    pub op: NodeOp,
    /// Text argument of the operation; empty where it takes none.
    pub text: SdkText,
}

impl NodeRequest {
    /// Whether the request is the given call.
    pub open spec fn is(self, handle: usize, key: Seq<u8>, op: NodeOp, text: Seq<u8>) -> bool {
        &&& self.handle == handle
        &&& self.key@ == key
        &&& self.op == op
        &&& self.text@ == text
    }
}

/// Join the high and the low word of a number that the SDK splits.
pub fn join_words(high: u32, low: u32) -> (r: u64)
    ensures
        r == high * 0x1_0000_0000 + low,
{
    assert(((high as u64) << 32) | (low as u64) == high * 0x1_0000_0000 + low) by (bit_vector);
    ((high as u64) << 32) | (low as u64)
}

/// A request is the given call exactly when handle, key, operation and text all
/// are the given ones.
pub proof fn law_a_request_is_one_call(
    request: NodeRequest,
    handle: usize,
    key: Seq<u8>,
    op: NodeOp,
    text: Seq<u8>,
)
    ensures
        request.is(handle, key, op, text) <==> request.handle == handle && request.key@ == key
            && request.op == op && request.text@ == text,
{
}

} // verus!
