//! State of an open camera.
//!
//! Every operation takes two steps, with a native call between them. The first
//! decides: it refuses an operation that the camera's state or the caller's
//! context rules out, and otherwise names the native call. The second settles:
//! it takes the code that the call returned and moves the state on. A failed
//! call leaves the state as it was.

use vstd::prelude::*;

use std::sync::Arc;
use vstd::utf8::encode_utf8;

use crate::callback::{
    is_registered, record_view, register_callback, register_callback_done, reject_callback_context,
    CallbackRecord,
};
use crate::camera_state::{
    already_registered, context_refusal, decided, event_calls, event_position, first_reason,
    law_cleanup_plan_ends_with_destruction, law_registered_events_are_counted,
    lemma_event_position, node_decided, registered_events, timeout_refusal, CameraView,
    EventRecordView, INFINITE_WAIT_MS,
};
use crate::cleanup::{reported_failures, Cleanup};
use crate::error::{
    check, check_spec, is_code_error, is_invalid_state, is_nul_error, CleanupError, CleanupFailure,
    CleanupStep, MvsError, MvsResult,
};
use crate::format::{
    bool_spec, bool_text, decimal, decimal_spec, lower_hex, lower_hex_spec,
};
use crate::frame::{FrameGuard, OwnedFrame, RawFrameInfo};
use crate::native::{NativeCall, NodeOp, NodeRequest};
use crate::node::{bool_to_sdk, bool_to_sdk_spec};
use crate::runtime::RuntimeCore;
use crate::text::{nul_free, SdkText};
use crate::types::FloatBits;

verus! {

/// Accept a timeout for a wait that ends.
pub fn finite_timeout_ms(timeout_ms: u32) -> (r: MvsResult<u32>)
    ensures
        decided(r, timeout_refusal(timeout_ms), timeout_ms),
{
    if timeout_ms == INFINITE_WAIT_MS {
        Err(
            MvsError::InvalidState(
                "u32::MAX selects infinite wait; call the blocking method instead",
            ),
        )
    } else {
        Ok(timeout_ms)
    }
}

/// One named event registration. The name is what the SDK knows the event by.
struct EventRecord<E> {
    name: SdkText,
    callback: CallbackRecord<E>,
}

impl<E> EventRecord<E> {
    spec fn fields(self) -> EventRecordView<E> {
        EventRecordView { name: self.name@, record: self.callback@ }
    }
}

/// An open camera: its native handle, its acquisition state and its callback
/// registrations.
///
/// The closures of the image, exception and event callbacks have the types `I`,
/// `X` and `E`. The driver keeps event registrations apart by their index,
/// which stays the same for as long as the registration is kept, in whatever
/// order registrations begin and are settled.
pub struct Camera<I, X, E> {
    handle: Option<usize>,
    grabbing: bool,
    image_cb: Option<CallbackRecord<I>>,
    exception_cb: Option<CallbackRecord<X>>,
    event_cbs: Vec<EventRecord<E>>,
}

impl<I, X, E> View for Camera<I, X, E> {
    type V = CameraView<I, X, E>;

    closed spec fn view(&self) -> CameraView<I, X, E> {
        CameraView {
            handle: self.handle,
            grabbing: self.grabbing,
            image: record_view(self.image_cb),
            exception: record_view(self.exception_cb),
            events: events_view(self.event_cbs@),
        }
    }
}

spec fn events_view<E>(events: Seq<EventRecord<E>>) -> Seq<EventRecordView<E>> {
    Seq::new(events.len(), |i: int| events[i].fields())
}

impl<I, X, E> Camera<I, X, E> {
    /// Every camera is in a state that can occur.
    #[verifier::type_invariant]
    pub open spec fn is_well_formed(self) -> bool {
        self@.wf()
    }

    /// The camera of a handle that was just opened.
    pub(crate) fn from_handle(handle: usize) -> (r: Self)
        requires
            handle != 0,
        ensures
            r@ == CameraView::<I, X, E>::opened(handle),
    {
        let event_cbs: Vec<EventRecord<E>> = Vec::new();
        assert(events_view(event_cbs@) =~= Seq::empty());
        Camera { handle: Some(handle), grabbing: false, image_cb: None, exception_cb: None, event_cbs }
    }

    fn handle(&self) -> (r: MvsResult<usize>)
        ensures
            decided(r, self@.handle_refusal(), self@.handle->0),
            r matches Ok(handle) ==> handle != 0,
    {
        proof {
            use_type_invariant(self);
        }
        match self.handle {
            Some(handle) => Ok(handle),
            None => Err(MvsError::InvalidState("camera handle is unavailable")),
        }
    }

    fn stopped_handle(&self) -> (r: MvsResult<usize>)
        ensures
            decided(r, self@.stopped_refusal(), self@.handle->0),
    {
        if self.grabbing {
            return Err(MvsError::InvalidState("camera must be stopped"));
        }
        self.handle()
    }

    /// Return the native handle, or null where there is none.
    pub fn as_raw_handle(&self) -> (r: usize)
        ensures
            r == (match self@.handle {
                Some(handle) => handle,
                None => 0,
            }),
            r == 0 <==> self@.handle is None,
    {
        proof {
            use_type_invariant(self);
        }
        match self.handle {
            Some(handle) => handle,
            None => 0,
        }
    }

    /// The call that asks for the connection state; a camera without handle is
    /// not connected, and needs none.
    pub fn is_connected(&self) -> (r: Option<NativeCall>)
        ensures
            r == (match self@.handle {
                Some(handle) => Some(NativeCall::IsDeviceConnected { handle }),
                None => None,
            }),
    {
        match self.handle {
            Some(handle) => Some(NativeCall::IsDeviceConnected { handle }),
            None => None,
        }
    }

    /// Start to acquire images: into the image callback where one is
    /// registered, otherwise for polling.
    pub fn start_grabbing(&self, in_callback: bool) -> (r: MvsResult<NativeCall>)
        ensures
            decided(
                r,
                first_reason(context_refusal(in_callback), self@.stopped_refusal()),
                NativeCall::StartGrabbing { handle: self@.handle->0 },
            ),
    {
        match reject_callback_context(in_callback) {
            Ok(()) => {},
            Err(error) => {
                return Err(error);
            },
        }
        match self.stopped_handle() {
            Ok(handle) => Ok(NativeCall::StartGrabbing { handle }),
            Err(error) => Err(error),
        }
    }

    /// Settle a start: only a confirmed one counts.
    pub fn start_grabbing_done(&mut self, code: i32) -> (r: MvsResult<()>)
        requires
            old(self)@.stopped_refusal() is None,
        ensures
            r == check_spec(code),
            final(self)@ == old(self)@.started(code),
    {
        proof {
            use_type_invariant(&*self);
        }
        match check(code) {
            Ok(()) => {
                self.grabbing = true;
                Ok(())
            },
            Err(error) => Err(error),
        }
    }

    /// Stop to acquire images.
    pub fn stop_grabbing(&self, in_callback: bool) -> (r: MvsResult<NativeCall>)
        ensures
            decided(
                r,
                first_reason(context_refusal(in_callback), self@.stop_refusal()),
                NativeCall::StopGrabbing { handle: self@.handle->0 },
            ),
    {
        match reject_callback_context(in_callback) {
            Ok(()) => {},
            Err(error) => {
                return Err(error);
            },
        }
        if !self.grabbing {
            return Err(MvsError::InvalidState("camera is not grabbing"));
        }
        match self.handle() {
            Ok(handle) => Ok(NativeCall::StopGrabbing { handle }),
            Err(error) => Err(error),
        }
    }

    /// Settle a stop: after a failed one the camera may try again.
    pub fn stop_grabbing_done(&mut self, code: i32) -> (r: MvsResult<()>)
        ensures
            r == check_spec(code),
            final(self)@ == old(self)@.stopped(code),
    {
        proof {
            use_type_invariant(&*self);
        }
        match check(code) {
            Ok(()) => {
                self.grabbing = false;
                Ok(())
            },
            Err(error) => Err(error),
        }
    }

    fn request_buffer(&self, timeout_ms: u32) -> (r: MvsResult<NativeCall>)
        ensures
            decided(
                r,
                self@.polling_refusal(),
                NativeCall::GetImageBuffer { handle: self@.handle->0, timeout_ms },
            ),
    {
        if !self.grabbing || self.image_is_active() {
            return Err(
                MvsError::InvalidState(
                    "polling requires active grabbing without an image callback",
                ),
            );
        }
        match self.handle() {
            Ok(handle) => Ok(NativeCall::GetImageBuffer { handle, timeout_ms }),
            Err(error) => Err(error),
        }
    }

    fn image_is_active(&self) -> (r: bool)
        ensures
            r == is_registered(self@.image),
    {
        match &self.image_cb {
            Some(record) => record.is_active(),
            None => false,
        }
    }

    fn exception_is_active(&self) -> (r: bool)
        ensures
            r == is_registered(self@.exception),
    {
        match &self.exception_cb {
            Some(record) => record.is_active(),
            None => false,
        }
    }

    /// Poll one frame, waiting for at most `timeout_ms` milliseconds. The
    /// SDK's sentinel for an endless wait is refused; see
    /// [`Camera::get_image_buffer_blocking`].
    pub fn get_image_buffer(&self, timeout_ms: u32) -> (r: MvsResult<NativeCall>)
        ensures
            decided(
                r,
                first_reason(timeout_refusal(timeout_ms), self@.polling_refusal()),
                NativeCall::GetImageBuffer { handle: self@.handle->0, timeout_ms },
            ),
    {
        match finite_timeout_ms(timeout_ms) {
            Ok(timeout_ms) => self.request_buffer(timeout_ms),
            Err(error) => Err(error),
        }
    }

    /// Poll one frame, waiting until there is one.
    pub fn get_image_buffer_blocking(&self) -> (r: MvsResult<NativeCall>)
        ensures
            decided(
                r,
                self@.polling_refusal(),
                NativeCall::GetImageBuffer {
                    handle: self@.handle->0,
                    timeout_ms: INFINITE_WAIT_MS,
                },
            ),
    {
        self.request_buffer(INFINITE_WAIT_MS)
    }

    /// Settle a poll: a successful one hands a buffer over, which the guard
    /// gives back exactly once.
    pub fn get_image_buffer_done<'cam>(
        &'cam self,
        code: i32,
        buffer: usize,
        raw: RawFrameInfo,
        data: &'cam [u8],
    ) -> (r: MvsResult<FrameGuard<'cam>>)
        requires
            self@.handle is Some,
            code == 0 ==> data@.len() == raw.frame_len_spec() as usize,
        ensures
            code == 0 ==> (r matches Ok(guard) && {
                &&& guard.pending() == self@.handle
                &&& guard.buffer() == buffer
                &&& guard.raw() == raw
                &&& guard.bytes() == data@
            }),
            code != 0 ==> is_code_error(r, code),
    {
        proof {
            use_type_invariant(self);
        }
        match check(code) {
            Ok(()) => Ok(FrameGuard::new(self.as_raw_handle(), buffer, raw, data)),
            Err(error) => Err(error),
        }
    }

    /// Poll one frame to be copied, waiting for at most `timeout_ms`
    /// milliseconds.
    pub fn get_owned_frame(&self, timeout_ms: u32) -> (r: MvsResult<NativeCall>)
        ensures
            decided(
                r,
                first_reason(timeout_refusal(timeout_ms), self@.polling_refusal()),
                NativeCall::GetImageBuffer { handle: self@.handle->0, timeout_ms },
            ),
    {
        self.get_image_buffer(timeout_ms)
    }

    /// Poll one frame to be copied, waiting until there is one.
    pub fn get_owned_frame_blocking(&self) -> (r: MvsResult<NativeCall>)
        ensures
            decided(
                r,
                self@.polling_refusal(),
                NativeCall::GetImageBuffer {
                    handle: self@.handle->0,
                    timeout_ms: INFINITE_WAIT_MS,
                },
            ),
    {
        self.get_image_buffer_blocking()
    }

    /// Settle a poll with a copy of the frame and the call that gives the
    /// buffer back. [`owned_frame_released`](crate::owned_frame_released) takes
    /// the code of that call.
    pub fn get_owned_frame_done(
        &self,
        code: i32,
        buffer: usize,
        raw: RawFrameInfo,
        data: &[u8],
    ) -> (r: MvsResult<(OwnedFrame, NativeCall)>)
        requires
            self@.handle is Some,
            code == 0 ==> data@.len() == raw.frame_len_spec() as usize,
        ensures
            code == 0 ==> (r matches Ok((owned, release)) && {
                &&& owned.bytes() == data@
                &&& owned.metadata() == raw.info_spec().with_len(data@.len())
                &&& release == NativeCall::FreeImageBuffer { handle: self@.handle->0, buffer }
            }),
            code != 0 ==> is_code_error(r, code),
    {
        let polled = self.get_image_buffer_done(code, buffer, raw, data);
        match polled {
            Ok(guard) => {
                let owned = guard.to_owned();
                let mut guard = guard;
                let release = guard.release();
                Ok((owned, release.unwrap()))
            },
            Err(error) => Err(error),
        }
    }

    /// Register an image callback, whose buffers the SDK frees on its own. The
    /// camera must be stopped, and a registration must have ended before the next
    /// one.
    pub fn register_image_callback(&mut self, in_callback: bool, callback: I) -> (r: MvsResult<
        NativeCall,
    >)
        ensures
            decided(
                r,
                first_reason(context_refusal(in_callback), old(self)@.image_refusal()),
                NativeCall::RegisterImageCallback { handle: old(self)@.handle->0, auto_free: true },
            ),
            final(self)@ == (if r is Ok {
                old(self)@.image_installing(callback)
            } else {
                old(self)@
            }),
    {
        match reject_callback_context(in_callback) {
            Ok(()) => {},
            Err(error) => {
                return Err(error);
            },
        }
        let handle = match self.stopped_handle() {
            Ok(handle) => handle,
            Err(error) => {
                return Err(error);
            },
        };
        proof {
            use_type_invariant(&*self);
        }
        let mut record: Option<CallbackRecord<I>> = None;
        std::mem::swap(&mut self.image_cb, &mut record);
        let installed = register_callback(&mut record, callback);
        self.image_cb = record;
        match installed {
            Ok(()) => Ok(NativeCall::RegisterImageCallback { handle, auto_free: true }),
            Err(error) => Err(error),
        }
    }

    /// Settle the registration of an image callback: only a confirmed one
    /// counts.
    pub fn register_image_callback_done(&mut self, code: i32) -> (r: MvsResult<()>)
        requires
            old(self)@.image is Some,
            !old(self)@.grabbing,
        ensures
            r == check_spec(code),
            final(self)@ == old(self)@.image_settled(code),
    {
        proof {
            use_type_invariant(&*self);
        }
        let mut record: Option<CallbackRecord<I>> = None;
        std::mem::swap(&mut self.image_cb, &mut record);
        let r = register_callback_done(&mut record, code);
        self.image_cb = record;
        r
    }

    /// End the registration of the image callback. Without a registration
    /// there is nothing to do.
    pub fn unregister_image_callback(&self, in_callback: bool) -> (r: MvsResult<Option<NativeCall>>)
        ensures
            decided(
                r,
                first_reason(context_refusal(in_callback), self@.stopped_refusal()),
                if is_registered(self@.image) {
                    Some(NativeCall::UnregisterImageCallback { handle: self@.handle->0, auto_free: true })
                } else {
                    None
                },
            ),
    {
        match reject_callback_context(in_callback) {
            Ok(()) => {},
            Err(error) => {
                return Err(error);
            },
        }
        match self.stopped_handle() {
            Ok(handle) => if self.image_is_active() {
                Ok(Some(NativeCall::UnregisterImageCallback { handle, auto_free: true }))
            } else {
                Ok(None)
            },
            Err(error) => Err(error),
        }
    }

    /// Settle the end of the image registration: after a failure it stays as
    /// it was.
    pub fn unregister_image_callback_done(&mut self, code: i32) -> (r: MvsResult<()>)
        requires
            is_registered(old(self)@.image),
            !old(self)@.grabbing,
        ensures
            r == check_spec(code),
            final(self)@ == old(self)@.image_removed(code),
    {
        proof {
            use_type_invariant(&*self);
        }
        let mut record: Option<CallbackRecord<I>> = None;
        std::mem::swap(&mut self.image_cb, &mut record);
        let mut present = record.unwrap();
        let r = present.unregister_done(code);
        self.image_cb = Some(present);
        r
    }

    /// Take a reference to the image closure for one native invocation.
    pub fn image_callback(&self) -> (r: Option<Arc<I>>)
        ensures
            match r {
                Some(callback) => self@.image is Some && (self@.image->0).callback == Some(
                    *callback,
                ),
                None => self@.image matches Some(record) ==> record.callback is None,
            },
    {
        match &self.image_cb {
            Some(record) => record.load(),
            None => None,
        }
    }

    /// Account for a finished invocation of the image closure: a panic
    /// silences it.
    pub fn image_callback_invoked(&mut self, panicked: bool)
        ensures
            final(self)@ == old(self)@.image_invoked(panicked),
    {
        proof {
            use_type_invariant(&*self);
        }
        let mut record: Option<CallbackRecord<I>> = None;
        std::mem::swap(&mut self.image_cb, &mut record);
        match record {
            Some(present) => {
                let mut present = present;
                present.invoked(panicked);
                self.image_cb = Some(present);
            },
            None => {},
        }
    }

    /// Register a callback for device exceptions.
    pub fn register_exception_callback(&mut self, in_callback: bool, callback: X) -> (r: MvsResult<
        NativeCall,
    >)
        ensures
            decided(
                r,
                first_reason(context_refusal(in_callback), old(self)@.exception_refusal()),
                NativeCall::RegisterExceptionCallback { handle: old(self)@.handle->0 },
            ),
            final(self)@ == (if r is Ok {
                old(self)@.exception_installing(callback)
            } else {
                old(self)@
            }),
    {
        match reject_callback_context(in_callback) {
            Ok(()) => {},
            Err(error) => {
                return Err(error);
            },
        }
        let handle = match self.handle() {
            Ok(handle) => handle,
            Err(error) => {
                return Err(error);
            },
        };
        proof {
            use_type_invariant(&*self);
        }
        let mut record: Option<CallbackRecord<X>> = None;
        std::mem::swap(&mut self.exception_cb, &mut record);
        let installed = register_callback(&mut record, callback);
        self.exception_cb = record;
        match installed {
            Ok(()) => Ok(NativeCall::RegisterExceptionCallback { handle }),
            Err(error) => Err(error),
        }
    }

    /// Settle the registration of an exception callback: only a confirmed one
    /// counts.
    pub fn register_exception_callback_done(&mut self, code: i32) -> (r: MvsResult<()>)
        requires
            old(self)@.exception is Some,
        ensures
            r == check_spec(code),
            final(self)@ == old(self)@.exception_settled(code),
    {
        proof {
            use_type_invariant(&*self);
        }
        let mut record: Option<CallbackRecord<X>> = None;
        std::mem::swap(&mut self.exception_cb, &mut record);
        let r = register_callback_done(&mut record, code);
        self.exception_cb = record;
        r
    }

    /// End the registration of the exception callback. Without a registration
    /// there is nothing to do.
    pub fn unregister_exception_callback(&self, in_callback: bool) -> (r: MvsResult<Option<NativeCall>>)
        ensures
            decided(
                r,
                first_reason(context_refusal(in_callback), self@.handle_refusal()),
                if is_registered(self@.exception) {
                    Some(NativeCall::UnregisterExceptionCallback { handle: self@.handle->0 })
                } else {
                    None
                },
            ),
    {
        match reject_callback_context(in_callback) {
            Ok(()) => {},
            Err(error) => {
                return Err(error);
            },
        }
        match self.handle() {
            Ok(handle) => if self.exception_is_active() {
                Ok(Some(NativeCall::UnregisterExceptionCallback { handle }))
            } else {
                Ok(None)
            },
            Err(error) => Err(error),
        }
    }

    /// Settle the end of the exception registration: after a failure it stays as
    /// it was.
    pub fn unregister_exception_callback_done(&mut self, code: i32) -> (r: MvsResult<()>)
        requires
            is_registered(old(self)@.exception),
        ensures
            r == check_spec(code),
            final(self)@ == old(self)@.exception_removed(code),
    {
        proof {
            use_type_invariant(&*self);
        }
        let mut record: Option<CallbackRecord<X>> = None;
        std::mem::swap(&mut self.exception_cb, &mut record);
        let mut present = record.unwrap();
        let r = present.unregister_done(code);
        self.exception_cb = Some(present);
        r
    }

    /// Take a reference to the exception closure for one native invocation.
    pub fn exception_callback(&self) -> (r: Option<Arc<X>>)
        ensures
            match r {
                Some(callback) => self@.exception is Some && (self@.exception->0).callback == Some(
                    *callback,
                ),
                None => self@.exception matches Some(record) ==> record.callback is None,
            },
    {
        match &self.exception_cb {
            Some(record) => record.load(),
            None => None,
        }
    }

    /// Account for a finished invocation of the exception closure: a panic
    /// silences it.
    pub fn exception_callback_invoked(&mut self, panicked: bool)
        ensures
            final(self)@ == old(self)@.exception_invoked(panicked),
    {
        proof {
            use_type_invariant(&*self);
        }
        let mut record: Option<CallbackRecord<X>> = None;
        std::mem::swap(&mut self.exception_cb, &mut record);
        match record {
            Some(present) => {
                let mut present = present;
                present.invoked(panicked);
                self.exception_cb = Some(present);
            },
            None => {},
        }
    }

    fn event_index(&self, name: &SdkText) -> (r: Option<usize>)
        ensures
            match r {
                Some(i) => i < self@.events.len() && event_position(self@.events, name@) == Some(
                    i as int,
                ),
                None => event_position(self@.events, name@) is None,
            },
            r is None ==> forall|j: int|
                0 <= j < self@.events.len() ==> (#[trigger] self@.events[j]).name != name@,
    {
        let ghost events = self@.events;
        let ghost names = Seq::new(events.len(), |i: int| events[i].name);
        let mut i: usize = 0;
        while i < self.event_cbs.len()
            invariant
                events == self@.events,
                i <= events.len(),
                events.len() == self.event_cbs@.len(),
                names == Seq::new(events.len(), |i: int| events[i].name),
                forall|j: int| 0 <= j < i ==> (#[trigger] events[j]).name != name@,
            decreases events.len() - i,
        {
            assert(events[i as int] == self.event_cbs@[i as int].fields());
            if self.event_cbs[i].name == *name {
                proof {
                    names.index_of_first_ensures(name@);
                    assert(names[i as int] == name@);
                    assert(names.contains(name@));
                    let first = names.index_of_first(name@)->0;
                    if first < i {
                        assert(events[first].name == name@);
                    }
                }
                return Some(i);
            }
            i += 1;
        }
        proof {
            names.index_of_first_ensures(name@);
            if names.contains(name@) {
                let first = names.index_of_first(name@)->0;
                assert(events[first].name == name@);
            }
        }
        None
    }

    /// Register a callback for a named event. Each name has one registration
    /// at a time.
    pub fn register_event_callback(
        &mut self,
        in_callback: bool,
        event_name: &str,
        callback: E,
    ) -> (r: MvsResult<NativeCall>)
        ensures
            0 <= old(self)@.event_slot(encode_utf8(event_name@)) <= usize::MAX,
            ({
                let before = old(self)@;
                let name = encode_utf8(event_name@);
                let refusal = first_reason(context_refusal(in_callback), before.handle_refusal());
                if refusal is Some {
                    is_invalid_state(r, refusal->0)
                } else if !nul_free(name) {
                    is_nul_error(r, name)
                } else {
                    decided(
                        r,
                        already_registered(before.event_is_registered(name)),
                        NativeCall::RegisterEventCallback {
                            handle: before.handle->0,
                            record: before.event_slot(name) as usize,
                        },
                    )
                }
            }),
            final(self)@ == (if r is Ok {
                old(self)@.event_installing(encode_utf8(event_name@), callback)
            } else {
                old(self)@
            }),
    {
        proof {
            lemma_event_position(self@.events, encode_utf8(event_name@));
            assert(self@.events.len() == self.event_cbs.len());
        }
        match reject_callback_context(in_callback) {
            Ok(()) => {},
            Err(error) => {
                return Err(error);
            },
        }
        let handle = match self.handle() {
            Ok(handle) => handle,
            Err(error) => {
                return Err(error);
            },
        };
        let name = match SdkText::try_from(event_name) {
            Ok(name) => name,
            Err(error) => {
                return Err(error);
            },
        };
        proof {
            use_type_invariant(&*self);
        }
        let ghost before = self@;
        let found = self.event_index(&name);
        let mut events: Vec<EventRecord<E>> = Vec::new();
        std::mem::swap(&mut self.event_cbs, &mut events);
        assert(events_view(events@) == before.events);
        match found {
            Some(i) => {
                assert(before.events[i as int] == events@[i as int].fields());
                let installed = events[i].callback.register(callback);
                proof {
                    if installed is Ok {
                        assert(events_view(events@) =~= before.event_installing(
                            name@,
                            callback,
                        ).events);
                    } else {
                        assert(events_view(events@) =~= before.events);
                    }
                }
                self.event_cbs = events;
                match installed {
                    Ok(()) => Ok(NativeCall::RegisterEventCallback { handle, record: i }),
                    Err(error) => Err(error),
                }
            },
            None => {
                let record = events.len();
                let mut fresh = CallbackRecord::new();
                let installed = fresh.register(callback);
                events.push(EventRecord { name, callback: fresh });
                assert(events_view(events@) =~= before.event_installing(name@, callback).events);
                self.event_cbs = events;
                match installed {
                    Ok(()) => Ok(NativeCall::RegisterEventCallback { handle, record }),
                    Err(error) => Err(error),
                }
            },
        }
    }

    /// Settle the registration of an event callback: only a confirmed one
    /// counts. A failed first one leaves nothing behind, except where another
    /// registration has begun since: then an empty record keeps the place, so
    /// that no index moves.
    pub fn register_event_callback_done(&mut self, record: usize, code: i32) -> (r: MvsResult<()>)
        requires
            record < old(self)@.events.len(),
        ensures
            r == check_spec(code),
            final(self)@ == old(self)@.event_settled(record as int, code),
    {
        proof {
            use_type_invariant(&*self);
        }
        let ghost before = self@;
        let mut events: Vec<EventRecord<E>> = Vec::new();
        std::mem::swap(&mut self.event_cbs, &mut events);
        assert(before.events[record as int] == events@[record as int].fields());
        let r = events[record].callback.register_done(code);
        if r.is_err() && !events[record].callback.is_committed() && record == events.len() - 1 {
            events.remove(record);
        }
        assert(events_view(events@) =~= before.event_settled(record as int, code).events);
        self.event_cbs = events;
        r
    }

    /// End the registration of a named event callback. Without a registration
    /// there is nothing to do.
    pub fn unregister_event_callback(&self, in_callback: bool, event_name: &str) -> (r: MvsResult<
        Option<NativeCall>,
    >)
        ensures
            0 <= self@.event_slot(encode_utf8(event_name@)) <= usize::MAX,
            ({
                let name = encode_utf8(event_name@);
                let refusal = first_reason(context_refusal(in_callback), self@.handle_refusal());
                if refusal is Some {
                    is_invalid_state(r, refusal->0)
                } else if !nul_free(name) {
                    is_nul_error(r, name)
                } else {
                    r == Ok::<Option<NativeCall>, MvsError>(
                        if self@.event_is_registered(name) {
                            Some(
                                NativeCall::UnregisterEventCallback {
                                    handle: self@.handle->0,
                                    record: self@.event_slot(name) as usize,
                                },
                            )
                        } else {
                            None
                        },
                    )
                }
            }),
    {
        proof {
            lemma_event_position(self@.events, encode_utf8(event_name@));
            assert(self@.events.len() == self.event_cbs.len());
        }
        match reject_callback_context(in_callback) {
            Ok(()) => {},
            Err(error) => {
                return Err(error);
            },
        }
        let handle = match self.handle() {
            Ok(handle) => handle,
            Err(error) => {
                return Err(error);
            },
        };
        let name = match SdkText::try_from(event_name) {
            Ok(name) => name,
            Err(error) => {
                return Err(error);
            },
        };
        match self.event_index(&name) {
            Some(record) => {
                assert(self@.events[record as int] == self.event_cbs@[record as int].fields());
                if self.event_cbs[record].callback.unregister() {
                    Ok(Some(NativeCall::UnregisterEventCallback { handle, record }))
                } else {
                    Ok(None)
                }
            },
            None => Ok(None),
        }
    }

    /// Settle the end of an event registration: after a failure it stays as it
    /// was.
    pub fn unregister_event_callback_done(&mut self, record: usize, code: i32) -> (r: MvsResult<
        (),
    >)
        requires
            record < old(self)@.events.len(),
        ensures
            r == check_spec(code),
            final(self)@ == old(self)@.event_removed(record as int, code),
    {
        proof {
            use_type_invariant(&*self);
        }
        let ghost before = self@;
        let mut events: Vec<EventRecord<E>> = Vec::new();
        std::mem::swap(&mut self.event_cbs, &mut events);
        assert(before.events[record as int] == events@[record as int].fields());
        let r = events[record].callback.unregister_done(code);
        assert(events_view(events@) =~= before.event_removed(record as int, code).events);
        self.event_cbs = events;
        r
    }

    /// The event name of a registration, which the SDK wants for its native
    /// calls.
    pub fn event_name(&self, record: usize) -> (r: Option<&SdkText>)
        ensures
            match r {
                Some(name) => record < self@.events.len() && name@
                    == self@.events[record as int].name,
                None => record >= self@.events.len(),
            },
    {
        if record < self.event_cbs.len() {
            assert(self@.events[record as int] == self.event_cbs@[record as int].fields());
            Some(&self.event_cbs[record].name)
        } else {
            None
        }
    }

    /// Take a reference to an event closure for one native invocation.
    pub fn event_callback(&self, record: usize) -> (r: Option<Arc<E>>)
        ensures
            match r {
                Some(callback) => record < self@.events.len()
                    && self@.events[record as int].record.callback == Some(*callback),
                None => record < self@.events.len()
                    ==> self@.events[record as int].record.callback is None,
            },
    {
        if record < self.event_cbs.len() {
            assert(self@.events[record as int] == self.event_cbs@[record as int].fields());
            self.event_cbs[record].callback.load()
        } else {
            None
        }
    }

    /// Account for a finished invocation of an event closure: a panic silences
    /// it.
    pub fn event_callback_invoked(&mut self, record: usize, panicked: bool)
        ensures
            final(self)@ == (if record < old(self)@.events.len() {
                old(self)@.event_invoked(record as int, panicked)
            } else {
                old(self)@
            }),
    {
        if record >= self.event_cbs.len() {
            return;
        }
        proof {
            use_type_invariant(&*self);
        }
        let ghost before = self@;
        let mut events: Vec<EventRecord<E>> = Vec::new();
        std::mem::swap(&mut self.event_cbs, &mut events);
        assert(before.events[record as int] == events@[record as int].fields());
        events[record].callback.invoked(panicked);
        assert(events_view(events@) =~= before.event_invoked(record as int, panicked).events);
        self.event_cbs = events;
    }

    fn node_request(&self, key: &str, op: NodeOp, text: &[u8]) -> (r: MvsResult<NodeRequest>)
        ensures
            node_decided(
                r,
                self@.handle_refusal(),
                self@.handle,
                encode_utf8(key@),
                op,
                text@,
            ),
    {
        let handle = match self.handle() {
            Ok(handle) => handle,
            Err(error) => {
                return Err(error);
            },
        };
        let key = match SdkText::try_from(key) {
            Ok(key) => key,
            Err(error) => {
                return Err(error);
            },
        };
        match SdkText::new(text) {
            Ok(text) => Ok(NodeRequest { handle, key, op, text }),
            Err(error) => Err(error),
        }
    }

    fn plain_node_request(&self, key: &str, op: NodeOp) -> (r: MvsResult<NodeRequest>)
        ensures
            node_decided(
                r,
                self@.handle_refusal(),
                self@.handle,
                encode_utf8(key@),
                op,
                Seq::empty(),
            ),
    {
        let text: &[u8] = &[];
        assert(text@ =~= Seq::empty());
        self.node_request(key, op, text)
    }

    fn event_switch(&self, in_callback: bool, event_name: &str, op: NodeOp) -> (r: MvsResult<
        NodeRequest,
    >)
        ensures
            node_decided(
                r,
                first_reason(context_refusal(in_callback), self@.handle_refusal()),
                self@.handle,
                encode_utf8(event_name@),
                op,
                Seq::empty(),
            ),
    {
        match reject_callback_context(in_callback) {
            Ok(()) => self.plain_node_request(event_name, op),
            Err(error) => Err(error),
        }
    }

    /// Read an integer node. [`get_int_done`](crate::get_int_done) takes the reply.
    pub fn get_int(&self, key: &str) -> (r: MvsResult<NodeRequest>)
        ensures
            node_decided(
                r,
                self@.handle_refusal(),
                self@.handle,
                encode_utf8(key@),
                NodeOp::GetInt,
                Seq::empty(),
            ),
    {
        self.plain_node_request(key, NodeOp::GetInt)
    }

    /// Write an integer node.
    pub fn set_int(&self, key: &str, value: i64) -> (r: MvsResult<NodeRequest>)
        ensures
            node_decided(
                r,
                self@.handle_refusal(),
                self@.handle,
                encode_utf8(key@),
                NodeOp::SetInt(value),
                Seq::empty(),
            ),
    {
        self.plain_node_request(key, NodeOp::SetInt(value))
    }

    /// Read an enumeration node. [`get_enum_done`](crate::get_enum_done) takes
    /// the reply.
    pub fn get_enum(&self, key: &str) -> (r: MvsResult<NodeRequest>)
        ensures
            node_decided(
                r,
                self@.handle_refusal(),
                self@.handle,
                encode_utf8(key@),
                NodeOp::GetEnum,
                Seq::empty(),
            ),
    {
        self.plain_node_request(key, NodeOp::GetEnum)
    }

    /// Write an enumeration node by number.
    pub fn set_enum_value(&self, key: &str, value: u32) -> (r: MvsResult<NodeRequest>)
        ensures
            node_decided(
                r,
                self@.handle_refusal(),
                self@.handle,
                encode_utf8(key@),
                NodeOp::SetEnumValue(value),
                Seq::empty(),
            ),
    {
        self.plain_node_request(key, NodeOp::SetEnumValue(value))
    }

    /// Write an enumeration node by name.
    pub fn set_enum_symbolic(&self, key: &str, value: &str) -> (r: MvsResult<NodeRequest>)
        ensures
            node_decided(
                r,
                self@.handle_refusal(),
                self@.handle,
                encode_utf8(key@),
                NodeOp::SetEnumSymbolic,
                encode_utf8(value@),
            ),
    {
        self.node_request(key, NodeOp::SetEnumSymbolic, value.as_bytes())
    }

    /// Read a floating-point node. [`get_float_done`](crate::get_float_done)
    /// takes the reply.
    pub fn get_float(&self, key: &str) -> (r: MvsResult<NodeRequest>)
        ensures
            node_decided(
                r,
                self@.handle_refusal(),
                self@.handle,
                encode_utf8(key@),
                NodeOp::GetFloat,
                Seq::empty(),
            ),
    {
        self.plain_node_request(key, NodeOp::GetFloat)
    }

    /// Write a floating-point node.
    pub fn set_float(&self, key: &str, value: FloatBits) -> (r: MvsResult<NodeRequest>)
        ensures
            node_decided(
                r,
                self@.handle_refusal(),
                self@.handle,
                encode_utf8(key@),
                NodeOp::SetFloat(value),
                Seq::empty(),
            ),
    {
        self.plain_node_request(key, NodeOp::SetFloat(value))
    }

    /// Read a boolean node. [`get_bool_done`](crate::get_bool_done) takes the
    /// reply.
    pub fn get_bool(&self, key: &str) -> (r: MvsResult<NodeRequest>)
        ensures
            node_decided(
                r,
                self@.handle_refusal(),
                self@.handle,
                encode_utf8(key@),
                NodeOp::GetBool,
                Seq::empty(),
            ),
    {
        self.plain_node_request(key, NodeOp::GetBool)
    }

    /// Write a boolean node.
    pub fn set_bool(&self, key: &str, value: bool) -> (r: MvsResult<NodeRequest>)
        ensures
            node_decided(
                r,
                self@.handle_refusal(),
                self@.handle,
                encode_utf8(key@),
                NodeOp::SetBool(bool_to_sdk_spec(value)),
                Seq::empty(),
            ),
    {
        self.plain_node_request(key, NodeOp::SetBool(bool_to_sdk(value)))
    }

    /// Read a string node, byte for byte.
    /// [`get_string_done`](crate::get_string_done) takes the reply.
    pub fn get_string(&self, key: &str) -> (r: MvsResult<NodeRequest>)
        ensures
            node_decided(
                r,
                self@.handle_refusal(),
                self@.handle,
                encode_utf8(key@),
                NodeOp::GetString,
                Seq::empty(),
            ),
    {
        self.plain_node_request(key, NodeOp::GetString)
    }

    /// Write a string node, byte for byte; a NUL inside is refused.
    pub fn set_string(&self, key: &str, value: &[u8]) -> (r: MvsResult<NodeRequest>)
        ensures
            node_decided(
                r,
                self@.handle_refusal(),
                self@.handle,
                encode_utf8(key@),
                NodeOp::SetString,
                value@,
            ),
    {
        self.node_request(key, NodeOp::SetString, value)
    }

    /// Execute a command node.
    pub fn exec_command(&self, key: &str) -> (r: MvsResult<NodeRequest>)
        ensures
            node_decided(
                r,
                self@.handle_refusal(),
                self@.handle,
                encode_utf8(key@),
                NodeOp::ExecCommand,
                Seq::empty(),
            ),
    {
        self.plain_node_request(key, NodeOp::ExecCommand)
    }

    /// Switch the notifications of a named event on, in the device.
    pub fn event_notification_on(&self, in_callback: bool, event_name: &str) -> (r: MvsResult<NodeRequest>)
        ensures
            node_decided(
                r,
                first_reason(context_refusal(in_callback), self@.handle_refusal()),
                self@.handle,
                encode_utf8(event_name@),
                NodeOp::EventNotificationOn,
                Seq::empty(),
            ),
    {
        self.event_switch(in_callback, event_name, NodeOp::EventNotificationOn)
    }

    /// Switch the notifications of a named event off, in the device.
    pub fn event_notification_off(&self, in_callback: bool, event_name: &str) -> (r: MvsResult<NodeRequest>)
        ensures
            node_decided(
                r,
                first_reason(context_refusal(in_callback), self@.handle_refusal()),
                self@.handle,
                encode_utf8(event_name@),
                NodeOp::EventNotificationOff,
                Seq::empty(),
            ),
    {
        self.event_switch(in_callback, event_name, NodeOp::EventNotificationOff)
    }

    /// Take every closure out, leaving the registrations as they are.
    fn silence_callbacks(&mut self)
        ensures
            final(self)@ == old(self)@.silenced(),
    {
        proof {
            use_type_invariant(&*self);
        }
        let ghost before = self@;
        self.image_callback_invoked(true);
        self.exception_callback_invoked(true);
        let mut events: Vec<EventRecord<E>> = Vec::new();
        std::mem::swap(&mut self.event_cbs, &mut events);
        let ghost all = before.events;
        assert(events_view(events@) == all);
        let mut i: usize = 0;
        while i < events.len()
            invariant
                i <= events@.len(),
                events@.len() == all.len(),
                forall|j: int|
                    0 <= j < i ==> (#[trigger] events@[j]).fields() == (EventRecordView {
                        name: all[j].name,
                        record: all[j].record.silenced(),
                    }),
                forall|j: int| i <= j < events@.len() ==> (#[trigger] events@[j]).fields() == all[j],
            decreases events@.len() - i,
        {
            assert(events@[i as int].fields() == all[i as int]);
            events[i].callback.silence();
            i += 1;
        }
        assert(events_view(events@) =~= before.silenced().events);
        self.event_cbs = events;
    }

    /// The native calls of a cleanup, in order.
    fn plan_cleanup(&self, handle: usize) -> (r: Vec<NativeCall>)
        requires
            self@.handle == Some(handle),
        ensures
            r@ == self@.cleanup_plan(),
    {
        let mut calls: Vec<NativeCall> = Vec::new();
        if self.grabbing {
            calls.push(NativeCall::StopGrabbing { handle });
        }
        if self.image_is_active() {
            calls.push(NativeCall::UnregisterImageCallback { handle, auto_free: true });
        }
        if self.exception_is_active() {
            calls.push(NativeCall::UnregisterExceptionCallback { handle });
        }
        let ghost first = calls@;
        let ghost events = self@.events;
        let mut i: usize = 0;
        assert(events.take(0) =~= Seq::empty());
        assert(calls@ =~= first + event_calls(handle, events.take(0)));
        while i < self.event_cbs.len()
            invariant
                i <= events.len(),
                events == self@.events,
                events.len() == self.event_cbs@.len(),
                calls@ == first + event_calls(handle, events.take(i as int)),
            decreases events.len() - i,
        {
            assert(events[i as int] == self.event_cbs@[i as int].fields());
            assert(events.take(i + 1).drop_last() =~= events.take(i as int));
            assert(events.take(i + 1).last() == events[i as int]);
            if self.event_cbs[i].callback.is_active() {
                calls.push(NativeCall::UnregisterEventCallback { handle, record: i });
            }
            assert(calls@ =~= first + event_calls(handle, events.take(i + 1)));
            i += 1;
        }
        assert(events.take(i as int) =~= events);
        calls.push(NativeCall::CloseDevice { handle });
        calls.push(NativeCall::DestroyHandle { handle });
        assert(calls@ =~= self@.cleanup_plan());
        calls
    }

    /// Start the one cleanup attempt: silence every callback and take the
    /// handle. A camera that has none is already cleaned up. Inside an SDK
    /// callback no native call is made; the handle stays, and so does the count
    /// of live handles, which keeps the session from being finalized.
    pub fn cleanup(&mut self, in_callback: bool) -> (r: Result<Option<Cleanup>, CleanupError>)
        ensures
            old(self)@.events.len() <= usize::MAX,
            old(self)@.handle is None ==> {
                &&& r matches Ok(None)
                &&& final(self)@ == old(self)@
            },
            old(self)@.handle is Some && in_callback ==> {
                &&& r matches Err(error) && error@.len() == 1 && error@[0].step
                    == CleanupStep::DrainCallbacks && is_invalid_state(
                    Err::<(), MvsError>(error@[0].error),
                    "camera cleanup cannot run from an MVS callback"@,
                )
                &&& final(self)@ == old(self)@.silenced()
            },
            old(self)@.handle is Some && !in_callback ==> {
                &&& r matches Ok(Some(cleanup)) && cleanup.calls() == old(self)@.cleanup_plan()
                    && cleanup.codes() == Seq::<i32>::empty()
                &&& final(self)@ == old(self)@.closing()
            },
    {
        assert(self@.events.len() == self.event_cbs.len());
        let handle = match self.handle {
            Some(handle) => handle,
            None => {
                return Ok(None);
            },
        };
        if in_callback {
            self.silence_callbacks();
            let mut failures: Vec<CleanupFailure> = Vec::new();
            failures.push(
                CleanupFailure {
                    step: CleanupStep::DrainCallbacks,
                    error: MvsError::InvalidState("camera cleanup cannot run from an MVS callback"),
                },
            );
            return Err(CleanupError::new(failures));
        }
        let ghost before = self@;
        let calls = self.plan_cleanup(handle);
        proof {
            law_cleanup_plan_ends_with_destruction(before);
        }
        self.silence_callbacks();
        proof {
            use_type_invariant(&*self);
        }
        self.grabbing = false;
        self.handle = None;
        Ok(Some(Cleanup::new(calls)))
    }

    /// Settle the cleanup once every call of it has returned: the registrations
    /// are gone, and a confirmed destruction is taken off the live handles.
    pub fn cleanup_done(&mut self, runtime: &mut RuntimeCore, cleanup: Cleanup) -> (r: Result<
        (),
        CleanupError,
    >)
        requires
            old(self)@.handle is None,
            cleanup.is_finished(),
            old(runtime)@.live > 0,
        ensures
            final(self)@ == CameraView::<I, X, E>::closed(),
            final(runtime)@ == (if cleanup.codes().last() == 0 {
                old(runtime)@.handle_destroyed()
            } else {
                old(runtime)@
            }),
            reported_failures(cleanup.calls(), cleanup.codes()).len() == 0 ==> r == Ok::<
                (),
                CleanupError,
            >(()),
            reported_failures(cleanup.calls(), cleanup.codes()).len() > 0 ==> (r matches Err(error)
                && error@ == reported_failures(cleanup.calls(), cleanup.codes())),
            r is Ok <==> forall|i: int|
                0 <= i < cleanup.codes().len() ==> cleanup.codes()[i] == 0,
    {
        proof {
            use_type_invariant(&*self);
        }
        if cleanup.destroyed() {
            runtime.native_handle_destroyed();
        }
        self.image_cb = None;
        self.exception_cb = None;
        let mut events: Vec<EventRecord<E>> = Vec::new();
        std::mem::swap(&mut self.event_cbs, &mut events);
        assert(self@ =~= CameraView::<I, X, E>::closed());
        cleanup.into_result()
    }

    /// Number of events with a confirmed registration.
    fn count_events(&self) -> (r: usize)
        ensures
            r == registered_events(self@.events),
    {
        let ghost events = self@.events;
        let mut count: usize = 0;
        let mut i: usize = 0;
        assert(events.take(0) =~= Seq::empty());
        while i < self.event_cbs.len()
            invariant
                i <= events.len(),
                events == self@.events,
                events.len() == self.event_cbs@.len(),
                count == registered_events(events.take(i as int)),
                count <= i,
            decreases events.len() - i,
        {
            assert(events[i as int] == self.event_cbs@[i as int].fields());
            assert(events.take(i + 1).drop_last() =~= events.take(i as int));
            assert(events.take(i + 1).last() == events[i as int]);
            if self.event_cbs[i].callback.is_active() {
                count += 1;
            }
            i += 1;
        }
        assert(events.take(i as int) =~= events);
        count
    }

    /// Describe the camera for a reader.
    pub fn status(&self) -> (r: CameraStatus)
        ensures
            r == status_of(self@),
    {
        CameraStatus {
            handle: self.as_raw_handle(),
            state: if self.handle.is_none() {
                CameraState::Closed
            } else if self.grabbing {
                CameraState::Grabbing
            } else {
                CameraState::Open
            },
            acquisition_mode: if !self.grabbing {
                None
            } else if self.image_is_active() {
                Some(AcquisitionMode::Callback)
            } else {
                Some(AcquisitionMode::Polling)
            },
            image_cb: self.image_is_active(),
            exception_cb: self.exception_is_active(),
            event_cbs: self.count_events(),
        }
    }
}

/// What a camera is doing.
#[derive(Copy, Clone, PartialEq, Eq, Structural, Debug)]
pub enum CameraState {
    /// It has a handle and is stopped.
    Open,
    /// It acquires images.
    Grabbing,
    /// Its handle is gone.
    Closed,
}

/// Where the images of a camera go.
#[derive(Copy, Clone, PartialEq, Eq, Structural, Debug)]
pub enum AcquisitionMode {
    /// To the image callback.
    Callback,
    /// To whoever polls.
    Polling,
}

/// Description of a camera for a reader.
#[derive(Copy, Clone, PartialEq, Eq, Structural, Debug)]
pub struct CameraStatus {
    /// Native handle, or null.
    pub handle: usize,
    /// What the camera is doing.
    pub state: CameraState,
    /// Where its images go, while it acquires.
    pub acquisition_mode: Option<AcquisitionMode>,
    /// Whether an image callback is registered.
    pub image_cb: bool,
    /// Whether an exception callback is registered.
    pub exception_cb: bool,
    /// Number of registered event callbacks.
    pub event_cbs: usize,
}

impl CameraState {
    /// Name of the state.
    pub open spec fn name_spec(self) -> Seq<char> {
        match self {
            CameraState::Open => "Open"@,
            CameraState::Grabbing => "Grabbing"@,
            CameraState::Closed => "Closed"@,
        }
    }

    /// Name the state.
    pub fn name(self) -> (r: &'static str)
        ensures
            r@ == self.name_spec(),
    {
        match self {
            CameraState::Open => "Open",
            CameraState::Grabbing => "Grabbing",
            CameraState::Closed => "Closed",
        }
    }
}

impl AcquisitionMode {
    /// Name of the mode.
    pub open spec fn name_spec(self) -> Seq<char> {
        match self {
            AcquisitionMode::Callback => "Callback"@,
            AcquisitionMode::Polling => "Polling"@,
        }
    }

    /// Name the mode.
    pub fn name(self) -> (r: &'static str)
        ensures
            r@ == self.name_spec(),
    {
        match self {
            AcquisitionMode::Callback => "Callback",
            AcquisitionMode::Polling => "Polling",
        }
    }
}

impl CameraStatus {
    /// Diagnostic text of the description.
    pub open spec fn debug_text_spec(self) -> Seq<char> {
        let mode = match self.acquisition_mode {
            Some(mode) => ", acquisition_mode: \""@ + mode.name_spec() + "\""@,
            None => Seq::empty(),
        };
        "Camera { handle: 0x"@ + lower_hex_spec(self.handle as nat) + ", state: \""@
            + self.state.name_spec() + "\""@ + mode + ", image_cb: "@ + bool_spec(self.image_cb)
            + ", exception_cb: "@ + bool_spec(self.exception_cb) + ", event_cbs: "@ + decimal_spec(
            self.event_cbs as nat,
        ) + " }"@
    }

    /// Diagnostic text, such as `Camera { handle: 0x40, state: "Open",
    /// image_cb: false, exception_cb: false, event_cbs: 0 }`.
    pub fn debug_text(&self) -> (r: String)
        ensures
            r@ == self.debug_text_spec(),
    {
        let mut text = "Camera { handle: 0x".to_owned();
        text.append(lower_hex(self.handle).as_str());
        text.append(", state: \"");
        text.append(self.state.name());
        text.append("\"");
        let ghost before = text@;
        match self.acquisition_mode {
            Some(mode) => {
                text.append(", acquisition_mode: \"");
                text.append(mode.name());
                text.append("\"");
                assert(text@ =~= before + (", acquisition_mode: \""@ + mode.name_spec() + "\""@));
            },
            None => {
                assert(text@ =~= before + Seq::<char>::empty());
            },
        }
        text.append(", image_cb: ");
        text.append(bool_text(self.image_cb));
        text.append(", exception_cb: ");
        text.append(bool_text(self.exception_cb));
        text.append(", event_cbs: ");
        text.append(decimal(self.event_cbs).as_str());
        text.append(" }");
        text
    }
}

/// The description of a camera in a given state.
pub open spec fn status_of<I, X, E>(camera: CameraView<I, X, E>) -> CameraStatus {
    CameraStatus {
        handle: match camera.handle {
            Some(handle) => handle,
            None => 0,
        },
        state: if camera.handle is None {
            CameraState::Closed
        } else if camera.grabbing {
            CameraState::Grabbing
        } else {
            CameraState::Open
        },
        acquisition_mode: if !camera.grabbing {
            None
        } else if is_registered(camera.image) {
            Some(AcquisitionMode::Callback)
        } else {
            Some(AcquisitionMode::Polling)
        },
        image_cb: is_registered(camera.image),
        exception_cb: is_registered(camera.exception),
        event_cbs: registered_events(camera.events) as usize,
    }
}

/// Read the reply to a connection query; a camera without handle sends none,
/// and is not connected.
pub fn is_connected_done(reply: Option<u8>) -> (r: bool)
    ensures
        r == (reply matches Some(value) && value != 0),
{
    match reply {
        Some(value) => value != 0,
        None => false,
    }
}

/// A description says of a camera what is the case: its handle or null, closed
/// without a handle, grabbing while it acquires and open otherwise; where its
/// images go, exactly while it acquires; and which callbacks are registered.
pub proof fn law_descriptions_are_true<I, X, E>(camera: CameraView<I, X, E>)
    requires
        camera.wf(),
        camera.events.len() <= usize::MAX,
    ensures
        camera.handle matches Some(handle) ==> status_of(camera).handle == handle,
        camera.handle is None ==> status_of(camera).handle == 0,
        status_of(camera).state == CameraState::Closed <==> camera.handle is None,
        status_of(camera).state == CameraState::Grabbing <==> camera.grabbing,
        status_of(camera).state == CameraState::Open <==> camera.handle is Some
            && !camera.grabbing,
        status_of(camera).acquisition_mode is Some <==> camera.grabbing,
        status_of(camera).acquisition_mode == Some(AcquisitionMode::Callback) <==> camera.grabbing
            && is_registered(camera.image),
        status_of(camera).acquisition_mode == Some(AcquisitionMode::Polling) <==> camera.grabbing
            && !is_registered(camera.image),
        status_of(camera).image_cb == is_registered(camera.image),
        status_of(camera).exception_cb == is_registered(camera.exception),
        status_of(camera).event_cbs == camera.events.filter(
            |event: EventRecordView<E>| event.record.registered,
        ).len(),
{
    law_registered_events_are_counted(camera.events);
    lemma_registered_events_are_bounded(camera.events);
}

/// No more events are registered than there are.
proof fn lemma_registered_events_are_bounded<E>(events: Seq<EventRecordView<E>>)
    ensures
        registered_events(events) <= events.len(),
    decreases events.len(),
{
    if events.len() > 0 {
        lemma_registered_events_are_bounded(events.drop_last());
    }
}

/// States and modes are called by their names.
pub proof fn law_states_have_their_names()
    ensures
        CameraState::Open.name_spec() == "Open"@,
        CameraState::Grabbing.name_spec() == "Grabbing"@,
        CameraState::Closed.name_spec() == "Closed"@,
        AcquisitionMode::Callback.name_spec() == "Callback"@,
        AcquisitionMode::Polling.name_spec() == "Polling"@,
{
}

/// The text of a description shows each of its fields by name; it names the
/// acquisition mode exactly where there is one.
pub proof fn law_description_texts_show_their_fields(status: CameraStatus)
    ensures
        status.acquisition_mode matches Some(mode) ==> status.debug_text_spec()
            == "Camera { handle: 0x"@ + lower_hex_spec(status.handle as nat) + ", state: \""@
            + status.state.name_spec() + "\""@ + (", acquisition_mode: \""@ + mode.name_spec()
            + "\""@) + ", image_cb: "@ + bool_spec(status.image_cb) + ", exception_cb: "@
            + bool_spec(status.exception_cb) + ", event_cbs: "@ + decimal_spec(
            status.event_cbs as nat,
        ) + " }"@,
        status.acquisition_mode is None ==> status.debug_text_spec() == "Camera { handle: 0x"@
            + lower_hex_spec(status.handle as nat) + ", state: \""@ + status.state.name_spec()
            + "\""@ + ", image_cb: "@ + bool_spec(status.image_cb) + ", exception_cb: "@
            + bool_spec(status.exception_cb) + ", event_cbs: "@ + decimal_spec(
            status.event_cbs as nat,
        ) + " }"@,
{
    if status.acquisition_mode is None {
        let head = "Camera { handle: 0x"@ + lower_hex_spec(status.handle as nat) + ", state: \""@
            + status.state.name_spec() + "\""@;
        assert(head + Seq::<char>::empty() =~= head);
    }
}

} // verus!
