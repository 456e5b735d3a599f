//! The states of a camera and how they follow one another.

use vstd::prelude::*;

use crate::callback::{is_registered, record_or_fresh, settled, RecordView};
use crate::cleanup::{cleanup_step, is_cleanup_plan};
use crate::error::{is_invalid_state, is_nul_error, CleanupStep, MvsError, MvsResult};
use crate::native::{NativeCall, NodeOp, NodeRequest};
use crate::text::nul_free;

verus! {

/// The timeout that makes the SDK wait for ever.
pub const INFINITE_WAIT_MS: u32 = 0xFFFF_FFFF;

/// State of one named event registration.
pub ghost struct EventRecordView<E> {
    /// Event name.
    pub name: Seq<u8>,
    /// The registration.
    pub record: RecordView<E>,
}

/// Index of the registration for an event name, if there is one.
pub open spec fn event_position<E>(events: Seq<EventRecordView<E>>, name: Seq<u8>) -> Option<int> {
    Seq::new(events.len(), |i: int| events[i].name).index_of_first(name)
}

/// The first of two reasons to refuse.
pub open spec fn first_reason(
    first: Option<Seq<char>>,
    second: Option<Seq<char>>,
) -> Option<Seq<char>> {
    if first is Some {
        first
    } else {
        second
    }
}

/// Why a lifecycle operation is refused in the caller's context.
pub open spec fn context_refusal(in_callback: bool) -> Option<Seq<char>> {
    if in_callback {
        Some("camera lifecycle operations cannot run from an MVS callback"@)
    } else {
        None
    }
}

/// Why a finite wait is refused.
pub open spec fn timeout_refusal(timeout_ms: u32) -> Option<Seq<char>> {
    if timeout_ms == INFINITE_WAIT_MS {
        Some("u32::MAX selects infinite wait; call the blocking method instead"@)
    } else {
        None
    }
}

/// Whether `r` is the refusal, where there is one, and otherwise the value.
pub open spec fn decided<T>(r: MvsResult<T>, refusal: Option<Seq<char>>, value: T) -> bool {
    match refusal {
        Some(reason) => is_invalid_state(r, reason),
        None => r == Ok::<T, MvsError>(value),
    }
}

/// Whether `r` is what a node request on a camera amounts to: a camera without
/// handle refuses, then a key and then a text that no C string can hold is
/// reported, and otherwise the request is made.
pub open spec fn node_decided(
    r: MvsResult<NodeRequest>,
    refusal: Option<Seq<char>>,
    handle: Option<usize>,
    key: Seq<u8>,
    op: NodeOp,
    text: Seq<u8>,
) -> bool {
    match refusal {
        Some(reason) => is_invalid_state(r, reason),
        None => if !nul_free(key) {
            is_nul_error(r, key)
        } else if !nul_free(text) {
            is_nul_error(r, text)
        } else {
            r matches Ok(request) && request.is(handle->0, key, op, text)
        },
    }
}

/// State of a camera.
#[verifier::ext_equal]
pub ghost struct CameraView<I, X, E> {
    /// The native handle, until cleanup takes it.
    pub handle: Option<usize>,
    /// Whether the SDK has confirmed that images are being acquired.
    pub grabbing: bool,
    /// Registration of the image callback.
    pub image: Option<RecordView<I>>,
    /// Registration of the exception callback.
    pub exception: Option<RecordView<X>>,
    /// Registrations of event callbacks.
    pub events: Seq<EventRecordView<E>>,
}

impl<I, X, E> CameraView<I, X, E> {
    /// Whether the state can occur: a handle is not null, only a camera with a
    /// handle acquires, a confirmed registration leaves its mark, and every
    /// event has one registration under a name that a C string can hold.
    pub open spec fn wf(self) -> bool {
        &&& self.handle matches Some(handle) ==> handle != 0
        &&& self.grabbing ==> self.handle is Some
        &&& self.image matches Some(record) ==> record.wf()
        &&& self.exception matches Some(record) ==> record.wf()
        &&& forall|i: int|
            0 <= i < self.events.len() ==> (#[trigger] self.events[i]).record.wf() && nul_free(
                self.events[i].name,
            )
        &&& forall|i: int, j: int|
            0 <= i < j < self.events.len() ==> (#[trigger] self.events[i]).name != (
            #[trigger] self.events[j]).name
    }

    /// A camera that was just opened.
    pub open spec fn opened(handle: usize) -> Self {
        CameraView {
            handle: Some(handle),
            grabbing: false,
            image: None,
            exception: None,
            events: Seq::empty(),
        }
    }

    /// Why an operation on the handle is refused.
    pub open spec fn handle_refusal(self) -> Option<Seq<char>> {
        if self.handle is None {
            Some("camera handle is unavailable"@)
        } else {
            None
        }
    }

    /// Why an operation that needs a stopped camera is refused.
    pub open spec fn stopped_refusal(self) -> Option<Seq<char>> {
        if self.grabbing {
            Some("camera must be stopped"@)
        } else {
            self.handle_refusal()
        }
    }

    /// Why stopping is refused.
    pub open spec fn stop_refusal(self) -> Option<Seq<char>> {
        if !self.grabbing {
            Some("camera is not grabbing"@)
        } else {
            self.handle_refusal()
        }
    }

    /// Why polling is refused.
    pub open spec fn polling_refusal(self) -> Option<Seq<char>> {
        if !self.grabbing || is_registered(self.image) {
            Some("polling requires active grabbing without an image callback"@)
        } else {
            self.handle_refusal()
        }
    }

    /// Why registering an image callback is refused.
    pub open spec fn image_refusal(self) -> Option<Seq<char>> {
        first_reason(self.stopped_refusal(), already_registered(is_registered(self.image)))
    }

    /// Why registering an exception callback is refused.
    pub open spec fn exception_refusal(self) -> Option<Seq<char>> {
        first_reason(self.handle_refusal(), already_registered(is_registered(self.exception)))
    }

    /// State after the native start returned `code`.
    pub open spec fn started(self, code: i32) -> Self {
        if code == 0 {
            CameraView { grabbing: true, ..self }
        } else {
            self
        }
    }

    /// State after the native stop returned `code`.
    pub open spec fn stopped(self, code: i32) -> Self {
        if code == 0 {
            CameraView { grabbing: false, ..self }
        } else {
            self
        }
    }

    /// State while the native registration of an image callback runs.
    pub open spec fn image_installing(self, callback: I) -> Self {
        CameraView { image: Some(record_or_fresh(self.image).installing(callback)), ..self }
    }

    /// State after the native registration of the image callback returned
    /// `code`.
    pub open spec fn image_settled(self, code: i32) -> Self {
        CameraView { image: settled(self.image->0, code), ..self }
    }

    /// State after the native deregistration of the image callback returned
    /// `code`.
    pub open spec fn image_removed(self, code: i32) -> Self {
        CameraView { image: Some((self.image->0).removed(code)), ..self }
    }

    /// State after an invocation of the image closure.
    pub open spec fn image_invoked(self, panicked: bool) -> Self {
        CameraView {
            image: if panicked {
                silenced_record(self.image)
            } else {
                self.image
            },
            ..self
        }
    }

    /// State while the native registration of an exception callback runs.
    pub open spec fn exception_installing(self, callback: X) -> Self {
        CameraView { exception: Some(record_or_fresh(self.exception).installing(callback)), ..self }
    }

    /// State after the native registration of the exception callback returned
    /// `code`.
    pub open spec fn exception_settled(self, code: i32) -> Self {
        CameraView { exception: settled(self.exception->0, code), ..self }
    }

    /// State after the native deregistration of the exception callback returned
    /// `code`.
    pub open spec fn exception_removed(self, code: i32) -> Self {
        CameraView { exception: Some((self.exception->0).removed(code)), ..self }
    }

    /// State after an invocation of the exception closure.
    pub open spec fn exception_invoked(self, panicked: bool) -> Self {
        CameraView {
            exception: if panicked {
                silenced_record(self.exception)
            } else {
                self.exception
            },
            ..self
        }
    }

    /// The index under which an event name is registered or will be.
    pub open spec fn event_slot(self, name: Seq<u8>) -> int {
        match event_position(self.events, name) {
            Some(i) => i,
            None => self.events.len() as int,
        }
    }

    /// Whether an event name has a confirmed registration.
    pub open spec fn event_is_registered(self, name: Seq<u8>) -> bool {
        event_position(self.events, name) matches Some(i) && self.events[i].record.registered
    }

    /// The same state with another registration for one event.
    pub open spec fn with_event(self, i: int, record: RecordView<E>) -> Self {
        CameraView {
            events: self.events.update(i, EventRecordView { record, ..self.events[i] }),
            ..self
        }
    }

    /// State while the native registration of an event callback runs.
    pub open spec fn event_installing(self, name: Seq<u8>, callback: E) -> Self {
        match event_position(self.events, name) {
            Some(i) => self.with_event(i, self.events[i].record.installing(callback)),
            None => CameraView {
                events: self.events.push(
                    EventRecordView { name, record: RecordView::fresh().installing(callback) },
                ),
                ..self
            },
        }
    }

    /// State after the native registration of an event callback returned
    /// `code`. A record whose first registration failed is dropped where it is
    /// the last; elsewhere it stays, empty, so that no index moves.
    pub open spec fn event_settled(self, i: int, code: i32) -> Self {
        match settled(self.events[i].record, code) {
            Some(record) => self.with_event(i, record),
            None => if i == self.events.len() - 1 {
                CameraView { events: self.events.drop_last(), ..self }
            } else {
                self.with_event(i, self.events[i].record.silenced())
            },
        }
    }

    /// State after the native deregistration of an event callback returned
    /// `code`.
    pub open spec fn event_removed(self, i: int, code: i32) -> Self {
        self.with_event(i, self.events[i].record.removed(code))
    }

    /// State after an invocation of an event closure.
    pub open spec fn event_invoked(self, i: int, panicked: bool) -> Self {
        if panicked {
            self.with_event(i, self.events[i].record.silenced())
        } else {
            self
        }
    }

    /// The same registrations without their closures.
    pub open spec fn silenced(self) -> Self {
        CameraView {
            image: silenced_record(self.image),
            exception: silenced_record(self.exception),
            events: Seq::new(
                self.events.len(),
                |i: int|
                    EventRecordView {
                        name: self.events[i].name,
                        record: self.events[i].record.silenced(),
                    },
            ),
            ..self
        }
    }

    /// State while the native cleanup runs.
    pub open spec fn closing(self) -> Self {
        CameraView { handle: None, grabbing: false, ..self.silenced() }
    }

    /// State after the cleanup.
    pub open spec fn closed() -> Self {
        CameraView {
            handle: None,
            grabbing: false,
            image: None,
            exception: None,
            events: Seq::empty(),
        }
    }

    /// The native calls that clean the camera up, in order: stop, then the
    /// callbacks that are registered, then close and destroy.
    pub open spec fn cleanup_plan(self) -> Seq<NativeCall> {
        let handle = self.handle->0;
        let stop: Seq<NativeCall> = if self.grabbing {
            seq![NativeCall::StopGrabbing { handle }]
        } else {
            Seq::empty()
        };
        let image: Seq<NativeCall> = if is_registered(self.image) {
            seq![NativeCall::UnregisterImageCallback { handle, auto_free: true }]
        } else {
            Seq::empty()
        };
        let exception: Seq<NativeCall> = if is_registered(self.exception) {
            seq![NativeCall::UnregisterExceptionCallback { handle }]
        } else {
            Seq::empty()
        };
        stop + image + exception + event_calls(handle, self.events) + seq![
            NativeCall::CloseDevice { handle },
            NativeCall::DestroyHandle { handle },
        ]
    }
}

/// Why a second registration is refused.
pub open spec fn already_registered(registered: bool) -> Option<Seq<char>> {
    if registered {
        Some("callback is already registered"@)
    } else {
        None
    }
}

/// An optional registration without its closure.
pub open spec fn silenced_record<C>(record: Option<RecordView<C>>) -> Option<RecordView<C>> {
    match record {
        Some(record) => Some(record.silenced()),
        None => None,
    }
}

/// The calls that unregister every registered event callback, in order.
pub open spec fn event_calls<E>(handle: usize, events: Seq<EventRecordView<E>>) -> Seq<NativeCall>
    decreases events.len(),
{
    if events.len() == 0 {
        Seq::empty()
    } else {
        let before = event_calls(handle, events.drop_last());
        if events.last().record.registered {
            before.push(
                NativeCall::UnregisterEventCallback {
                    handle,
                    record: (events.len() - 1) as usize,
                },
            )
        } else {
            before
        }
    }
}

/// Number of events with a confirmed registration.
pub open spec fn registered_events<E>(events: Seq<EventRecordView<E>>) -> nat
    decreases events.len(),
{
    if events.len() == 0 {
        0
    } else {
        registered_events(events.drop_last()) + if events.last().record.registered {
            1nat
        } else {
            0nat
        }
    }
}

/// The calls that unregister event callbacks are just that.
proof fn lemma_event_calls_unregister<E>(handle: usize, events: Seq<EventRecordView<E>>)
    ensures
        event_calls(handle, events).len() <= events.len(),
        forall|i: int|
            0 <= i < event_calls(handle, events).len() ==> ((#[trigger] event_calls(
                handle,
                events,
            )[i]) matches NativeCall::UnregisterEventCallback { handle: h, record }
                && h == handle),
    decreases events.len(),
{
    if events.len() > 0 {
        lemma_event_calls_unregister(handle, events.drop_last());
    }
}

/// Whatever state a camera is in, its cleanup closes the device and then
/// destroys the handle, as the last two calls, and destroys it only there.
pub proof fn law_cleanup_plan_ends_with_destruction<I, X, E>(camera: CameraView<I, X, E>)
    ensures
        is_cleanup_plan(camera.cleanup_plan()),
        camera.cleanup_plan().len() >= 2,
        camera.cleanup_plan().last() == (NativeCall::DestroyHandle { handle: camera.handle->0 }),
        camera.cleanup_plan()[camera.cleanup_plan().len() - 2] == (NativeCall::CloseDevice {
            handle: camera.handle->0,
        }),
{
    lemma_event_calls_unregister(camera.handle->0, camera.events);
}

/// Rank of a cleanup call: stop, image, exception, events, close, destroy.
pub open spec fn cleanup_rank(call: NativeCall) -> int {
    match cleanup_step(call) {
        Some(CleanupStep::StopGrabbing) => 1,
        Some(CleanupStep::UnregisterImageCallback) => 2,
        Some(CleanupStep::UnregisterExceptionCallback) => 3,
        Some(CleanupStep::UnregisterEventCallback) => 4,
        Some(CleanupStep::CloseDevice) => 5,
        Some(CleanupStep::DestroyHandle) => 6,
        _ => 0,
    }
}

/// The records in the event calls are those with a registration, each once and
/// in order.
proof fn lemma_event_calls_are_exact<E>(handle: usize, events: Seq<EventRecordView<E>>)
    requires
        events.len() <= usize::MAX,
    ensures
        forall|i: int, j: int|
            0 <= i < j < event_calls(handle, events).len() ==> (#[trigger] event_calls(
                handle,
                events,
            )[i])->UnregisterEventCallback_record < (#[trigger] event_calls(
                handle,
                events,
            )[j])->UnregisterEventCallback_record,
        forall|i: int|
            0 <= i < event_calls(handle, events).len() ==> (#[trigger] event_calls(
                handle,
                events,
            )[i])->UnregisterEventCallback_record < events.len(),
        forall|k: int|
            0 <= k < events.len() ==> (event_calls(handle, events).contains(
                NativeCall::UnregisterEventCallback { handle, record: k as usize },
            ) <==> (#[trigger] events[k]).record.registered),
    decreases events.len(),
{
    if events.len() > 0 {
        let front = events.drop_last();
        let before = event_calls(handle, front);
        let calls = event_calls(handle, events);
        let own = NativeCall::UnregisterEventCallback {
            handle,
            record: (events.len() - 1) as usize,
        };
        lemma_event_calls_are_exact(handle, front);
        lemma_event_calls_unregister(handle, front);
        assert forall|k: int| 0 <= k < events.len() implies (calls.contains(
            NativeCall::UnregisterEventCallback { handle, record: k as usize },
        ) <==> (#[trigger] events[k]).record.registered) by {
            let call = NativeCall::UnregisterEventCallback { handle, record: k as usize };
            if k < events.len() - 1 {
                assert(front[k] == events[k]);
                if before.contains(call) {
                    let at = choose|at: int| 0 <= at < before.len() && before[at] == call;
                    assert(calls[at] == call);
                }
                if calls.contains(call) {
                    let at = choose|at: int| 0 <= at < calls.len() && calls[at] == call;
                    if at < before.len() {
                        assert(before[at] == call);
                    }
                }
            } else {
                if events[k].record.registered {
                    assert(calls[before.len() as int] == own);
                } else if calls.contains(call) {
                    let at = choose|at: int| 0 <= at < calls.len() && calls[at] == call;
                    assert(before[at]->UnregisterEventCallback_record < front.len());
                }
            }
        }
    }
}

/// A cleanup makes its calls on the camera's own handle, in the order stop,
/// image, exception, events, close, destroy, and no call twice.
pub proof fn law_cleanup_plan_is_ordered<I, X, E>(camera: CameraView<I, X, E>)
    requires
        camera.events.len() <= usize::MAX,
    ensures
        forall|i: int, j: int|
            0 <= i < j < camera.cleanup_plan().len() ==> cleanup_rank(
                #[trigger] camera.cleanup_plan()[i],
            ) <= cleanup_rank(#[trigger] camera.cleanup_plan()[j]),
        camera.cleanup_plan().no_duplicates(),
        forall|i: int|
            0 <= i < camera.cleanup_plan().len() ==> call_handle(
                #[trigger] camera.cleanup_plan()[i],
            ) == camera.handle->0,
{
    let handle = camera.handle->0;
    let plan = camera.cleanup_plan();
    let events = event_calls(handle, camera.events);
    lemma_event_calls_unregister(handle, camera.events);
    lemma_event_calls_are_exact(handle, camera.events);
    let head = plan.len() - 2 - events.len();
    assert forall|i: int| 0 <= i < events.len() implies #[trigger] plan[head + i]
        == events[i] by {}
    assert forall|i: int, j: int| 0 <= i < j < plan.len() implies cleanup_rank(
        #[trigger] plan[i],
    ) <= cleanup_rank(#[trigger] plan[j]) && plan[i] != plan[j] by {
        if head <= i < plan.len() - 2 {
            assert(plan[i] == events[i - head]);
        }
        if head <= j < plan.len() - 2 {
            assert(plan[j] == events[j - head]);
        }
    }
    assert forall|i: int| 0 <= i < plan.len() implies call_handle(#[trigger] plan[i]) == handle by {
        if head <= i < plan.len() - 2 {
            assert(plan[i] == events[i - head]);
        }
    }
}

/// The handle that a cleanup call works on.
pub open spec fn call_handle(call: NativeCall) -> usize {
    match call {
        NativeCall::StopGrabbing { handle } => handle,
        NativeCall::UnregisterImageCallback { handle, .. } => handle,
        NativeCall::UnregisterExceptionCallback { handle } => handle,
        NativeCall::UnregisterEventCallback { handle, .. } => handle,
        NativeCall::CloseDevice { handle } => handle,
        NativeCall::DestroyHandle { handle } => handle,
        _ => 0,
    }
}

/// A cleanup undoes exactly what is in force: it stops an acquisition that
/// runs, and unregisters the callbacks that are registered and no others.
pub proof fn law_cleanup_undoes_what_is_in_force<I, X, E>(camera: CameraView<I, X, E>)
    requires
        camera.events.len() <= usize::MAX,
    ensures
        camera.cleanup_plan().contains(NativeCall::StopGrabbing { handle: camera.handle->0 })
            <==> camera.grabbing,
        camera.cleanup_plan().contains(
            NativeCall::UnregisterImageCallback { handle: camera.handle->0, auto_free: true },
        ) <==> is_registered(camera.image),
        camera.cleanup_plan().contains(
            NativeCall::UnregisterExceptionCallback { handle: camera.handle->0 },
        ) <==> is_registered(camera.exception),
        forall|k: int|
            0 <= k < camera.events.len() ==> (camera.cleanup_plan().contains(
                NativeCall::UnregisterEventCallback {
                    handle: camera.handle->0,
                    record: k as usize,
                },
            ) <==> (#[trigger] camera.events[k]).record.registered),
{
    let handle = camera.handle->0;
    let plan = camera.cleanup_plan();
    let events = event_calls(handle, camera.events);
    lemma_event_calls_unregister(handle, camera.events);
    lemma_event_calls_are_exact(handle, camera.events);
    let head = plan.len() - 2 - events.len();
    let stops: int = if camera.grabbing {
        1
    } else {
        0
    };
    let images: int = if is_registered(camera.image) {
        1
    } else {
        0
    };
    assert forall|i: int| head <= i < plan.len() - 2 implies #[trigger] plan[i]
        == events[i - head] by {}
    if camera.grabbing {
        assert(plan[0] == (NativeCall::StopGrabbing { handle }));
    }
    if is_registered(camera.image) {
        assert(plan[stops] == (NativeCall::UnregisterImageCallback { handle, auto_free: true }));
    }
    if is_registered(camera.exception) {
        assert(plan[stops + images] == (NativeCall::UnregisterExceptionCallback { handle }));
    }
    assert forall|k: int| 0 <= k < camera.events.len() implies (plan.contains(
        NativeCall::UnregisterEventCallback { handle, record: k as usize },
    ) <==> (#[trigger] camera.events[k]).record.registered) by {
        let call = NativeCall::UnregisterEventCallback { handle, record: k as usize };
        if events.contains(call) {
            let at = choose|at: int| 0 <= at < events.len() && events[at] == call;
            assert(plan[head + at] == call);
        }
        if plan.contains(call) {
            let at = choose|at: int| 0 <= at < plan.len() && plan[at] == call;
            assert(head <= at < plan.len() - 2);
            assert(events[at - head] == call);
        }
    }
}

/// One change of a camera's state.
pub ghost enum CameraStep<I, X, E> {
    /// The native start returned a code.
    Started(i32),
    /// The native stop returned a code.
    Stopped(i32),
    /// An image callback is about to be registered.
    ImageInstalling(I),
    /// The registration of the image callback returned a code.
    ImageSettled(i32),
    /// The deregistration of the image callback returned a code.
    ImageRemoved(i32),
    /// An invocation of the image callback ended, perhaps in a panic.
    ImageInvoked(bool),
    /// An exception callback is about to be registered.
    ExceptionInstalling(X),
    /// The registration of the exception callback returned a code.
    ExceptionSettled(i32),
    /// The deregistration of the exception callback returned a code.
    ExceptionRemoved(i32),
    /// An invocation of the exception callback ended, perhaps in a panic.
    ExceptionInvoked(bool),
    /// An event callback is about to be registered.
    EventInstalling(Seq<u8>, E),
    /// The registration of an event callback returned a code.
    EventSettled(int, i32),
    /// The deregistration of an event callback returned a code.
    EventRemoved(int, i32),
    /// An invocation of an event callback ended, perhaps in a panic.
    EventInvoked(int, bool),
    /// A cleanup was refused inside a callback.
    Silenced,
    /// A cleanup began.
    Closing,
    /// A cleanup ended.
    Closed,
}

impl<I, X, E> CameraStep<I, X, E> {
    /// Whether a camera accepts the step.
    pub open spec fn possible(self, camera: CameraView<I, X, E>) -> bool {
        match self {
            CameraStep::Started(_) => camera.stopped_refusal() is None,
            CameraStep::Stopped(_) => camera.stop_refusal() is None,
            CameraStep::ImageInstalling(_) => camera.image_refusal() is None,
            CameraStep::ImageSettled(_) => {
                &&& camera.image is Some
                &&& !is_registered(camera.image)
                &&& !camera.grabbing
            },
            CameraStep::ImageRemoved(_) => is_registered(camera.image) && !camera.grabbing,
            CameraStep::ImageInvoked(_) => true,
            CameraStep::ExceptionInstalling(_) => camera.exception_refusal() is None,
            CameraStep::ExceptionSettled(_) => camera.exception is Some && !is_registered(
                camera.exception,
            ),
            CameraStep::ExceptionRemoved(_) => is_registered(camera.exception),
            CameraStep::ExceptionInvoked(_) => true,
            CameraStep::EventInstalling(name, _) => {
                &&& camera.handle_refusal() is None
                &&& nul_free(name)
                &&& !camera.event_is_registered(name)
            },
            CameraStep::EventSettled(i, _) => {
                &&& 0 <= i < camera.events.len()
                &&& !camera.events[i].record.registered
            },
            CameraStep::EventRemoved(i, _) => {
                &&& 0 <= i < camera.events.len()
                &&& camera.events[i].record.registered
            },
            CameraStep::EventInvoked(i, _) => 0 <= i < camera.events.len(),
            CameraStep::Silenced => camera.handle is Some,
            CameraStep::Closing => camera.handle is Some,
            CameraStep::Closed => camera.handle is None,
        }
    }

    /// The camera after the step.
    pub open spec fn apply(self, camera: CameraView<I, X, E>) -> CameraView<I, X, E> {
        match self {
            CameraStep::Started(code) => camera.started(code),
            CameraStep::Stopped(code) => camera.stopped(code),
            CameraStep::ImageInstalling(callback) => camera.image_installing(callback),
            CameraStep::ImageSettled(code) => camera.image_settled(code),
            CameraStep::ImageRemoved(code) => camera.image_removed(code),
            CameraStep::ImageInvoked(panicked) => camera.image_invoked(panicked),
            CameraStep::ExceptionInstalling(callback) => camera.exception_installing(callback),
            CameraStep::ExceptionSettled(code) => camera.exception_settled(code),
            CameraStep::ExceptionRemoved(code) => camera.exception_removed(code),
            CameraStep::ExceptionInvoked(panicked) => camera.exception_invoked(panicked),
            CameraStep::EventInstalling(name, callback) => camera.event_installing(name, callback),
            CameraStep::EventSettled(i, code) => camera.event_settled(i, code),
            CameraStep::EventRemoved(i, code) => camera.event_removed(i, code),
            CameraStep::EventInvoked(i, panicked) => camera.event_invoked(i, panicked),
            CameraStep::Silenced => camera.silenced(),
            CameraStep::Closing => camera.closing(),
            CameraStep::Closed => CameraView::closed(),
        }
    }
}

/// The camera after a run of steps on a newly opened one.
pub open spec fn camera_after<I, X, E>(handle: usize, steps: Seq<CameraStep<I, X, E>>) -> CameraView<
    I,
    X,
    E,
>
    decreases steps.len(),
{
    if steps.len() == 0 {
        CameraView::opened(handle)
    } else {
        steps.last().apply(camera_after(handle, steps.drop_last()))
    }
}

/// Whether a camera accepts every step of a run.
pub open spec fn is_run<I, X, E>(handle: usize, steps: Seq<CameraStep<I, X, E>>) -> bool
    decreases steps.len(),
{
    steps.len() > 0 ==> is_run(handle, steps.drop_last()) && steps.last().possible(
        camera_after(handle, steps.drop_last()),
    )
}

/// An event's index is that of a record with its name, and an event without
/// index has no record.
pub proof fn lemma_event_position<E>(events: Seq<EventRecordView<E>>, name: Seq<u8>)
    ensures
        match event_position(events, name) {
            Some(i) => 0 <= i < events.len() && events[i].name == name,
            None => forall|j: int|
                0 <= j < events.len() ==> (#[trigger] events[j]).name != name,
        },
{
    let names = Seq::new(events.len(), |i: int| events[i].name);
    names.index_of_first_ensures(name);
    if event_position(events, name) is None {
        assert forall|j: int| 0 <= j < events.len() implies (#[trigger] events[j]).name != name by {
            assert(names[j] == events[j].name);
        }
    }
}

/// Every step keeps a camera's state one that can occur.
pub proof fn law_steps_keep_cameras_well_formed<I, X, E>(
    camera: CameraView<I, X, E>,
    step: CameraStep<I, X, E>,
)
    requires
        camera.wf(),
        step.possible(camera),
    ensures
        step.apply(camera).wf(),
{
    match step {
        CameraStep::EventInstalling(name, callback) => {
            lemma_event_position(camera.events, name);
        },
        _ => {},
    }
}

/// Whatever is done to a camera after it was opened, in whatever order, its
/// state is one that can occur.
pub proof fn law_reachable_cameras_are_well_formed<I, X, E>(
    handle: usize,
    steps: Seq<CameraStep<I, X, E>>,
)
    requires
        handle != 0,
        is_run(handle, steps),
    ensures
        camera_after(handle, steps).wf(),
    decreases steps.len(),
{
    if steps.len() > 0 {
        law_reachable_cameras_are_well_formed(handle, steps.drop_last());
        law_steps_keep_cameras_well_formed(camera_after(handle, steps.drop_last()), steps.last());
    }
}

/// Callback and polling acquisition exclude each other. The mode is chosen
/// before the start: while a camera acquires, its image callback can be neither
/// registered nor unregistered, no step changes whether it is registered, and
/// polling is open exactly where it is not.
pub proof fn law_acquisition_mode_is_fixed_while_grabbing<I, X, E>(
    camera: CameraView<I, X, E>,
    step: CameraStep<I, X, E>,
)
    requires
        camera.wf(),
        camera.grabbing,
        step.possible(camera),
    ensures
        camera.image_refusal() is Some,
        camera.stopped_refusal() is Some,
        camera.polling_refusal() is None <==> !is_registered(camera.image),
        step.apply(camera).grabbing ==> is_registered(step.apply(camera).image) == is_registered(
            camera.image,
        ),
{
}

/// A camera that does not acquire cannot be polled, and one that acquires
/// cannot be started again; one that does not cannot be stopped.
pub proof fn law_start_and_stop_alternate<I, X, E>(camera: CameraView<I, X, E>)
    requires
        camera.wf(),
    ensures
        !camera.grabbing ==> camera.polling_refusal() is Some && camera.stop_refusal() is Some,
        camera.grabbing ==> camera.stopped_refusal() is Some && camera.stop_refusal() is None,
        camera.handle is Some && !camera.grabbing ==> camera.stopped_refusal() is None,
        camera.handle is Some ==> camera.started(0).stopped(0).grabbing == false,
{
}

/// A failed native call leaves the state as it was before the operation,
/// whatever else is in force. A failed first registration leaves no record; a
/// failed later one leaves its record, without a closure.
pub proof fn law_failed_calls_change_nothing<I, X, E>(
    camera: CameraView<I, X, E>,
    image: I,
    exception: X,
    code: i32,
)
    requires
        code != 0,
    ensures
        camera.started(code) == camera,
        camera.stopped(code) == camera,
        (camera.image matches Some(record) ==> record.committed && !record.registered)
            ==> camera.image_installing(image).image_settled(code) == (CameraView {
            image: silenced_record(camera.image),
            ..camera
        }),
        (camera.exception matches Some(record) ==> record.committed && !record.registered)
            ==> camera.exception_installing(exception).exception_settled(code) == (CameraView {
            exception: silenced_record(camera.exception),
            ..camera
        }),
{
}

/// A failed registration of an event callback leaves the camera as it was where
/// the event had no record; where it had one, the record stays, without a
/// closure.
pub proof fn law_failed_event_registration_rolls_back<I, X, E>(
    camera: CameraView<I, X, E>,
    name: Seq<u8>,
    callback: E,
    code: i32,
)
    requires
        camera.wf(),
        code != 0,
        event_position(camera.events, name) matches Some(i) ==> camera.events[i].record.committed
            && !camera.events[i].record.registered,
    ensures
        camera.event_installing(name, callback).event_settled(camera.event_slot(name), code) == (
        match event_position(camera.events, name) {
            Some(i) => camera.with_event(i, camera.events[i].record.silenced()),
            None => camera,
        }),
{
    lemma_event_position(camera.events, name);
    let slot = camera.event_slot(name);
    let after = camera.event_installing(name, callback).event_settled(slot, code);
    match event_position(camera.events, name) {
        Some(i) => {
            assert(after.events =~= camera.with_event(
                i,
                camera.events[i].record.silenced(),
            ).events);
        },
        None => {
            assert(after.events =~= camera.events);
        },
    }
}

/// A failed deregistration leaves a registration as it was, closure and all,
/// and the rest of the camera with it.
pub proof fn law_failed_removals_change_nothing<I, X, E>(
    camera: CameraView<I, X, E>,
    code: i32,
)
    requires
        code != 0,
    ensures
        is_registered(camera.image) ==> camera.image_removed(code) == camera,
        is_registered(camera.exception) ==> camera.exception_removed(code) == camera,
        forall|i: int|
            0 <= i < camera.events.len() ==> #[trigger] camera.event_removed(i, code) == camera,
{
    assert forall|i: int| 0 <= i < camera.events.len() implies #[trigger] camera.event_removed(
        i,
        code,
    ) == camera by {
        assert(camera.event_removed(i, code).events =~= camera.events);
    }
}

/// Registering an event callback touches only that event: the other
/// registrations, settled or not, keep their index, their name and their
/// closure, whether the native call succeeds or not.
pub proof fn law_event_slots_are_stable<I, X, E>(
    camera: CameraView<I, X, E>,
    name: Seq<u8>,
    callback: E,
    code: i32,
    other: int,
)
    requires
        camera.wf(),
        0 <= other < camera.events.len(),
        other != camera.event_slot(name),
    ensures
        other < camera.event_installing(name, callback).event_settled(
            camera.event_slot(name),
            code,
        ).events.len(),
        camera.event_installing(name, callback).event_settled(
            camera.event_slot(name),
            code,
        ).events[other] == camera.events[other],
{
    lemma_event_position(camera.events, name);
}

/// Whatever is done to a camera short of closing it, an event keeps its index.
/// It loses it only with its record, when its own first registration fails.
pub proof fn law_steps_keep_event_indices<I, X, E>(
    camera: CameraView<I, X, E>,
    step: CameraStep<I, X, E>,
    name: Seq<u8>,
)
    requires
        camera.wf(),
        step.possible(camera),
        !(step is Closed),
        event_position(camera.events, name) is Some,
    ensures
        ({
            let slot = camera.event_slot(name);
            let after = step.apply(camera);
            ||| event_position(after.events, name) == Some(slot)
            ||| {
                &&& event_position(after.events, name) is None
                &&& step matches CameraStep::EventSettled(i, code) && i == slot && code != 0
                &&& !camera.events[slot].record.committed
            }
        }),
{
    law_steps_keep_cameras_well_formed(camera, step);
    let after = step.apply(camera);
    let slot = camera.event_slot(name);
    lemma_event_position(camera.events, name);
    lemma_event_position(after.events, name);
    match step {
        CameraStep::EventInstalling(other, callback) => {
            lemma_event_position(camera.events, other);
            assert(after.events[slot].name == name);
        },
        CameraStep::EventSettled(i, code) => {
            if after.events.len() == camera.events.len() || i != slot {
                assert(after.events[slot].name == name);
            } else if event_position(after.events, name) is Some {
                let at = event_position(after.events, name)->0;
                assert(camera.events[at].name == name);
            }
        },
        _ => {
            assert(after.events[slot].name == name);
        },
    }
}

/// While an event stays registered, its index stays the same, however many
/// other registrations begin, are settled or end meanwhile and in whatever
/// order: the index that a driver was given goes on leading to it.
pub proof fn law_registered_events_keep_their_index<I, X, E>(
    handle: usize,
    steps: Seq<CameraStep<I, X, E>>,
    since: int,
    name: Seq<u8>,
)
    requires
        handle != 0,
        is_run(handle, steps),
        0 <= since <= steps.len(),
        forall|m: int|
            since <= m <= steps.len() ==> camera_after(
                handle,
                #[trigger] steps.take(m),
            ).event_is_registered(name),
    ensures
        camera_after(handle, steps).event_slot(name) == camera_after(
            handle,
            steps.take(since),
        ).event_slot(name),
    decreases steps.len(),
{
    assert(steps.take(steps.len() as int) =~= steps);
    if since < steps.len() {
        let front = steps.drop_last();
        assert(steps.take(steps.len() - 1) =~= front);
        assert(front.take(since) =~= steps.take(since));
        assert forall|m: int| since <= m <= front.len() implies camera_after(
            handle,
            #[trigger] front.take(m),
        ).event_is_registered(name) by {
            assert(front.take(m) =~= steps.take(m));
        }
        law_registered_events_keep_their_index(handle, front, since, name);
        law_reachable_cameras_are_well_formed(handle, front);
        let camera = camera_after(handle, front);
        let step = steps.last();
        assert(camera.event_is_registered(name)) by {
            assert(steps.take(steps.len() - 1) =~= front);
        }
        lemma_event_position(camera.events, name);
        if step is Closed {
            lemma_event_position(camera_after(handle, steps).events, name);
        } else {
            law_steps_keep_event_indices(camera, step, name);
        }
    }
}

/// An event callback that was registered is found under its name, and no other
/// event is; once its registration has ended it can be registered again.
pub proof fn law_event_registration_cycle<I, X, E>(
    camera: CameraView<I, X, E>,
    name: Seq<u8>,
    callback: E,
)
    requires
        camera.wf(),
        camera.handle is Some,
        nul_free(name),
        !camera.event_is_registered(name),
    ensures
        ({
            let slot = camera.event_slot(name);
            let registered = camera.event_installing(name, callback).event_settled(slot, 0);
            let removed = registered.event_removed(slot, 0);
            &&& registered.event_is_registered(name)
            &&& registered.event_slot(name) == slot
            &&& registered.events[slot].record.callback == Some(callback)
            &&& !removed.event_is_registered(name)
            &&& removed.event_slot(name) == slot
            &&& removed.events[slot].record.callback is None
        }),
{
    let slot = camera.event_slot(name);
    let installing = camera.event_installing(name, callback);
    let registered = installing.event_settled(slot, 0);
    let removed = registered.event_removed(slot, 0);
    law_steps_keep_cameras_well_formed(camera, CameraStep::EventInstalling(name, callback));
    lemma_event_position(camera.events, name);
    assert(0 <= slot < installing.events.len());
    law_steps_keep_cameras_well_formed(installing, CameraStep::EventSettled(slot, 0));
    law_steps_keep_cameras_well_formed(registered, CameraStep::EventRemoved(slot, 0));
    lemma_event_position(registered.events, name);
    lemma_event_position(removed.events, name);
    assert(registered.events[slot].name == name);
    assert(removed.events[slot].name == name);
}

/// Inside an SDK callback every lifecycle operation is refused for that reason,
/// whatever else there is to say against it; outside, only the camera's own
/// state decides.
pub proof fn law_callback_context_is_refused_first(state_refusal: Option<Seq<char>>)
    ensures
        first_reason(context_refusal(true), state_refusal) == context_refusal(true),
        context_refusal(true) is Some,
        first_reason(context_refusal(false), state_refusal) == state_refusal,
{
}

/// Once a cleanup has begun no closure is left to invoke, the handle is gone for
/// good, and every operation on it is refused.
pub proof fn law_cleanup_is_final<I, X, E>(
    camera: CameraView<I, X, E>,
    step: CameraStep<I, X, E>,
)
    requires
        camera.wf(),
    ensures
        camera.closing().image matches Some(record) ==> record.callback is None,
        camera.closing().exception matches Some(record) ==> record.callback is None,
        forall|i: int|
            0 <= i < camera.closing().events.len() ==> (
            #[trigger] camera.closing().events[i]).record.callback is None,
        camera.closing().handle_refusal() is Some,
        camera.closing().stopped_refusal() is Some,
        camera.closing().polling_refusal() is Some,
        camera.handle is None && step.possible(camera) ==> step.apply(camera).handle is None,
        camera.handle is Some && step.possible(camera) && !(step is Closing) ==> step.apply(
            camera,
        ).handle == camera.handle,
{
}

/// A confirmed registration ends only with a confirmed deregistration, or with
/// the camera.
pub proof fn law_registrations_last<I, X, E>(
    camera: CameraView<I, X, E>,
    step: CameraStep<I, X, E>,
)
    requires
        camera.wf(),
        step.possible(camera),
        !(step is Closed),
    ensures
        is_registered(camera.image) && step != CameraStep::<I, X, E>::ImageRemoved(0)
            ==> is_registered(step.apply(camera).image),
        is_registered(camera.exception) && step != CameraStep::<I, X, E>::ExceptionRemoved(0)
            ==> is_registered(step.apply(camera).exception),
        forall|name: Seq<u8>| #[trigger]
            camera.event_is_registered(name) && step != CameraStep::<I, X, E>::EventRemoved(
                camera.event_slot(name),
                0,
            ) ==> step.apply(camera).event_is_registered(name),
{
    law_steps_keep_cameras_well_formed(camera, step);
    let after = step.apply(camera);
    assert forall|name: Seq<u8>| #[trigger]
        camera.event_is_registered(name) && step != CameraStep::<I, X, E>::EventRemoved(
            camera.event_slot(name),
            0,
        ) implies after.event_is_registered(name) by {
        lemma_event_position(camera.events, name);
        lemma_event_position(after.events, name);
        let slot = camera.event_slot(name);
        match step {
            CameraStep::EventInstalling(other, callback) => {
                lemma_event_position(camera.events, other);
                assert(after.events[slot].name == name);
                assert(after.events[slot].record.registered);
            },
            CameraStep::EventSettled(i, code) => {
                assert(i != slot);
                assert(after.events[slot].name == name);
                assert(after.events[slot].record.registered);
            },
            _ => {
                assert(after.events[slot].name == name);
                assert(after.events[slot].record.registered);
            },
        }
    }
}

/// Exactly the sentinel for an endless wait is refused as a finite timeout.
pub proof fn law_only_the_sentinel_is_refused(timeout_ms: u32)
    ensures
        timeout_refusal(timeout_ms) is Some <==> timeout_ms == u32::MAX,
{
}

/// When operations are open. Whatever the other callbacks are, an image
/// callback can be registered exactly when the camera has a handle, is stopped
/// and has no confirmed image registration; an exception callback exactly when
/// it has a handle and no confirmed exception registration. A camera can be
/// started when it has a handle and is stopped, stopped when it acquires, and
/// polled when it acquires without an image registration.
pub proof fn law_operations_are_open_when<I, X, E>(camera: CameraView<I, X, E>)
    ensures
        camera.handle_refusal() is None <==> camera.handle is Some,
        camera.stopped_refusal() is None <==> camera.handle is Some && !camera.grabbing,
        camera.stop_refusal() is None <==> camera.handle is Some && camera.grabbing,
        camera.polling_refusal() is None <==> camera.handle is Some && camera.grabbing && !(
        camera.image matches Some(record) && record.registered),
        camera.image_refusal() is None <==> camera.handle is Some && !camera.grabbing && !(
        camera.image matches Some(record) && record.registered),
        camera.exception_refusal() is None <==> camera.handle is Some && !(
        camera.exception matches Some(record) && record.registered),
{
}

/// No callback stands in the way of another: whether an image callback is
/// accepted does not depend on exception or event callbacks, nor the reverse.
pub proof fn law_callbacks_do_not_hinder_each_other<I, X, E>(
    camera: CameraView<I, X, E>,
    image: Option<RecordView<I>>,
    exception: Option<RecordView<X>>,
    events: Seq<EventRecordView<E>>,
)
    ensures
        (CameraView { exception, events, ..camera }).image_refusal() == camera.image_refusal(),
        (CameraView { image, events, ..camera }).exception_refusal()
            == camera.exception_refusal(),
        (CameraView { image, exception, events, ..camera }).stopped_refusal()
            == camera.stopped_refusal(),
        (CameraView { image, exception, events, ..camera }).stop_refusal()
            == camera.stop_refusal(),
        (CameraView { exception, events, ..camera }).polling_refusal() == camera.polling_refusal(),
        (CameraView { image, exception, ..camera }).handle_refusal() == camera.handle_refusal(),
{
}

/// What is said when an operation is refused: an acquiring camera must be
/// stopped first, then a camera without handle has none to use, and then a
/// callback is registered already.
pub proof fn law_refusals_name_their_reason<I, X, E>(camera: CameraView<I, X, E>)
    ensures
        camera.handle is None ==> camera.handle_refusal() == Some("camera handle is unavailable"@),
        camera.grabbing ==> camera.stopped_refusal() == Some("camera must be stopped"@),
        !camera.grabbing ==> camera.stopped_refusal() == camera.handle_refusal(),
        !camera.grabbing ==> camera.stop_refusal() == Some("camera is not grabbing"@),
        camera.grabbing ==> camera.stop_refusal() == camera.handle_refusal(),
        !camera.grabbing || is_registered(camera.image) ==> camera.polling_refusal() == Some(
            "polling requires active grabbing without an image callback"@,
        ),
        camera.grabbing && !is_registered(camera.image) ==> camera.polling_refusal()
            == camera.handle_refusal(),
        camera.stopped_refusal() is Some ==> camera.image_refusal() == camera.stopped_refusal(),
        camera.stopped_refusal() is None && is_registered(camera.image) ==> camera.image_refusal()
            == Some("callback is already registered"@),
        camera.handle is None ==> camera.exception_refusal() == camera.handle_refusal(),
        camera.handle is Some && is_registered(camera.exception) ==> camera.exception_refusal()
            == Some("callback is already registered"@),
        already_registered(true) == Some("callback is already registered"@),
        already_registered(false) is None,
        context_refusal(true) == Some(
            "camera lifecycle operations cannot run from an MVS callback"@,
        ),
        context_refusal(false) is None,
        timeout_refusal(u32::MAX) == Some(
            "u32::MAX selects infinite wait; call the blocking method instead"@,
        ),
{
}

/// Of two reasons the first is given, and the second only where there is no
/// first.
pub proof fn law_the_first_reason_is_given(reason: Seq<char>, second: Option<Seq<char>>)
    ensures
        first_reason(Some(reason), second) == Some(reason),
        first_reason(None, second) == second,
{
}

/// A decision is the refusal with its reason, or the very value that was
/// decided on.
pub proof fn law_decisions_are_refusal_or_value<T>(
    r: MvsResult<T>,
    reason: Seq<char>,
    value: T,
)
    ensures
        decided(r, None, value) <==> (r matches Ok(given) && given == value),
        decided(r, Some(reason), value) <==> (r matches Err(MvsError::InvalidState(text)) && text@
            == reason),
{
}

/// A node request is refused with the reason there is; then for a NUL in its
/// key, then for one in its text; and otherwise it carries handle, key,
/// operation and text as they were given.
pub proof fn law_node_requests_carry_what_was_given(
    r: MvsResult<NodeRequest>,
    reason: Seq<char>,
    handle: usize,
    key: Seq<u8>,
    op: NodeOp,
    text: Seq<u8>,
)
    ensures
        node_decided(r, Some(reason), Some(handle), key, op, text) <==> (r matches Err(
            MvsError::InvalidState(given),
        ) && given@ == reason),
        nul_free(key) && nul_free(text) ==> (node_decided(r, None, Some(handle), key, op, text)
            <==> (r matches Ok(request) && request.handle == handle && request.key@ == key
            && request.op == op && request.text@ == text)),
        !nul_free(key) ==> (node_decided(r, None, Some(handle), key, op, text) <==> (r matches Err(
            MvsError::Nul(error),
        ) && error.reports(key))),
        nul_free(key) && !nul_free(text) ==> (node_decided(r, None, Some(handle), key, op, text)
            <==> (r matches Err(MvsError::Nul(error)) && error.reports(text))),
{
}

/// A confirmed start or stop changes whether the camera acquires, and nothing
/// else.
pub proof fn law_start_and_stop_touch_nothing_else<I, X, E>(camera: CameraView<I, X, E>)
    ensures
        camera.started(0).grabbing,
        !camera.stopped(0).grabbing,
        camera.started(0).handle == camera.handle,
        camera.started(0).image == camera.image,
        camera.started(0).exception == camera.exception,
        camera.started(0).events == camera.events,
        camera.stopped(0).handle == camera.handle,
        camera.stopped(0).image == camera.image,
        camera.stopped(0).exception == camera.exception,
        camera.stopped(0).events == camera.events,
{
}

/// A camera that was just opened has its handle, is stopped, and has no
/// callbacks; a closed one has nothing.
pub proof fn law_cameras_begin_and_end_bare<I, X, E>(handle: usize)
    ensures
        CameraView::<I, X, E>::opened(handle).handle == Some(handle),
        !CameraView::<I, X, E>::opened(handle).grabbing,
        CameraView::<I, X, E>::opened(handle).image is None,
        CameraView::<I, X, E>::opened(handle).exception is None,
        CameraView::<I, X, E>::opened(handle).events.len() == 0,
        CameraView::<I, X, E>::closed().handle is None,
        !CameraView::<I, X, E>::closed().grabbing,
        CameraView::<I, X, E>::closed().image is None,
        CameraView::<I, X, E>::closed().exception is None,
        CameraView::<I, X, E>::closed().events.len() == 0,
{
}

/// Registering and unregistering the image callback touches its registration
/// alone: the closure is there while the native call runs and after a success,
/// and the handle, the acquisition and the other registrations stay.
pub proof fn law_image_registration_touches_nothing_else<I, X, E>(
    camera: CameraView<I, X, E>,
    callback: I,
    code: i32,
)
    requires
        camera.wf(),
    ensures
        camera.image_installing(callback).image matches Some(record) && record.callback == Some(
            callback,
        ) && record.registered == is_registered(camera.image),
        !is_registered(camera.image) ==> (camera.image_installing(callback).image_settled(
            0,
        ).image matches Some(record) && record.callback == Some(callback) && record.registered),
        is_registered(camera.image) ==> (camera.image_removed(0).image matches Some(record)
            && record.callback is None && !record.registered),
        forall|after: CameraView<I, X, E>|
            after == camera.image_installing(callback) || after == camera.image_settled(code)
                || after == camera.image_removed(code) ==> {
                &&& #[trigger] after.handle == camera.handle
                &&& after.grabbing == camera.grabbing
                &&& after.exception == camera.exception
                &&& after.events == camera.events
            },
{
}

/// Registering and unregistering the exception callback touches its registration
/// alone: the closure is there while the native call runs and after a success,
/// and the handle, the acquisition and the other registrations stay.
pub proof fn law_exception_registration_touches_nothing_else<I, X, E>(
    camera: CameraView<I, X, E>,
    callback: X,
    code: i32,
)
    requires
        camera.wf(),
    ensures
        camera.exception_installing(callback).exception matches Some(record) && record.callback == Some(
            callback,
        ) && record.registered == is_registered(camera.exception),
        !is_registered(camera.exception) ==> (camera.exception_installing(callback).exception_settled(
            0,
        ).exception matches Some(record) && record.callback == Some(callback) && record.registered),
        is_registered(camera.exception) ==> (camera.exception_removed(0).exception matches Some(record)
            && record.callback is None && !record.registered),
        forall|after: CameraView<I, X, E>|
            after == camera.exception_installing(callback) || after == camera.exception_settled(code)
                || after == camera.exception_removed(code) ==> {
                &&& #[trigger] after.handle == camera.handle
                &&& after.grabbing == camera.grabbing
                &&& after.image == camera.image
                &&& after.events == camera.events
            },
{
}

/// An invocation that returns leaves the camera as it was, so the closure gets
/// every later call too. One that panics takes out its own closure and nothing
/// else.
pub proof fn law_only_a_panic_takes_a_closure_out<I, X, E>(camera: CameraView<I, X, E>, i: int)
    requires
        0 <= i < camera.events.len(),
    ensures
        camera.image_invoked(false) == camera,
        camera.exception_invoked(false) == camera,
        camera.event_invoked(i, false) == camera,
        camera.image is Some ==> (camera.image_invoked(true).image matches Some(record)
            && record.callback is None && record.registered == (camera.image->0).registered
            && record.committed == (camera.image->0).committed),
        camera.image is None ==> camera.image_invoked(true).image is None,
        camera.exception is Some ==> (camera.exception_invoked(true).exception matches Some(record)
            && record.callback is None && record.registered == (camera.exception->0).registered
            && record.committed == (camera.exception->0).committed),
        camera.exception is None ==> camera.exception_invoked(true).exception is None,
        (CameraView { image: camera.image, ..camera.image_invoked(true) }) == camera,
        (CameraView { exception: camera.exception, ..camera.exception_invoked(true) }) == camera,
        camera.event_invoked(i, true).events.len() == camera.events.len(),
        camera.event_invoked(i, true).events[i].name == camera.events[i].name,
        camera.event_invoked(i, true).events[i].record.callback is None,
        camera.event_invoked(i, true).events[i].record.registered
            == camera.events[i].record.registered,
        camera.event_invoked(i, true).events[i].record.committed
            == camera.events[i].record.committed,
        forall|j: int|
            0 <= j < camera.events.len() && j != i ==> #[trigger] camera.event_invoked(
                i,
                true,
            ).events[j] == camera.events[j],
        (CameraView { events: camera.events, ..camera.event_invoked(i, true) }) == camera,
{
}

/// However often a closure returns, it stays installed: after any run of
/// invocations that all return, the camera is what it was.
pub proof fn law_closures_outlast_their_invocations<I, X, E>(
    handle: usize,
    steps: Seq<CameraStep<I, X, E>>,
    since: int,
)
    requires
        is_run(handle, steps),
        0 <= since <= steps.len(),
        forall|m: int|
            since <= m < steps.len() ==> {
                ||| #[trigger] steps[m] == CameraStep::<I, X, E>::ImageInvoked(false)
                ||| steps[m] == CameraStep::<I, X, E>::ExceptionInvoked(false)
                ||| steps[m] matches CameraStep::EventInvoked(i, panicked) && !panicked
            },
    ensures
        camera_after(handle, steps) == camera_after(handle, steps.take(since)),
    decreases steps.len(),
{
    if since < steps.len() {
        let front = steps.drop_last();
        assert(front.take(since) =~= steps.take(since));
        assert forall|m: int| since <= m < front.len() implies {
            ||| #[trigger] front[m] == CameraStep::<I, X, E>::ImageInvoked(false)
            ||| front[m] == CameraStep::<I, X, E>::ExceptionInvoked(false)
            ||| front[m] matches CameraStep::EventInvoked(i, panicked) && !panicked
        } by {
            assert(front[m] == steps[m]);
        }
        law_closures_outlast_their_invocations(handle, front, since);
        assert(steps.last() == steps[steps.len() - 1]);
    } else {
        assert(steps.take(since) =~= steps);
    }
}

/// An event's index is that of the first record with its name. With distinct
/// names an event is registered exactly when a registered record has its name.
pub proof fn law_events_are_found_by_name<I, X, E>(camera: CameraView<I, X, E>, name: Seq<u8>)
    requires
        camera.wf(),
    ensures
        event_position(camera.events, name) is Some <==> exists|i: int|
            0 <= i < camera.events.len() && (#[trigger] camera.events[i]).name == name,
        forall|i: int|
            0 <= i < camera.events.len() && (#[trigger] camera.events[i]).name == name ==> {
                &&& event_position(camera.events, name) == Some(i)
                &&& camera.event_slot(name) == i
                &&& camera.event_is_registered(name) == camera.events[i].record.registered
            },
        (forall|i: int| 0 <= i < camera.events.len() ==> (#[trigger] camera.events[i]).name != name)
            ==> camera.event_slot(name) == camera.events.len() && !camera.event_is_registered(name),
{
    lemma_event_position(camera.events, name);
}

/// Registering an event callback installs the closure under the event's name,
/// at the event's index, and touches neither the other events nor anything
/// else; settling and removing it do the same to one record.
pub proof fn law_event_registration_touches_nothing_else<I, X, E>(
    camera: CameraView<I, X, E>,
    name: Seq<u8>,
    callback: E,
    i: int,
    code: i32,
)
    requires
        camera.wf(),
        0 <= i < camera.events.len(),
    ensures
        ({
            let slot = camera.event_slot(name);
            let after = camera.event_installing(name, callback);
            &&& 0 <= slot < after.events.len()
            &&& after.events[slot].name == name
            &&& after.events[slot].record.callback == Some(callback)
            &&& after.events[slot].record.registered == camera.event_is_registered(name)
            &&& forall|j: int|
                0 <= j < camera.events.len() && j != slot ==> #[trigger] after.events[j]
                    == camera.events[j]
            &&& after.events.len() <= camera.events.len() + 1
            &&& (CameraView { events: camera.events, ..after }) == camera
        }),
        ({
            let after = camera.event_settled(i, 0);
            &&& after.events.len() == camera.events.len()
            &&& after.events[i].name == camera.events[i].name
            &&& after.events[i].record.registered
            &&& after.events[i].record.committed
            &&& after.events[i].record.callback == camera.events[i].record.callback
            &&& forall|j: int|
                0 <= j < camera.events.len() && j != i ==> #[trigger] after.events[j]
                    == camera.events[j]
            &&& (CameraView { events: camera.events, ..after }) == camera
        }),
        code != 0 ==> ({
            let after = camera.event_settled(i, code);
            &&& after.events.len() == camera.events.len() || after.events.len()
                == camera.events.len() - 1
            &&& after.events.len() < camera.events.len() <==> i == camera.events.len() - 1
                && !camera.events[i].record.committed
            &&& i < after.events.len() ==> {
                &&& after.events[i].name == camera.events[i].name
                &&& after.events[i].record.callback is None
                &&& after.events[i].record.registered == camera.events[i].record.registered
                &&& after.events[i].record.committed == camera.events[i].record.committed
            }
            &&& forall|j: int|
                0 <= j < after.events.len() && j != i ==> #[trigger] after.events[j]
                    == camera.events[j]
            &&& (CameraView { events: camera.events, ..after }) == camera
        }),
        ({
            let after = camera.event_removed(i, 0);
            &&& after.events.len() == camera.events.len()
            &&& after.events[i].name == camera.events[i].name
            &&& !after.events[i].record.registered
            &&& after.events[i].record.callback is None
            &&& after.events[i].record.committed == camera.events[i].record.committed
            &&& forall|j: int|
                0 <= j < camera.events.len() && j != i ==> #[trigger] after.events[j]
                    == camera.events[j]
            &&& (CameraView { events: camera.events, ..after }) == camera
        }),
{
    lemma_event_position(camera.events, name);
}

/// Silencing takes every closure out and keeps every registration; a cleanup
/// that begins does so, takes the handle and ends the acquisition.
pub proof fn law_silencing_keeps_the_registrations<I, X, E>(camera: CameraView<I, X, E>)
    ensures
        camera.silenced().handle == camera.handle,
        camera.silenced().grabbing == camera.grabbing,
        is_registered(camera.silenced().image) == is_registered(camera.image),
        is_registered(camera.silenced().exception) == is_registered(camera.exception),
        camera.silenced().image matches Some(record) ==> record.callback is None,
        camera.silenced().exception matches Some(record) ==> record.callback is None,
        camera.silenced().events.len() == camera.events.len(),
        forall|i: int|
            0 <= i < camera.events.len() ==> {
                &&& (#[trigger] camera.silenced().events[i]).record.callback is None
                &&& camera.silenced().events[i].name == camera.events[i].name
                &&& camera.silenced().events[i].record.registered
                    == camera.events[i].record.registered
            },
        camera.closing().handle is None,
        !camera.closing().grabbing,
        camera.closing().image == camera.silenced().image,
        camera.closing().exception == camera.silenced().exception,
        camera.closing().events == camera.silenced().events,
{
}

/// A cleanup makes as many calls as there is to undo, besides closing and
/// destroying: one for the acquisition and one for each registration. So it
/// makes no call but those.
pub proof fn law_cleanup_makes_no_other_call<I, X, E>(camera: CameraView<I, X, E>)
    ensures
        camera.cleanup_plan().len() == 2 + (if camera.grabbing {
            1int
        } else {
            0int
        }) + (if is_registered(camera.image) {
            1int
        } else {
            0int
        }) + (if is_registered(camera.exception) {
            1int
        } else {
            0int
        }) + camera.events.filter(|event: EventRecordView<E>| event.record.registered).len(),
{
    lemma_event_calls_count(camera.handle->0, camera.events);
    law_registered_events_are_counted(camera.events);
}

/// There is one call for each registered event.
proof fn lemma_event_calls_count<E>(handle: usize, events: Seq<EventRecordView<E>>)
    ensures
        event_calls(handle, events).len() == registered_events(events),
    decreases events.len(),
{
    if events.len() > 0 {
        lemma_event_calls_count(handle, events.drop_last());
    }
}

/// The number of registered events is the number of records that are
/// registered.
pub proof fn law_registered_events_are_counted<E>(events: Seq<EventRecordView<E>>)
    ensures
        registered_events(events) == events.filter(
            |event: EventRecordView<E>| event.record.registered,
        ).len(),
    decreases events.len(),
{
    reveal(Seq::filter);
    if events.len() > 0 {
        law_registered_events_are_counted(events.drop_last());
    }
}

/// What well-formed cameras are.
pub proof fn law_well_formed_cameras<I, X, E>(camera: CameraView<I, X, E>)
    requires
        camera.wf(),
    ensures
        camera.handle != Some(0usize),
        camera.grabbing ==> camera.handle is Some,
        camera.image matches Some(record) ==> (record.registered ==> record.committed),
        camera.exception matches Some(record) ==> (record.registered ==> record.committed),
        forall|i: int|
            0 <= i < camera.events.len() ==> nul_free((#[trigger] camera.events[i]).name) && (
            camera.events[i].record.registered ==> camera.events[i].record.committed),
        forall|i: int, j: int|
            0 <= i < camera.events.len() && 0 <= j < camera.events.len() && (
            #[trigger] camera.events[i]).name == (#[trigger] camera.events[j]).name ==> i == j,
{
}

/// A failed registration of the image callback leaves no closure behind: where
/// a registration was confirmed before, its record stays as it was without one,
/// and otherwise there is no record. A failed removal changes nothing.
pub proof fn law_failed_image_calls_leave_no_closure<I, X, E>(
    camera: CameraView<I, X, E>,
    callback: I,
    code: i32,
)
    requires
        code != 0,
    ensures
        camera.image matches Some(record) ==> if record.committed {
            camera.image_settled(code).image matches Some(after) && after.callback is None
                && after.registered == record.registered && after.committed
        } else {
            camera.image_settled(code).image is None
        },
        camera.image is Some ==> camera.image_removed(code) == camera,
        camera.image matches Some(record) ==> (camera.image_installing(callback).image matches Some(
            after,
        ) && after.committed == record.committed),
        camera.image is None ==> (camera.image_installing(callback).image matches Some(after)
            && !after.committed && !after.registered),
{
}

/// A failed registration of the exception callback leaves no closure behind: where
/// a registration was confirmed before, its record stays as it was without one,
/// and otherwise there is no record. A failed removal changes nothing.
pub proof fn law_failed_exception_calls_leave_no_closure<I, X, E>(
    camera: CameraView<I, X, E>,
    callback: X,
    code: i32,
)
    requires
        code != 0,
    ensures
        camera.exception matches Some(record) ==> if record.committed {
            camera.exception_settled(code).exception matches Some(after) && after.callback is None
                && after.registered == record.registered && after.committed
        } else {
            camera.exception_settled(code).exception is None
        },
        camera.exception is Some ==> camera.exception_removed(code) == camera,
        camera.exception matches Some(record) ==> (camera.exception_installing(callback).exception matches Some(
            after,
        ) && after.committed == record.committed),
        camera.exception is None ==> (camera.exception_installing(callback).exception matches Some(after)
            && !after.committed && !after.registered),
{
}

/// Silencing keeps which registrations were ever confirmed, and takes out no
/// record.
pub proof fn law_silencing_keeps_every_record<I, X, E>(camera: CameraView<I, X, E>)
    ensures
        camera.silenced().image is Some <==> camera.image is Some,
        camera.silenced().exception is Some <==> camera.exception is Some,
        camera.image matches Some(record) ==> (camera.silenced().image->0).committed
            == record.committed,
        camera.exception matches Some(record) ==> (camera.silenced().exception->0).committed
            == record.committed,
        forall|i: int|
            0 <= i < camera.events.len() ==> (#[trigger] camera.silenced().events[i]).record.committed
                == camera.events[i].record.committed,
{
}

} // verus!
