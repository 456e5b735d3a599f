//! The process-wide native session and what it has lent out.

use vstd::prelude::*;

use crate::error::{is_invalid_state, MvsError, MvsResult};

verus! {

/// The platform that the library drives the SDK on.
#[derive(Copy, Clone, PartialEq, Eq, Structural, Debug)]
pub enum Platform {
    /// Windows on x86_64 with the MSVC toolchain, where the native SDK runs.
    WindowsX64Msvc,
    /// Any other target: every native operation is refused.
    Unsupported,
}

/// Claim the one initialization of this process. The first claim succeeds; it
/// is never given back, so every later one fails.
pub fn claim_initialization(claimed: &mut bool) -> (r: MvsResult<()>)
    ensures
        *final(claimed),
        !*old(claimed) ==> r == Ok::<(), MvsError>(()),
        *old(claimed) ==> is_invalid_state(
            r,
            "SDK initialization has already been attempted in this process"@,
        ),
{
    if *claimed {
        Err(
            MvsError::InvalidState("SDK initialization has already been attempted in this process"),
        )
    } else {
        *claimed = true;
        Ok(())
    }
}

/// What a session has lent out.
pub ghost struct RuntimeView {
    /// Owners of the session: the SDK entry and every camera.
    pub leases: nat,
    /// Native handles that were created and not confirmed destroyed.
    pub live: nat,
}

impl RuntimeView {
    /// A session that only the SDK entry owns.
    pub open spec fn fresh() -> Self {
        RuntimeView { leases: 1, live: 0 }
    }

    /// One more owner.
    pub open spec fn leased(self) -> Self {
        RuntimeView { leases: self.leases + 1, ..self }
    }

    /// One owner less.
    pub open spec fn returned(self) -> Self {
        RuntimeView { leases: (self.leases - 1) as nat, ..self }
    }

    /// One more live handle; the counter wraps at the end of its range.
    pub open spec fn handle_created(self) -> Self {
        RuntimeView {
            live: if self.live == usize::MAX {
                0
            } else {
                self.live + 1
            },
            ..self
        }
    }

    /// One live handle less.
    pub open spec fn handle_destroyed(self) -> Self {
        RuntimeView { live: (self.live - 1) as nat, ..self }
    }

    /// Whether the session may be finalized: the SDK entry is the sole owner
    /// and every created handle is confirmed destroyed.
    pub open spec fn can_finalize(self) -> bool {
        self.leases == 1 && self.live == 0
    }
}

/// The one-shot native session that the SDK entry and the open cameras share.
///
/// A lease says only that its holder keeps the session; a handle still has its
/// camera as the only owner.
#[derive(Debug)]
pub struct RuntimeCore {
    leases: usize,
    live_native_handles: usize,
}

impl View for RuntimeCore {
    type V = RuntimeView;

    closed spec fn view(&self) -> RuntimeView {
        RuntimeView { leases: self.leases as nat, live: self.live_native_handles as nat }
    }
}

impl RuntimeCore {
    /// The SDK entry is an owner for as long as the session exists.
    #[verifier::type_invariant]
    pub open spec fn is_owned(self) -> bool {
        self@.leases >= 1
    }

    /// A session that only the SDK entry owns.
    pub fn new() -> (r: Self)
        ensures
            r@ == RuntimeView::fresh(),
    {
        RuntimeCore { leases: 1, live_native_handles: 0 }
    }

    /// Number of owners, the SDK entry among them.
    pub fn leases(&self) -> (r: usize)
        ensures
            r == self@.leases,
            r >= 1,
    {
        proof {
            use_type_invariant(self);
        }
        self.leases
    }

    /// Number of native handles that are not confirmed destroyed.
    pub fn live_native_handles(&self) -> (r: usize)
        ensures
            r == self@.live,
    {
        self.live_native_handles
    }

    /// Give a camera a lease on the session.
    pub fn lease(&mut self)
        requires
            old(self)@.leases < usize::MAX,
        ensures
            final(self)@ == old(self)@.leased(),
    {
        self.leases = self.leases + 1;
    }

    /// Take back the lease of a camera that is gone.
    pub fn release_lease(&mut self)
        requires
            old(self)@.leases > 1,
        ensures
            final(self)@ == old(self)@.returned(),
    {
        self.leases = self.leases - 1;
    }

    /// Record a handle that the SDK has written out.
    pub fn native_handle_created(&mut self)
        ensures
            final(self)@ == old(self)@.handle_created(),
    {
        proof {
            use_type_invariant(&*self);
        }
        self.live_native_handles = self.live_native_handles.wrapping_add(1);
    }

    /// Record a handle whose destruction the SDK has confirmed. Creation and
    /// destruction come in pairs, so there is one to take off.
    pub fn native_handle_destroyed(&mut self)
        requires
            old(self)@.live > 0,
        ensures
            final(self)@ == old(self)@.handle_destroyed(),
    {
        proof {
            use_type_invariant(&*self);
        }
        self.live_native_handles = self.live_native_handles - 1;
    }

    /// Return whether a native handle is still live.
    pub fn orphaned_native_handles_live(&self) -> (r: bool)
        ensures
            r == (self@.live != 0),
    {
        self.live_native_handles != 0
    }
}

/// Something that changes what a session has lent out.
pub ghost enum SessionEvent {
    /// A camera took a lease.
    CameraOpened,
    /// A camera gave its lease back.
    CameraReleased,
    /// The SDK wrote a handle out.
    HandleCreated,
    /// The SDK confirmed a destruction.
    HandleDestroyed,
}

impl SessionEvent {
    /// Whether the event can happen in a session.
    pub open spec fn possible(self, session: RuntimeView) -> bool {
        match self {
            SessionEvent::CameraOpened => session.leases < usize::MAX,
            SessionEvent::CameraReleased => session.leases > 1,
            SessionEvent::HandleCreated => true,
            SessionEvent::HandleDestroyed => session.live > 0,
        }
    }

    /// The session after the event.
    pub open spec fn apply(self, session: RuntimeView) -> RuntimeView {
        match self {
            SessionEvent::CameraOpened => session.leased(),
            SessionEvent::CameraReleased => session.returned(),
            SessionEvent::HandleCreated => session.handle_created(),
            SessionEvent::HandleDestroyed => session.handle_destroyed(),
        }
    }
}

/// The session after a history of events.
pub open spec fn session_after(events: Seq<SessionEvent>) -> RuntimeView
    decreases events.len(),
{
    if events.len() == 0 {
        RuntimeView::fresh()
    } else {
        events.last().apply(session_after(events.drop_last()))
    }
}

/// Whether every event of a history could happen when it did.
pub open spec fn is_history(events: Seq<SessionEvent>) -> bool
    decreases events.len(),
{
    events.len() > 0 ==> is_history(events.drop_last()) && events.last().possible(
        session_after(events.drop_last()),
    )
}

/// How often an event occurs in a history.
pub open spec fn occurrences(events: Seq<SessionEvent>, event: SessionEvent) -> nat
    decreases events.len(),
{
    if events.len() == 0 {
        0
    } else {
        occurrences(events.drop_last(), event) + if events.last() == event {
            1nat
        } else {
            0nat
        }
    }
}

/// Whatever happens in a session, in whatever order: its owners are the SDK
/// entry and the cameras that are open, its live handles are those that were
/// created and not confirmed destroyed, and so it may be finalized exactly when
/// every opened camera is released and every created handle is destroyed.
pub proof fn law_session_accounting(events: Seq<SessionEvent>)
    requires
        is_history(events),
        events.len() <= usize::MAX,
    ensures
        session_after(events).leases == 1 + occurrences(events, SessionEvent::CameraOpened)
            - occurrences(events, SessionEvent::CameraReleased),
        session_after(events).live == occurrences(events, SessionEvent::HandleCreated)
            - occurrences(events, SessionEvent::HandleDestroyed),
        session_after(events).can_finalize() <==> {
            &&& occurrences(events, SessionEvent::CameraOpened) == occurrences(
                events,
                SessionEvent::CameraReleased,
            )
            &&& occurrences(events, SessionEvent::HandleCreated) == occurrences(
                events,
                SessionEvent::HandleDestroyed,
            )
        },
    decreases events.len(),
{
    lemma_occurrences_are_bounded(events, SessionEvent::HandleCreated);
    if events.len() > 0 {
        law_session_accounting(events.drop_last());
        lemma_occurrences_are_bounded(events.drop_last(), SessionEvent::HandleCreated);
    }
}

/// No event occurs more often than the history is long.
proof fn lemma_occurrences_are_bounded(events: Seq<SessionEvent>, event: SessionEvent)
    ensures
        occurrences(events, event) <= events.len(),
    decreases events.len(),
{
    if events.len() > 0 {
        lemma_occurrences_are_bounded(events.drop_last(), event);
    }
}

/// Leases and live handles are counted apart, each by one.
pub proof fn law_session_counts_by_one(session: RuntimeView)
    ensures
        RuntimeView::fresh().leases == 1,
        RuntimeView::fresh().live == 0,
        session.leased().leases == session.leases + 1,
        session.leased().live == session.live,
        session.leases > 0 ==> session.returned().leases == session.leases - 1,
        session.returned().live == session.live,
        session.live < usize::MAX ==> session.handle_created().live == session.live + 1,
        session.live == usize::MAX ==> session.handle_created().live == 0,
        session.handle_created().leases == session.leases,
        session.live > 0 ==> session.handle_destroyed().live == session.live - 1,
        session.handle_destroyed().leases == session.leases,
        session.can_finalize() <==> session.leases == 1 && session.live == 0,
{
}

} // verus!
