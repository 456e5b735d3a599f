//! Event metadata, callback slots and callback registration.

use vstd::prelude::*;

use std::sync::Arc;
use vstd::slice::slice_subrange;
use vstd::utf8::{decode_utf8, valid_utf8};

use crate::error::{check, check_spec, is_invalid_state, MvsError, MvsResult};
use crate::format::{decimal_spec, decimal_u64};
use crate::native::join_words;
use crate::text::{
    c_len, c_prefix, law_c_text_stands_before_the_first_nul, lossy_text, quoted, quoted_text,
    utf8_lossy,
};

verus! {

/// Event notification as the SDK reports it, field by field.
#[derive(Clone, Debug)]
pub struct RawEventInfo {
    /// The fixed name field, up to its capacity.
    pub name: Vec<u8>,
    /// Vendor event identifier.
    pub event_id: u16,
    /// Stream channel.
    pub stream_channel: u16,
    /// High word of the block identifier.
    pub block_id_high: u32,
    /// Low word of the block identifier.
    pub block_id_low: u32,
    /// High word of the timestamp.
    pub timestamp_high: u32,
    /// Low word of the timestamp.
    pub timestamp_low: u32,
}

/// Borrowed view of an SDK event notification.
///
/// The value and its name are valid only for the event callback invocation.
/// Copy any fields needed by work that outlives the callback.
#[derive(Copy, Clone)]
pub struct EventInfo<'a> {
    name: &'a [u8],
    event_id: u16,
    stream_channel: u16,
    block_id: u64,
    timestamp: u64,
}

/// The fields of an event notification.
pub ghost struct EventView {
    /// Name bytes.
    pub name: Seq<u8>,
    /// Vendor event identifier.
    pub event_id: u16,
    /// Stream channel.
    pub stream_channel: u16,
    /// Block identifier.
    pub block_id: u64,
    /// Timestamp.
    pub timestamp: u64,
}

impl<'a> View for EventInfo<'a> {
    type V = EventView;

    closed spec fn view(&self) -> EventView {
        EventView {
            name: self.name@,
            event_id: self.event_id,
            stream_channel: self.stream_channel,
            block_id: self.block_id,
            timestamp: self.timestamp,
        }
    }
}

impl RawEventInfo {
    /// The event that the record stands for.
    pub open spec fn event_spec(self) -> EventView {
        EventView {
            name: c_prefix(self.name@),
            event_id: self.event_id,
            stream_channel: self.stream_channel,
            block_id: (self.block_id_high * 0x1_0000_0000 + self.block_id_low) as u64,
            timestamp: (self.timestamp_high * 0x1_0000_0000 + self.timestamp_low) as u64,
        }
    }
}

impl<'a> EventInfo<'a> {
    /// Put the fields of an event together.
    pub fn new(
        name: &'a [u8],
        event_id: u16,
        stream_channel: u16,
        block_id: u64,
        timestamp: u64,
    ) -> (r: Self)
        ensures
            r@ == (EventView { name: name@, event_id, stream_channel, block_id, timestamp }),
    {
        EventInfo { name, event_id, stream_channel, block_id, timestamp }
    }

    /// View a native notification: the name ends at its first NUL or at the
    /// capacity of its field, and split numbers are joined.
    pub fn from_raw(raw: &'a RawEventInfo) -> (r: Self)
        ensures
            r@ == raw.event_spec(),
    {
        let field = raw.name.as_slice();
        let end = c_len(field);
        EventInfo::new(
            slice_subrange(field, 0, end),
            raw.event_id,
            raw.stream_channel,
            join_words(raw.block_id_high, raw.block_id_low),
            join_words(raw.timestamp_high, raw.timestamp_low),
        )
    }

    /// Return the event name, replacing invalid UTF-8 sequences if necessary.
    pub fn name(&self) -> (r: String)
        ensures
            r@ == lossy_text(self@.name),
            valid_utf8(self@.name) ==> r@ == decode_utf8(self@.name),
            !valid_utf8(self@.name) ==> r@.contains('\u{FFFD}'),
    {
        utf8_lossy(self.name)
    }

    /// Return the vendor event identifier.
    pub fn event_id(&self) -> (r: u16)
        ensures
            r == self@.event_id,
    {
        self.event_id
    }

    /// Return the stream-channel identifier associated with the event.
    pub fn stream_channel(&self) -> (r: u16)
        ensures
            r == self@.stream_channel,
    {
        self.stream_channel
    }

    /// Return the event block identifier.
    pub fn block_id(&self) -> (r: u64)
        ensures
            r == self@.block_id,
    {
        self.block_id
    }

    /// Diagnostic text, such as `EventInfo { name: "ExposureEnd", event_id: 9,
    /// block_id: 2 }`.
    pub fn debug_text(&self) -> (r: String)
        ensures
            r@ == self@.debug_text_spec(),
    {
        let mut text = "EventInfo { name: ".to_owned();
        text.append(quoted(self.name().as_str()).as_str());
        text.append(", event_id: ");
        text.append(decimal_u64(self.event_id as u64).as_str());
        text.append(", block_id: ");
        text.append(decimal_u64(self.block_id).as_str());
        text.append(" }");
        text
    }

    /// Return the device event timestamp in vendor-defined units.
    pub fn timestamp(&self) -> (r: u64)
        ensures
            r == self@.timestamp,
    {
        self.timestamp
    }
}

impl EventView {
    /// Diagnostic text of the event.
    pub open spec fn debug_text_spec(self) -> Seq<char> {
        "EventInfo { name: "@ + quoted_text(lossy_text(self.name)) + ", event_id: "@ + decimal_spec(
            self.event_id as nat,
        ) + ", block_id: "@ + decimal_spec(self.block_id as nat) + " }"@
    }
}

/// How deep the current thread is inside SDK callbacks.
#[derive(Copy, Clone, PartialEq, Eq, Structural, Debug)]
pub struct CallbackDepth {
    /// Number of callback invocations on the stack, saturating.
    pub depth: u32,
}

impl CallbackDepth {
    /// A thread outside every callback.
    pub fn new() -> (r: Self)
        ensures
            r.depth == 0,
            !r.in_callback_spec(),
    {
        CallbackDepth { depth: 0 }
    }

    /// Whether the thread is inside a callback.
    pub open spec fn in_callback_spec(self) -> bool {
        self.depth != 0
    }

    /// Whether the thread is inside a callback.
    pub fn in_callback(&self) -> (r: bool)
        ensures
            r == self.in_callback_spec(),
    {
        self.depth != 0
    }

    /// One invocation deeper; the counter stops at its limit.
    pub open spec fn entered(self) -> Self {
        CallbackDepth {
            depth: if self.depth == u32::MAX {
                u32::MAX
            } else {
                (self.depth + 1) as u32
            },
        }
    }

    /// One invocation less deep; outside every callback nothing changes.
    pub open spec fn left(self) -> Self {
        CallbackDepth {
            depth: if self.depth == 0 {
                0
            } else {
                (self.depth - 1) as u32
            },
        }
    }

    /// Enter a callback.
    pub fn enter(&mut self)
        ensures
            *final(self) == old(self).entered(),
            final(self).in_callback_spec(),
    {
        self.depth = self.depth.saturating_add(1);
    }

    /// Leave a callback.
    pub fn leave(&mut self)
        ensures
            *final(self) == old(self).left(),
    {
        self.depth = self.depth.saturating_sub(1);
    }
}

/// Refuse a lifecycle operation on a thread that is inside an SDK callback.
pub fn reject_callback_context(in_callback: bool) -> (r: MvsResult<()>)
    ensures
        !in_callback ==> r == Ok::<(), MvsError>(()),
        in_callback ==> is_invalid_state(
            r,
            "camera lifecycle operations cannot run from an MVS callback"@,
        ),
{
    if in_callback {
        Err(
            MvsError::InvalidState(
                "camera lifecycle operations cannot run from an MVS callback",
            ),
        )
    } else {
        Ok(())
    }
}

/// The place where a native callback finds its closure.
pub struct CallbackSlot<C> {
    callback: Option<Arc<C>>,
}

impl<C> View for CallbackSlot<C> {
    type V = Option<C>;

    closed spec fn view(&self) -> Option<C> {
        match self.callback {
            Some(callback) => Some(*callback),
            None => None,
        }
    }
}

impl<C> CallbackSlot<C> {
    /// An empty slot.
    pub fn new() -> (r: Self)
        ensures
            r@ == None::<C>,
    {
        CallbackSlot { callback: None }
    }

    /// Install a closure. A closure that is still running is kept alive by the
    /// reference that its invocation holds.
    pub fn set(&mut self, callback: C)
        ensures
            final(self)@ == Some(callback),
    {
        self.callback = Some(Arc::new(callback));
    }

    /// Silence later callbacks.
    pub fn clear(&mut self)
        ensures
            final(self)@ == None::<C>,
    {
        self.callback = None;
    }

    /// Take a reference to the closure for one invocation.
    pub fn load(&self) -> (r: Option<Arc<C>>)
        ensures
            match r {
                Some(callback) => self@ == Some(*callback),
                None => self@ is None,
            },
    {
        match &self.callback {
            Some(callback) => Some(Arc::clone(callback)),
            None => None,
        }
    }

    /// Account for a finished invocation: after a panic the slot is silenced,
    /// so that the SDK thread does not enter the same closure again.
    pub fn invoked(&mut self, panicked: bool)
        ensures
            final(self)@ == (if panicked {
                None
            } else {
                old(self)@
            }),
    {
        if panicked {
            self.clear();
        }
    }
}

/// State of one callback registration.
pub ghost struct RecordView<C> {
    /// The installed closure.
    pub callback: Option<C>,
    /// Whether the native registration is confirmed.
    pub registered: bool,
    /// Whether a native registration was ever confirmed.
    pub committed: bool,
}

impl<C> RecordView<C> {
    /// A confirmed registration leaves its mark.
    pub open spec fn wf(self) -> bool {
        self.registered ==> self.committed
    }

    /// State while the native registration of `callback` runs.
    pub open spec fn installing(self, callback: C) -> Self {
        RecordView { callback: Some(callback), ..self }
    }

    /// State after the native registration returned `code`.
    pub open spec fn installed(self, code: i32) -> Self {
        if code == 0 {
            RecordView { registered: true, committed: true, ..self }
        } else {
            RecordView { callback: None, ..self }
        }
    }

    /// State after the native deregistration returned `code`.
    pub open spec fn removed(self, code: i32) -> Self {
        if code == 0 {
            RecordView { callback: None, registered: false, ..self }
        } else {
            self
        }
    }

    /// The same registration without its closure.
    pub open spec fn silenced(self) -> Self {
        RecordView { callback: None, ..self }
    }

    /// A record before its first registration.
    pub open spec fn fresh() -> Self {
        RecordView { callback: None, registered: false, committed: false }
    }
}

/// A callback slot together with the state of its native registration.
///
/// Registration takes two steps, with the native call between them, because
/// the SDK may dispatch to the new closure before the call returns.
pub struct CallbackRecord<C> {
    slot: CallbackSlot<C>,
    registered: bool,
    committed: bool,
}

impl<C> View for CallbackRecord<C> {
    type V = RecordView<C>;

    closed spec fn view(&self) -> RecordView<C> {
        RecordView {
            callback: self.slot@,
            registered: self.registered,
            committed: self.committed,
        }
    }
}

impl<C> CallbackRecord<C> {
    /// A record without closure or registration.
    pub fn new() -> (r: Self)
        ensures
            r@ == RecordView::<C>::fresh(),
    {
        CallbackRecord { slot: CallbackSlot::new(), registered: false, committed: false }
    }

    /// Install a closure ahead of its native registration. A record accepts one
    /// registration at a time.
    pub fn register(&mut self, callback: C) -> (r: MvsResult<()>)
        ensures
            old(self)@.registered ==> is_invalid_state(r, "callback is already registered"@)
                && final(self)@ == old(self)@,
            !old(self)@.registered ==> r == Ok::<(), MvsError>(()) && final(self)@
                == old(self)@.installing(callback),
    {
        if self.registered {
            return Err(MvsError::InvalidState("callback is already registered"));
        }
        self.slot.set(callback);
        Ok(())
    }

    /// Settle the registration with the code of the native call: only success
    /// commits it, a failure takes the closure out again.
    pub fn register_done(&mut self, code: i32) -> (r: MvsResult<()>)
        ensures
            r == check_spec(code),
            final(self)@ == old(self)@.installed(code),
    {
        match check(code) {
            Ok(()) => {
                self.registered = true;
                self.committed = true;
                Ok(())
            },
            Err(error) => {
                self.slot.clear();
                Err(error)
            },
        }
    }

    /// Whether a native call is needed to unregister.
    pub fn unregister(&self) -> (r: bool)
        ensures
            r == self@.registered,
    {
        self.registered
    }

    /// Settle the deregistration with the code of the native call: only success
    /// ends the registration.
    pub fn unregister_done(&mut self, code: i32) -> (r: MvsResult<()>)
        ensures
            r == check_spec(code),
            final(self)@ == old(self)@.removed(code),
    {
        match check(code) {
            Ok(()) => {
                self.registered = false;
                self.slot.clear();
                Ok(())
            },
            Err(error) => Err(error),
        }
    }

    /// Whether the native registration is confirmed.
    pub fn is_active(&self) -> (r: bool)
        ensures
            r == self@.registered,
    {
        self.registered
    }

    /// Whether a native registration was ever confirmed.
    pub fn is_committed(&self) -> (r: bool)
        ensures
            r == self@.committed,
    {
        self.committed
    }

    /// Take the closure out, leaving the registration as it is.
    pub fn silence(&mut self)
        ensures
            final(self)@ == old(self)@.silenced(),
    {
        self.slot.clear();
    }

    /// Take a reference to the closure for one native invocation.
    pub fn load(&self) -> (r: Option<Arc<C>>)
        ensures
            match r {
                Some(callback) => self@.callback == Some(*callback),
                None => self@.callback is None,
            },
    {
        self.slot.load()
    }

    /// Account for a finished invocation: a panic silences the slot.
    pub fn invoked(&mut self, panicked: bool)
        ensures
            final(self)@ == (if panicked {
                old(self)@.silenced()
            } else {
                old(self)@
            }),
    {
        self.slot.invoked(panicked);
    }
}

/// View of an optional record.
pub open spec fn record_view<C>(record: Option<CallbackRecord<C>>) -> Option<RecordView<C>> {
    match record {
        Some(record) => Some(record@),
        None => None,
    }
}

/// Whether an optional record is registered.
pub open spec fn is_registered<C>(record: Option<RecordView<C>>) -> bool {
    record matches Some(record) && record.registered
}

/// The record, or a fresh one where there is none.
pub open spec fn record_or_fresh<C>(record: Option<RecordView<C>>) -> RecordView<C> {
    match record {
        Some(record) => record,
        None => RecordView::fresh(),
    }
}

/// What is kept of a record once its native registration returned `code`: a
/// record whose first registration failed is dropped altogether.
pub open spec fn settled<C>(record: RecordView<C>, code: i32) -> Option<RecordView<C>> {
    if code != 0 && !record.committed {
        None
    } else {
        Some(record.installed(code))
    }
}

/// Install a closure in an optional record ahead of its native registration.
pub fn register_callback<C>(record: &mut Option<CallbackRecord<C>>, callback: C) -> (r: MvsResult<
    (),
>)
    ensures
        is_registered(record_view(*old(record))) ==> {
            &&& is_invalid_state(r, "callback is already registered"@)
            &&& *final(record) == *old(record)
        },
        !is_registered(record_view(*old(record))) ==> {
            &&& r == Ok::<(), MvsError>(())
            &&& record_view(*final(record)) == Some(
                record_or_fresh(record_view(*old(record))).installing(callback),
            )
        },
{
    match record.take() {
        Some(present) => {
            if present.is_active() {
                *record = Some(present);
                return Err(MvsError::InvalidState("callback is already registered"));
            }
            let mut present = present;
            let r = present.register(callback);
            *record = Some(present);
            r
        },
        None => {
            let mut fresh = CallbackRecord::new();
            let r = fresh.register(callback);
            *record = Some(fresh);
            r
        },
    }
}

/// Settle a registration with the code of its native call. A record that was
/// made for it is kept only when the call succeeded.
pub fn register_callback_done<C>(record: &mut Option<CallbackRecord<C>>, code: i32) -> (r:
    MvsResult<()>)
    requires
        *old(record) is Some,
    ensures
        r == check_spec(code),
        record_view(*final(record)) == settled(record_view(*old(record))->0, code),
{
    match record.take() {
        Some(present) => {
            let mut present = present;
            let r = present.register_done(code);
            if r.is_ok() || present.is_committed() {
                *record = Some(present);
            }
            r
        },
        None => Ok(()),
    }
}

/// Between a confirmed registration and its confirmed end no second one is
/// accepted; a failed native call leaves a registration as it was; and once it
/// has ended the record can be used again.
pub proof fn law_registration_cycle<C>(
    record: RecordView<C>,
    first: C,
    second: C,
    failure: i32,
)
    requires
        record.wf(),
        !record.registered,
        failure != 0,
    ensures
        record.installing(first).installed(0).registered,
        record.installing(first).installed(0).callback == Some(first),
        record.installing(first).installed(0).removed(failure) == record.installing(
            first,
        ).installed(0),
        record.installing(first).installed(failure) == record.silenced(),
        !record.installing(first).installed(0).removed(0).registered,
        record.installing(first).installed(0).removed(0).callback is None,
        record.installing(first).installed(0).removed(0).installing(second).installed(0).callback
            == Some(second),
{
}

/// A failed first registration leaves no record behind; a failed later one
/// leaves an empty record.
pub proof fn law_failed_registration_rolls_back<C>(
    record: Option<RecordView<C>>,
    callback: C,
    failure: i32,
)
    requires
        !is_registered(record),
        record matches Some(present) ==> present.committed,
        failure != 0,
    ensures
        settled(record_or_fresh(record).installing(callback), failure) == (match record {
            Some(present) => Some(present.silenced()),
            None => None,
        }),
{
}

/// Depth of a thread after it entered (`true`) and left (`false`) callbacks.
pub open spec fn depth_after(moves: Seq<bool>) -> CallbackDepth
    decreases moves.len(),
{
    if moves.len() == 0 {
        CallbackDepth { depth: 0 }
    } else if moves.last() {
        depth_after(moves.drop_last()).entered()
    } else {
        depth_after(moves.drop_last()).left()
    }
}

/// How many more callbacks a thread entered than it left.
pub open spec fn open_callbacks(moves: Seq<bool>) -> int
    decreases moves.len(),
{
    if moves.len() == 0 {
        0
    } else {
        open_callbacks(moves.drop_last()) + if moves.last() {
            1int
        } else {
            -1int
        }
    }
}

/// Whether a thread leaves only callbacks that it entered.
pub open spec fn is_nested(moves: Seq<bool>) -> bool
    decreases moves.len(),
{
    moves.len() > 0 ==> is_nested(moves.drop_last()) && open_callbacks(moves) >= 0
}

/// However callbacks nest, a thread counts as inside exactly while there is one
/// that it entered and has not left.
pub proof fn law_callback_depth_nests(moves: Seq<bool>)
    requires
        is_nested(moves),
        moves.len() <= u32::MAX,
    ensures
        depth_after(moves).depth == open_callbacks(moves),
        depth_after(moves).in_callback_spec() <==> open_callbacks(moves) > 0,
        open_callbacks(moves) <= moves.len(),
    decreases moves.len(),
{
    if moves.len() > 0 {
        law_callback_depth_nests(moves.drop_last());
    }
}

/// An event reports what the SDK reported: numbers as they are, split numbers
/// such that both words can be read back, and the name up to its first NUL.
pub proof fn law_events_are_what_was_reported(raw: RawEventInfo)
    ensures
        raw.event_spec().event_id == raw.event_id,
        raw.event_spec().stream_channel == raw.stream_channel,
        raw.event_spec().block_id as int / 0x1_0000_0000 == raw.block_id_high,
        raw.event_spec().block_id as int % 0x1_0000_0000 == raw.block_id_low as int,
        raw.event_spec().timestamp as int / 0x1_0000_0000 == raw.timestamp_high,
        raw.event_spec().timestamp as int % 0x1_0000_0000 == raw.timestamp_low as int,
        raw.event_spec().name.is_prefix_of(raw.name@),
        forall|i: int| 0 <= i < raw.event_spec().name.len() ==> raw.event_spec().name[i] != 0,
        raw.event_spec().name.len() < raw.name@.len()
            ==> raw.name@[raw.event_spec().name.len() as int] == 0,
{
    law_c_text_stands_before_the_first_nul(raw.name@);
}

/// Installing a closure touches the closure alone. A confirmed registration
/// keeps it, a refused one takes it out; a confirmed deregistration ends the
/// registration and takes it out, a refused one changes nothing; silencing
/// takes the closure out alone.
pub proof fn law_registrations_change_what_they_name<C>(
    record: RecordView<C>,
    callback: C,
    failure: i32,
)
    requires
        failure != 0,
    ensures
        record.installing(callback).callback == Some(callback),
        record.installing(callback).registered == record.registered,
        record.installing(callback).committed == record.committed,
        record.installed(0).callback == record.callback,
        record.installed(0).registered,
        record.installed(0).committed,
        record.installed(failure).callback is None,
        record.installed(failure).registered == record.registered,
        record.installed(failure).committed == record.committed,
        record.removed(0).callback is None,
        !record.removed(0).registered,
        record.removed(0).committed == record.committed,
        record.removed(failure) == record,
        record.silenced().callback is None,
        record.silenced().registered == record.registered,
        record.silenced().committed == record.committed,
        RecordView::<C>::fresh().callback is None,
        !RecordView::<C>::fresh().registered,
        !RecordView::<C>::fresh().committed,
        record.wf() <==> (record.registered ==> record.committed),
{
}

/// What is kept of a record once its registration returned: after a success the
/// registered record with its closure, after a failure the record without its
/// closure if it was ever registered, and else nothing.
pub proof fn law_settling_keeps_what_was_confirmed<C>(record: RecordView<C>, failure: i32)
    requires
        failure != 0,
    ensures
        settled(record, 0) matches Some(kept) && kept.registered && kept.committed && kept.callback
            == record.callback,
        record.committed ==> (settled(record, failure) matches Some(kept) && kept.callback is None
            && kept.registered == record.registered && kept.committed),
        !record.committed ==> settled(record, failure) is None,
{
}

/// A place for a record is registered exactly when it holds a registered record.
/// Without a record, registration starts from an empty one.
pub proof fn law_no_record_is_no_registration<C>(
    record: RecordView<C>,
    place: Option<CallbackRecord<C>>,
)
    ensures
        is_registered(Some(record)) == record.registered,
        !is_registered(None::<RecordView<C>>),
        record_or_fresh(Some(record)) == record,
        record_or_fresh(None::<RecordView<C>>).callback is None,
        !record_or_fresh(None::<RecordView<C>>).registered,
        !record_or_fresh(None::<RecordView<C>>).committed,
        record_view(place) is Some <==> place is Some,
        place matches Some(present) ==> record_view(place) == Some(present@),
{
}

/// Entering a callback counts one more, up to the counter's limit; leaving one
/// counts one less, down to none.
pub proof fn law_depth_counts_by_one(depth: CallbackDepth)
    ensures
        depth.depth < u32::MAX ==> depth.entered().depth == depth.depth + 1,
        depth.depth == u32::MAX ==> depth.entered().depth == u32::MAX,
        depth.depth > 0 ==> depth.left().depth == depth.depth - 1,
        depth.depth == 0 ==> depth.left().depth == 0,
        depth.in_callback_spec() <==> depth.depth > 0,
{
}

/// The diagnostic text of an event shows its name, quoted, and then its
/// identifier and its block, in decimal.
pub proof fn law_event_texts_show_name_and_numbers(event: EventView)
    ensures
        event.debug_text_spec() == "EventInfo { name: "@ + quoted_text(lossy_text(event.name))
            + ", event_id: "@ + decimal_spec(event.event_id as nat) + ", block_id: "@
            + decimal_spec(event.block_id as nat) + " }"@,
{
}

} // verus!
