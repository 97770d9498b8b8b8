use vstd::prelude::*;
use crate::state::{
    default_event_state, Active, CursorPosition, EventStateView, InputMethodEventState,
    SurroundingText, SurroundingTextView,
};
use crate::text_input::{ChangeCause, ContentHint, ContentPurpose, WEnum, KNOWN_CONTENT_HINT_BITS};

verus! {

/// An event the compositor sends to an input method object.
#[derive(Debug, PartialEq)]
pub enum Event {
    Activate,
    Deactivate,
    SurroundingText { text: String, cursor: u32, anchor: u32 },
    TextChangeCause { cause: WEnum<ChangeCause> },
    ContentType { hint: WEnum<ContentHint>, purpose: WEnum<ContentPurpose> },
    Done,
    Unavailable,
}

/// What the handler of the application is to be told after an event.
#[derive(Clone, Copy, Debug, PartialEq, Eq, Structural)]
pub enum Action {
    /// Nothing to report.
    Nothing,
    /// The state is complete: hand the current state to the handler.
    HandleDone,
    /// The input method is no longer available.
    HandleUnavailable,
}

/// A request of the input method, to be sent to the compositor.
#[derive(Debug, PartialEq)]
pub enum Request {
    SetPreeditString { text: String, cursor_begin: i32, cursor_end: i32 },
    CommitString { text: String },
    DeleteSurroundingText { before_length: u32, after_length: u32 },
    Commit { serial: u32 },
}

/// The state kept for an input method object: the state being received, the state last
/// completed by a `done` event, and the number of `done` events seen (wrapping).
#[derive(Debug)]
pub struct InputMethodDataInner {
    pending_state: InputMethodEventState,
    current_state: InputMethodEventState,
    serial: u32,
}

/// The mathematical model of [`InputMethodDataInner`].
pub struct InputMethodDataView {
    pub pending_state: EventStateView,
    pub current_state: EventStateView,
    pub serial: u32,
}

impl View for InputMethodDataInner {
    type V = InputMethodDataView;

    closed spec fn view(&self) -> InputMethodDataView {
        InputMethodDataView {
            pending_state: self.pending_state@,
            current_state: self.current_state@,
            serial: self.serial,
        }
    }
}

/// The serial after one more `done` event: one more, wrapping around at `u32::MAX`.
pub open spec fn next_serial(serial: u32) -> u32 {
    if serial == u32::MAX {
        0
    } else {
        (serial + 1) as u32
    }
}

/// The change cause an event carries; one the protocol does not name counts as `Other`.
pub open spec fn cause_of(cause: WEnum<ChangeCause>) -> ChangeCause {
    match cause {
        WEnum::Value(c) => c,
        WEnum::Unknown(_) => ChangeCause::Other,
    }
}

/// The content purpose an event carries; one the protocol does not name counts as `Normal`.
pub open spec fn purpose_of(purpose: WEnum<ContentPurpose>) -> ContentPurpose {
    match purpose {
        WEnum::Value(p) => p,
        WEnum::Unknown(_) => ContentPurpose::Normal,
    }
}

/// The content hint bits an event carries; of raw bits, only the named flags are kept.
pub open spec fn hint_of(hint: WEnum<ContentHint>) -> u32 {
    match hint {
        WEnum::Value(h) => h.bits,
        WEnum::Unknown(bits) => bits & KNOWN_CONTENT_HINT_BITS,
    }
}

/// The state of an input method object after one event.
pub open spec fn next_data(s: InputMethodDataView, event: Event) -> InputMethodDataView {
    match event {
        Event::Activate => InputMethodDataView {
            pending_state: EventStateView {
                active: s.pending_state.active.after_activate(),
                ..default_event_state()
            },
            ..s
        },
        Event::Deactivate => InputMethodDataView { pending_state: default_event_state(), ..s },
        Event::SurroundingText { text, cursor, anchor } => InputMethodDataView {
            pending_state: EventStateView {
                active: s.pending_state.active.after_surrounding_text(),
                surrounding: SurroundingTextView { text: text@, cursor, anchor },
                ..s.pending_state
            },
            ..s
        },
        Event::TextChangeCause { cause } => InputMethodDataView {
            pending_state: EventStateView { text_change_cause: cause_of(cause), ..s.pending_state },
            ..s
        },
        Event::ContentType { hint, purpose } => InputMethodDataView {
            pending_state: EventStateView {
                active: s.pending_state.active.after_content_type(),
                content_hint: hint_of(hint),
                content_purpose: purpose_of(purpose),
                ..s.pending_state
            },
            ..s
        },
        Event::Done => {
            let done = EventStateView {
                active: s.pending_state.active.after_done(),
                ..s.pending_state
            };
            InputMethodDataView {
                pending_state: done,
                current_state: done,
                serial: next_serial(s.serial),
            }
        },
        Event::Unavailable => s,
    }
}

/// What the handler is told after an event.
pub open spec fn action_of(event: Event) -> Action {
    match event {
        Event::Done => Action::HandleDone,
        Event::Unavailable => Action::HandleUnavailable,
        _ => Action::Nothing,
    }
}

/// The state of an input method object that has not received any event.
pub open spec fn initial_data() -> InputMethodDataView {
    InputMethodDataView {
        pending_state: default_event_state(),
        current_state: default_event_state(),
        serial: 0,
    }
}

impl InputMethodDataInner {
    /// The state of a new input method object: both states default, serial zero.
    pub fn new() -> (r: InputMethodDataInner)
        ensures
            r@ == initial_data(),
    {
        InputMethodDataInner {
            pending_state: InputMethodEventState::default(),
            current_state: InputMethodEventState::default(),
            serial: 0,
        }
    }

    /// The state being received, not yet completed by a `done` event.
    pub fn pending_state(&self) -> (r: &InputMethodEventState)
        ensures
            r@ == self@.pending_state,
    {
        &self.pending_state
    }

    /// The state completed by the last `done` event.
    pub fn current_state(&self) -> (r: &InputMethodEventState)
        ensures
            r@ == self@.current_state,
    {
        &self.current_state
    }

    /// The number of `done` events received, wrapping around at `u32::MAX`.
    pub fn serial(&self) -> (r: u32)
        ensures
            r == self@.serial,
    {
        self.serial
    }
}

/// The position of one cursor end in pre-edit text as the protocol carries it: offsets that
/// do not fit an `i32` become 0.
pub open spec fn cursor_offset(offset: usize) -> i32 {
    if offset <= i32::MAX {
        offset as i32
    } else {
        0
    }
}

/// The cursor range sent with pre-edit text: `(-1, -1)` for a hidden cursor.
pub open spec fn preedit_cursor_range(cursor: CursorPosition) -> (i32, i32) {
    match cursor {
        CursorPosition::Hidden => (-1i32, -1i32),
        CursorPosition::Visible { start, end } => (cursor_offset(start), cursor_offset(end)),
    }
}

fn offset_to_i32(offset: usize) -> (r: i32)
    ensures
        r == cursor_offset(offset),
{
    match i32::try_from(offset) {
        Ok(v) => v,
        Err(_) => 0,
    }
}

/// An input method object, as seen from the client: it turns the compositor's events into
/// state and the application's intentions into requests.
#[derive(Clone, Copy, Debug, PartialEq, Eq, Structural)]
pub struct InputMethod;

impl InputMethod {
    /// The request that sets the pre-edit text and its cursor.
    pub fn set_preedit_string(&self, text: String, cursor: CursorPosition) -> (r: Request)
        ensures
            r == (Request::SetPreeditString {
                text,
                cursor_begin: preedit_cursor_range(cursor).0,
                cursor_end: preedit_cursor_range(cursor).1,
            }),
            cursor is Hidden ==> r == (Request::SetPreeditString {
                text,
                cursor_begin: -1i32,
                cursor_end: -1i32,
            }),
            cursor matches CursorPosition::Visible { start, end } ==> r matches Request::SetPreeditString { cursor_begin, cursor_end, .. } && (start <= i32::MAX ==> cursor_begin == start) && (start > i32::MAX ==> cursor_begin == 0) && (end <= i32::MAX ==> cursor_end == end) && (end > i32::MAX ==> cursor_end == 0),
    {
        let (start, end) = match cursor {
            CursorPosition::Hidden => (-1i32, -1i32),
            CursorPosition::Visible { start, end } => (offset_to_i32(start), offset_to_i32(end)),
        };
        Request::SetPreeditString { text, cursor_begin: start, cursor_end: end }
    }

    /// The request that commits a string.
    pub fn commit_string(&self, text: String) -> (r: Request)
        ensures
            r == (Request::CommitString { text }),
    {
        Request::CommitString { text }
    }

    /// The request that deletes text around the cursor.
    pub fn delete_surrounding_text(&self, before_length: u32, after_length: u32) -> (r: Request)
        ensures
            r == (Request::DeleteSurroundingText { before_length, after_length }),
    {
        Request::DeleteSurroundingText { before_length, after_length }
    }

    /// The request that applies the pending requests, acknowledging the state of the
    /// last `done` event by its serial.
    pub fn commit(&self, data: &InputMethodDataInner) -> (r: Request)
        ensures
            r == (Request::Commit { serial: data@.serial }),
    {
        Request::Commit { serial: data.serial() }
    }

    /// Applies one event of the compositor to the state, and says what the handler is to
    /// be told.
    pub fn event(data: &mut InputMethodDataInner, event: Event) -> (action: Action)
        ensures
            final(data)@ == next_data(old(data)@, event),
            action == action_of(event),
            event matches Event::SurroundingText { text, cursor, anchor } ==> final(data)@.pending_state.surrounding.text == text@ && final(data)@.pending_state.surrounding.cursor == cursor && final(data)@.pending_state.surrounding.anchor == anchor,
            event matches Event::TextChangeCause { cause: WEnum::Value(c) } ==> final(data)@.pending_state.text_change_cause == c,
            event matches Event::TextChangeCause { cause: WEnum::Unknown(_) } ==> final(data)@.pending_state.text_change_cause == ChangeCause::Other,
            event matches Event::ContentType { hint: WEnum::Value(h), .. } ==> final(data)@.pending_state.content_hint == h.bits,
            event matches Event::ContentType { hint: WEnum::Unknown(v), .. } ==> final(data)@.pending_state.content_hint == v & KNOWN_CONTENT_HINT_BITS,
            event matches Event::ContentType { purpose: WEnum::Value(p), .. } ==> final(data)@.pending_state.content_purpose == p,
            event matches Event::ContentType { purpose: WEnum::Unknown(_), .. } ==> final(data)@.pending_state.content_purpose == ContentPurpose::Normal,
    {
        match event {
            Event::Activate => {
                let active = data.pending_state.active.with_active();
                let mut pending = InputMethodEventState::default();
                pending.active = active;
                data.pending_state = pending;
                Action::Nothing
            },
            Event::Deactivate => {
                data.pending_state = InputMethodEventState::default();
                Action::Nothing
            },
            Event::SurroundingText { text, cursor, anchor } => {
                data.pending_state.active = data.pending_state.active.with_surrounding_text();
                data.pending_state.surrounding = SurroundingText { text, cursor, anchor };
                Action::Nothing
            },
            Event::TextChangeCause { cause } => {
                data.pending_state.text_change_cause = match cause {
                    WEnum::Value(cause) => cause,
                    WEnum::Unknown(_) => ChangeCause::Other,
                };
                Action::Nothing
            },
            Event::ContentType { hint, purpose } => {
                data.pending_state.active = data.pending_state.active.with_content_type();
                data.pending_state.content_hint = match hint {
                    WEnum::Value(hint) => hint,
                    WEnum::Unknown(value) => ContentHint::from_bits_truncate(value),
                };
                data.pending_state.content_purpose = match purpose {
                    WEnum::Value(purpose) => purpose,
                    WEnum::Unknown(_) => ContentPurpose::Normal,
                };
                Action::Nothing
            },
            Event::Done => {
                data.pending_state.active = data.pending_state.active.with_done();
                data.current_state = data.pending_state.clone();
                data.serial = data.serial.wrapping_add(1);
                Action::HandleDone
            },
            Event::Unavailable => Action::HandleUnavailable,
        }
    }
}

/// The state after a sequence of events, applied in order.
pub open spec fn run(s: InputMethodDataView, events: Seq<Event>) -> InputMethodDataView
    decreases events.len(),
{
    if events.len() == 0 {
        s
    } else {
        run(next_data(s, events[0]), events.drop_first())
    }
}

/// The number of `done` events in a sequence of events.
pub open spec fn done_count(events: Seq<Event>) -> nat
    decreases events.len(),
{
    if events.len() == 0 {
        0
    } else {
        (if events[0] is Done { 1nat } else { 0nat }) + done_count(events.drop_first())
    }
}

/// State is double-buffered: no event but `done` changes the current state or the serial.
pub proof fn lemma_only_done_publishes(s: InputMethodDataView, event: Event)
    requires
        !(event is Done),
    ensures
        next_data(s, event).current_state == s.current_state,
        next_data(s, event).serial == s.serial,
{
}

/// `done` closes the negotiation of the pending state, makes it the current state, counts
/// one more serial, and reports the state to the handler.
pub proof fn lemma_done_publishes_pending(s: InputMethodDataView)
    ensures
        next_data(s, Event::Done).current_state == next_data(s, Event::Done).pending_state,
        next_data(s, Event::Done).pending_state == (EventStateView {
            active: s.pending_state.active.after_done(),
            ..s.pending_state
        }),
        next_data(s, Event::Done).serial == next_serial(s.serial),
        action_of(Event::Done) == Action::HandleDone,
{
}

/// The current state is never in the middle of a negotiation: a new object starts
/// inactive, and every event keeps it so.
pub proof fn lemma_current_never_negotiating(s: InputMethodDataView, event: Event)
    requires
        !(s.current_state.active is NegotiatingCapabilities),
    ensures
        !(initial_data().current_state.active is NegotiatingCapabilities),
        !(next_data(s, event).current_state.active is NegotiatingCapabilities),
{
}

/// Deactivation forgets everything received since the last `done` and resets the
/// pending state to the default.
pub proof fn lemma_deactivate_resets_pending(s: InputMethodDataView)
    ensures
        next_data(s, Event::Deactivate) == (InputMethodDataView {
            pending_state: default_event_state(),
            ..s
        }),
{
}

/// Activation resets the pending state to the default, except that the negotiation goes on
/// from where it stood.
pub proof fn lemma_activate_resets_pending(s: InputMethodDataView)
    ensures
        next_data(s, Event::Activate).pending_state == (EventStateView {
            active: s.pending_state.active.after_activate(),
            ..default_event_state()
        }),
{
}

/// `unavailable` changes no state and is reported to the handler.
pub proof fn lemma_unavailable_changes_nothing(s: InputMethodDataView)
    ensures
        next_data(s, Event::Unavailable) == s,
        action_of(Event::Unavailable) == Action::HandleUnavailable,
{
}

/// Values the protocol does not name fall back: an unknown change cause is `Other`, an
/// unknown purpose is `Normal`, and of unknown hint bits only the named flags are kept.
pub proof fn lemma_unknown_values_fall_back(cause: u32, purpose: u32, hint: u32)
    ensures
        cause_of(WEnum::Unknown(cause)) == ChangeCause::Other,
        purpose_of(WEnum::Unknown(purpose)) == ContentPurpose::Normal,
        hint_of(WEnum::Unknown(hint)) == hint & KNOWN_CONTENT_HINT_BITS,
        hint_of(WEnum::Unknown(hint)) & !KNOWN_CONTENT_HINT_BITS == 0,
{
    assert((hint & 0x1fffu32) & !0x1fffu32 == 0) by (bit_vector);
}

/// The serial that a commit acknowledges counts the `done` events received, modulo 2^32.
pub proof fn lemma_serial_counts_done_events(s: InputMethodDataView, events: Seq<Event>)
    ensures
        run(s, events).serial as int == (s.serial as int + done_count(events)) % 0x1_0000_0000,
    decreases events.len(),
{
    if events.len() > 0 {
        let t = next_data(s, events[0]);
        lemma_serial_counts_done_events(t, events.drop_first());
        let d = done_count(events.drop_first()) as int;
        if events[0] is Done {
            assert(t.serial as int == (s.serial as int + 1) % 0x1_0000_0000);
            assert((((s.serial as int + 1) % 0x1_0000_0000) + d) % 0x1_0000_0000
                == (s.serial as int + 1 + d) % 0x1_0000_0000) by {
                vstd::arithmetic::div_mod::lemma_add_mod_noop(s.serial as int + 1, d, 0x1_0000_0000);
                vstd::arithmetic::div_mod::lemma_mod_twice(s.serial as int + 1, 0x1_0000_0000);
                vstd::arithmetic::div_mod::lemma_add_mod_noop((s.serial as int + 1) % 0x1_0000_0000, d, 0x1_0000_0000);
            }
        }
    } else {
        assert(s.serial as int % 0x1_0000_0000 == s.serial as int) by {
            vstd::arithmetic::div_mod::lemma_small_mod(s.serial as nat, 0x1_0000_0000);
        }
    }
}

/// Surrounding text is recorded as sent: its text, cursor and anchor replace the pending
/// ones, and nothing but the negotiation and the surrounding text changes.
pub proof fn lemma_surrounding_text_recorded(s: InputMethodDataView, text: String, cursor: u32, anchor: u32)
    ensures
        ({
            let t = next_data(s, Event::SurroundingText { text, cursor, anchor });
            &&& t.pending_state.surrounding.text == text@
            &&& t.pending_state.surrounding.cursor == cursor
            &&& t.pending_state.surrounding.anchor == anchor
            &&& t.pending_state.content_hint == s.pending_state.content_hint
            &&& t.pending_state.content_purpose == s.pending_state.content_purpose
            &&& t.pending_state.text_change_cause == s.pending_state.text_change_cause
        }),
{
}

/// A change cause the protocol names is recorded as sent, whatever cause was pending.
pub proof fn lemma_change_cause_recorded(s: InputMethodDataView, c: ChangeCause)
    ensures
        cause_of(WEnum::Value(c)) == c,
        next_data(s, Event::TextChangeCause { cause: WEnum::Value(c) }).pending_state.text_change_cause == c,
{
}

/// A content type replaces the pending one: the pending hint becomes exactly the hint
/// the event carries (truncated to the named flags when unknown), and a purpose the
/// protocol names is recorded as sent, whatever hint and purpose were pending before.
pub proof fn lemma_content_type_replaces(
    s: InputMethodDataView,
    hint: WEnum<ContentHint>,
    purpose: WEnum<ContentPurpose>,
    h: ContentHint,
    p: ContentPurpose,
    v: u32,
)
    ensures
        hint == WEnum::Value(h) ==> next_data(s, Event::ContentType { hint, purpose }).pending_state.content_hint == h.bits,
        hint == WEnum::<ContentHint>::Unknown(v) ==> next_data(s, Event::ContentType { hint, purpose }).pending_state.content_hint == v & KNOWN_CONTENT_HINT_BITS,
        purpose == WEnum::Value(p) ==> next_data(s, Event::ContentType { hint, purpose }).pending_state.content_purpose == p,
        next_data(s, Event::ContentType { hint, purpose }).pending_state.surrounding == s.pending_state.surrounding,
        next_data(s, Event::ContentType { hint, purpose }).pending_state.text_change_cause == s.pending_state.text_change_cause,
{
}

/// A visible cursor whose offsets fit an `i32` is sent as those offsets; a hidden cursor is
/// sent as `(-1, -1)`, which no visible cursor is sent as.
pub proof fn lemma_preedit_cursor_offsets(start: usize, end: usize)
    ensures
        start <= i32::MAX ==> preedit_cursor_range(CursorPosition::Visible { start, end }).0 == start,
        end <= i32::MAX ==> preedit_cursor_range(CursorPosition::Visible { start, end }).1 == end,
        preedit_cursor_range(CursorPosition::Visible { start, end }).0 >= 0,
        preedit_cursor_range(CursorPosition::Visible { start, end }).1 >= 0,
        preedit_cursor_range(CursorPosition::Hidden) == (-1i32, -1i32),
{
}

} // verus!
