use vstd::prelude::*;
use crate::text_input::{ChangeCause, ContentHint, ContentPurpose};

verus! {

/// State machine for determining the capabilities of a text input.
///
/// A text input starts `Inactive`. Activation starts a negotiation, during which the
/// compositor announces whether the text input supports surrounding text and content
/// types; the next `done` closes the negotiation and the capabilities stay fixed from
/// then on.
#[derive(Clone, Copy, Debug, PartialEq, Eq, Structural)]
pub enum Active {
    Inactive,
    NegotiatingCapabilities { surrounding_text: bool, content_type: bool },
    Active { surrounding_text: bool, content_type: bool },
}

impl Active {
    /// The state after the text input is activated.
    pub open spec fn after_activate(self) -> Active {
        match self {
            Active::Inactive => Active::NegotiatingCapabilities {
                surrounding_text: false,
                content_type: false,
            },
            other => other,
        }
    }

    /// The state after the compositor sends surrounding text.
    pub open spec fn after_surrounding_text(self) -> Active {
        match self {
            Active::NegotiatingCapabilities { content_type, .. } => {
                Active::NegotiatingCapabilities { surrounding_text: true, content_type }
            },
            other => other,
        }
    }

    /// The state after the compositor sends a content type.
    pub open spec fn after_content_type(self) -> Active {
        match self {
            Active::NegotiatingCapabilities { surrounding_text, .. } => {
                Active::NegotiatingCapabilities { surrounding_text, content_type: true }
            },
            other => other,
        }
    }

    /// The state after a `done` event.
    pub open spec fn after_done(self) -> Active {
        match self {
            Active::NegotiatingCapabilities { surrounding_text, content_type } => {
                Active::Active { surrounding_text, content_type }
            },
            other => other,
        }
    }

    pub fn with_active(self) -> (r: Active)
        ensures
            r == self.after_activate(),
    {
        match self {
            Active::Inactive => Active::NegotiatingCapabilities {
                content_type: false,
                surrounding_text: false,
            },
            other => other,
        }
    }

    pub fn with_surrounding_text(self) -> (r: Active)
        ensures
            r == self.after_surrounding_text(),
    {
        match self {
            Active::Inactive => Active::Inactive,
            Active::NegotiatingCapabilities { content_type, .. } => {
                Active::NegotiatingCapabilities { content_type, surrounding_text: true }
            },
            Active::Active { surrounding_text, content_type } => Active::Active {
                surrounding_text,
                content_type,
            },
        }
    }

    pub fn with_content_type(self) -> (r: Active)
        ensures
            r == self.after_content_type(),
    {
        match self {
            Active::Inactive => Active::Inactive,
            Active::NegotiatingCapabilities { surrounding_text, .. } => {
                Active::NegotiatingCapabilities { content_type: true, surrounding_text }
            },
            Active::Active { surrounding_text, content_type } => Active::Active {
                surrounding_text,
                content_type,
            },
        }
    }

    pub fn with_done(self) -> (r: Active)
        ensures
            r == self.after_done(),
    {
        match self {
            Active::Inactive => Active::Inactive,
            Active::NegotiatingCapabilities { surrounding_text, content_type } => {
                Active::Active { content_type, surrounding_text }
            },
            Active::Active { surrounding_text, content_type } => Active::Active {
                surrounding_text,
                content_type,
            },
        }
    }
}

impl Default for Active {
    fn default() -> (r: Active)
        ensures
            r == Active::Inactive,
    {
        Active::Inactive
    }
}

/// Only activation leaves the inactive state: an inactive text input stays inactive under
/// surrounding text, content type and `done`.
pub proof fn lemma_inactive_ignores_all_but_activation()
    ensures
        Active::Inactive.after_surrounding_text() == Active::Inactive,
        Active::Inactive.after_content_type() == Active::Inactive,
        Active::Inactive.after_done() == Active::Inactive,
{
}

/// Once negotiated, capabilities are fixed: every transition leaves an `Active` state as it is.
pub proof fn lemma_active_is_stable(surrounding_text: bool, content_type: bool)
    ensures
        ({
            let a = Active::Active { surrounding_text, content_type };
            &&& a.after_activate() == a
            &&& a.after_surrounding_text() == a
            &&& a.after_content_type() == a
            &&& a.after_done() == a
        }),
{
}

/// Activation always leaves the inactive state, and starts the negotiation with no
/// capability announced.
pub proof fn lemma_activation_starts_negotiation(a: Active)
    ensures
        !(a.after_activate() is Inactive),
        a is Inactive ==> a.after_activate() == (Active::NegotiatingCapabilities {
            surrounding_text: false,
            content_type: false,
        }),
{
}

/// `done` never leaves a negotiation open, and the capabilities announced during the
/// negotiation are the ones that become active.
pub proof fn lemma_done_closes_negotiation(a: Active)
    ensures
        !(a.after_done() is NegotiatingCapabilities),
        a matches Active::NegotiatingCapabilities { surrounding_text, content_type } ==> a.after_done()
            == (Active::Active { surrounding_text, content_type }),
{
}

/// Every transition is idempotent: announcing a capability, activating or closing the
/// negotiation twice is the same as doing it once.
pub proof fn lemma_transitions_idempotent(a: Active)
    ensures
        a.after_activate().after_activate() == a.after_activate(),
        a.after_surrounding_text().after_surrounding_text() == a.after_surrounding_text(),
        a.after_content_type().after_content_type() == a.after_content_type(),
        a.after_done().after_done() == a.after_done(),
{
}

/// The order in which surrounding text and content type are announced does not matter.
pub proof fn lemma_announcements_commute(a: Active)
    ensures
        a.after_surrounding_text().after_content_type() == a.after_content_type().after_surrounding_text(),
{
}

/// A capability is active only if it was announced during the negotiation: from a fresh
/// activation, closing at once enables neither capability, and announcing both enables both.
pub proof fn lemma_capabilities_follow_announcements()
    ensures
        Active::Inactive.after_activate().after_done() == (Active::Active {
            surrounding_text: false,
            content_type: false,
        }),
        Active::Inactive.after_activate().after_surrounding_text().after_content_type().after_done()
            == (Active::Active { surrounding_text: true, content_type: true }),
{
}

/// The text around the cursor of the focused text input, with cursor and anchor as byte
/// offsets into it.
#[derive(Debug, PartialEq)]
pub struct SurroundingText {
    pub text: String,
    pub cursor: u32,
    pub anchor: u32,
}

/// The mathematical model of [`SurroundingText`].
pub struct SurroundingTextView {
    pub text: Seq<char>,
    pub cursor: u32,
    pub anchor: u32,
}

impl View for SurroundingText {
    type V = SurroundingTextView;

    open spec fn view(&self) -> SurroundingTextView {
        SurroundingTextView { text: self.text@, cursor: self.cursor, anchor: self.anchor }
    }
}

/// No surrounding text: an empty text with cursor and anchor at its start.
pub open spec fn default_surrounding_text() -> SurroundingTextView {
    SurroundingTextView { text: Seq::empty(), cursor: 0, anchor: 0 }
}

impl Default for SurroundingText {
    fn default() -> (r: SurroundingText)
        ensures
            r@ == default_surrounding_text(),
    {
        SurroundingText { text: String::new(), cursor: 0, anchor: 0 }
    }
}

impl Clone for SurroundingText {
    fn clone(&self) -> (r: SurroundingText)
        ensures
            r == *self,
    {
        SurroundingText { text: self.text.clone(), cursor: self.cursor, anchor: self.anchor }
    }
}

/// Stores incoming interface state.
#[derive(Debug, PartialEq)]
pub struct InputMethodEventState {
    pub surrounding: SurroundingText,
    pub content_purpose: ContentPurpose,
    pub content_hint: ContentHint,
    pub text_change_cause: ChangeCause,
    pub active: Active,
}

/// The mathematical model of [`InputMethodEventState`]; the content hint is its bits.
pub struct EventStateView {
    pub surrounding: SurroundingTextView,
    pub content_purpose: ContentPurpose,
    pub content_hint: u32,
    pub text_change_cause: ChangeCause,
    pub active: Active,
}

impl View for InputMethodEventState {
    type V = EventStateView;

    open spec fn view(&self) -> EventStateView {
        EventStateView {
            surrounding: self.surrounding@,
            content_purpose: self.content_purpose,
            content_hint: self.content_hint.bits,
            text_change_cause: self.text_change_cause,
            active: self.active,
        }
    }
}

/// The state before the compositor has said anything: no surrounding text, normal
/// purpose, no hint, changes caused by the input method, inactive.
pub open spec fn default_event_state() -> EventStateView {
    EventStateView {
        surrounding: default_surrounding_text(),
        content_purpose: ContentPurpose::Normal,
        content_hint: 0,
        text_change_cause: ChangeCause::InputMethod,
        active: Active::Inactive,
    }
}

impl Default for InputMethodEventState {
    fn default() -> (r: InputMethodEventState)
        ensures
            r@ == default_event_state(),
    {
        InputMethodEventState {
            surrounding: SurroundingText::default(),
            content_hint: ContentHint::empty(),
            content_purpose: ContentPurpose::Normal,
            text_change_cause: ChangeCause::InputMethod,
            active: Active::default(),
        }
    }
}

impl Clone for InputMethodEventState {
    fn clone(&self) -> (r: InputMethodEventState)
        ensures
            r == *self,
    {
        InputMethodEventState {
            surrounding: self.surrounding.clone(),
            content_purpose: self.content_purpose,
            content_hint: self.content_hint,
            text_change_cause: self.text_change_cause,
            active: self.active,
        }
    }
}

/// Where the cursor stands in pre-edit text: hidden, or a range of byte offsets.
#[derive(Clone, Copy, Debug, PartialEq, Eq, Structural)]
pub enum CursorPosition {
    Hidden,
    Visible { start: usize, end: usize },
}

/// The rectangle, in surface-local coordinates, where the text input shows its cursor.
#[derive(Clone, Copy, Debug, PartialEq, Eq, Structural)]
pub struct Rectangle {
    pub x: i32,
    pub y: i32,
    pub width: i32,
    pub height: i32,
}

} // verus!
