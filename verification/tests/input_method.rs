use input_method_v3::input_method::{Action, Event, InputMethod, InputMethodDataInner, Request};
use input_method_v3::state::{Active, CursorPosition, InputMethodEventState, Rectangle, SurroundingText};
use input_method_v3::text_input::{ChangeCause, ContentHint, ContentPurpose, WEnum, KNOWN_CONTENT_HINT_BITS};

fn negotiating(surrounding_text: bool, content_type: bool) -> Active {
    Active::NegotiatingCapabilities { surrounding_text, content_type }
}

fn active(surrounding_text: bool, content_type: bool) -> Active {
    Active::Active { surrounding_text, content_type }
}

fn default_state() -> InputMethodEventState {
    InputMethodEventState {
        surrounding: SurroundingText { text: String::new(), cursor: 0, anchor: 0 },
        content_purpose: ContentPurpose::Normal,
        content_hint: ContentHint { bits: 0 },
        text_change_cause: ChangeCause::InputMethod,
        active: Active::Inactive,
    }
}

#[test]
fn test_valid_assignment() {
    // Every kind of event the input method object receives is dispatched to its state.
    let mut data = InputMethodDataInner::new();
    let events = vec![
        Event::Activate,
        Event::SurroundingText { text: String::from("hello"), cursor: 5, anchor: 5 },
        Event::TextChangeCause { cause: WEnum::Value(ChangeCause::Other) },
        Event::ContentType {
            hint: WEnum::Value(ContentHint { bits: 0x2 }),
            purpose: WEnum::Value(ContentPurpose::Email),
        },
        Event::Done,
        Event::Deactivate,
        Event::Unavailable,
    ];
    let mut actions = Vec::new();
    for event in events {
        actions.push(InputMethod::event(&mut data, event));
    }
    assert_eq!(
        actions,
        vec![
            Action::Nothing,
            Action::Nothing,
            Action::Nothing,
            Action::Nothing,
            Action::HandleDone,
            Action::Nothing,
            Action::HandleUnavailable,
        ]
    );
    let expected_current = InputMethodEventState {
        surrounding: SurroundingText { text: String::from("hello"), cursor: 5, anchor: 5 },
        content_purpose: ContentPurpose::Email,
        content_hint: ContentHint { bits: 0x2 },
        text_change_cause: ChangeCause::Other,
        active: active(true, true),
    };
    assert_eq!(data.current_state(), &expected_current);
    assert_eq!(data.pending_state(), &default_state());
    assert_eq!(data.serial(), 1);
}

#[test]
fn new_data_is_default() {
    let data = InputMethodDataInner::new();
    assert_eq!(data.pending_state(), &default_state());
    assert_eq!(data.current_state(), &default_state());
    assert_eq!(data.serial(), 0);
    assert_eq!(InputMethodEventState::default(), default_state());
    assert_eq!(Active::default(), Active::Inactive);
    assert_eq!(
        SurroundingText::default(),
        SurroundingText { text: String::new(), cursor: 0, anchor: 0 }
    );
    assert_eq!(ContentHint::empty(), ContentHint { bits: 0 });
}

#[test]
fn active_with_active() {
    assert_eq!(Active::Inactive.with_active(), negotiating(false, false));
    assert_eq!(negotiating(true, false).with_active(), negotiating(true, false));
    assert_eq!(active(false, true).with_active(), active(false, true));
}

#[test]
fn active_with_surrounding_text() {
    assert_eq!(Active::Inactive.with_surrounding_text(), Active::Inactive);
    assert_eq!(negotiating(false, true).with_surrounding_text(), negotiating(true, true));
    assert_eq!(active(false, false).with_surrounding_text(), active(false, false));
}

#[test]
fn active_with_content_type() {
    assert_eq!(Active::Inactive.with_content_type(), Active::Inactive);
    assert_eq!(negotiating(true, false).with_content_type(), negotiating(true, true));
    assert_eq!(active(false, false).with_content_type(), active(false, false));
}

#[test]
fn active_with_done() {
    assert_eq!(Active::Inactive.with_done(), Active::Inactive);
    assert_eq!(negotiating(true, false).with_done(), active(true, false));
    assert_eq!(active(false, true).with_done(), active(false, true));
}

#[test]
fn active_transitions_idempotent_and_commuting() {
    for a in [Active::Inactive, negotiating(false, true), active(true, false)] {
        assert_eq!(a.with_active().with_active(), a.with_active());
        assert_eq!(a.with_done().with_done(), a.with_done());
        assert_eq!(
            a.with_surrounding_text().with_content_type(),
            a.with_content_type().with_surrounding_text()
        );
    }
}

#[test]
fn preedit_hidden_cursor() {
    let r = InputMethod.set_preedit_string(String::from("abc"), CursorPosition::Hidden);
    assert_eq!(
        r,
        Request::SetPreeditString { text: String::from("abc"), cursor_begin: -1, cursor_end: -1 }
    );
}

#[test]
fn preedit_visible_cursor() {
    let r = InputMethod
        .set_preedit_string(String::from("abc"), CursorPosition::Visible { start: 1, end: 3 });
    assert_eq!(
        r,
        Request::SetPreeditString { text: String::from("abc"), cursor_begin: 1, cursor_end: 3 }
    );
}

#[test]
fn preedit_cursor_out_of_range_is_zero() {
    let r = InputMethod.set_preedit_string(
        String::new(),
        CursorPosition::Visible { start: 2147483647, end: 2147483648 },
    );
    assert_eq!(
        r,
        Request::SetPreeditString { text: String::new(), cursor_begin: 2147483647, cursor_end: 0 }
    );
    let r = InputMethod
        .set_preedit_string(String::new(), CursorPosition::Visible { start: usize::MAX, end: 4 });
    assert_eq!(r, Request::SetPreeditString { text: String::new(), cursor_begin: 0, cursor_end: 4 });
}

#[test]
fn commit_string_and_delete_surrounding_text() {
    assert_eq!(
        InputMethod.commit_string(String::from("word")),
        Request::CommitString { text: String::from("word") }
    );
    assert_eq!(
        InputMethod.delete_surrounding_text(3, 7),
        Request::DeleteSurroundingText { before_length: 3, after_length: 7 }
    );
}

#[test]
fn commit_acknowledges_done_count() {
    let mut data = InputMethodDataInner::new();
    assert_eq!(InputMethod.commit(&data), Request::Commit { serial: 0 });
    InputMethod::event(&mut data, Event::Done);
    InputMethod::event(&mut data, Event::Activate);
    InputMethod::event(&mut data, Event::Done);
    assert_eq!(InputMethod.commit(&data), Request::Commit { serial: 2 });
}

#[test]
fn only_done_publishes() {
    let mut data = InputMethodDataInner::new();
    InputMethod::event(&mut data, Event::Activate);
    InputMethod::event(
        &mut data,
        Event::SurroundingText { text: String::from("x"), cursor: 1, anchor: 0 },
    );
    assert_eq!(data.current_state(), &default_state());
    assert_eq!(data.pending_state().active, negotiating(true, false));
    assert_eq!(data.serial(), 0);
    assert_eq!(InputMethod::event(&mut data, Event::Done), Action::HandleDone);
    assert_eq!(data.current_state(), data.pending_state());
    assert_eq!(data.current_state().active, active(true, false));
    assert_eq!(data.current_state().surrounding.text, "x");
}

#[test]
fn unknown_values_fall_back() {
    let mut data = InputMethodDataInner::new();
    InputMethod::event(&mut data, Event::TextChangeCause { cause: WEnum::Unknown(7) });
    InputMethod::event(
        &mut data,
        Event::ContentType { hint: WEnum::Unknown(0xffff_e402), purpose: WEnum::Unknown(99) },
    );
    let pending = data.pending_state();
    assert_eq!(pending.text_change_cause, ChangeCause::Other);
    assert_eq!(pending.content_purpose, ContentPurpose::Normal);
    assert_eq!(pending.content_hint.bits, 0x402);
}

#[test]
fn content_hint_truncation_keeps_named_flags() {
    assert_eq!(ContentHint::from_bits_truncate(0xffff_ffff), ContentHint { bits: 0x1fff });
    assert_eq!(ContentHint::from_bits_truncate(0x2000), ContentHint { bits: 0 });
    assert_eq!(ContentHint::from_bits_truncate(0x8000_1201), ContentHint { bits: 0x1201 });
    assert_eq!(KNOWN_CONTENT_HINT_BITS, 0x1fff);
}

#[test]
fn deactivate_resets_pending_only() {
    let mut data = InputMethodDataInner::new();
    InputMethod::event(&mut data, Event::Activate);
    InputMethod::event(&mut data, Event::Done);
    InputMethod::event(
        &mut data,
        Event::ContentType {
            hint: WEnum::Value(ContentHint { bits: 0x80 }),
            purpose: WEnum::Value(ContentPurpose::Password),
        },
    );
    InputMethod::event(&mut data, Event::Deactivate);
    assert_eq!(data.pending_state(), &default_state());
    assert_eq!(data.current_state().active, active(false, false));
    assert_eq!(data.serial(), 1);
    InputMethod::event(&mut data, Event::Done);
    assert_eq!(data.current_state(), &default_state());
    assert_eq!(data.serial(), 2);
}

#[test]
fn activate_keeps_negotiation_and_resets_the_rest() {
    let mut data = InputMethodDataInner::new();
    InputMethod::event(&mut data, Event::Activate);
    InputMethod::event(&mut data, Event::TextChangeCause { cause: WEnum::Value(ChangeCause::Other) });
    InputMethod::event(
        &mut data,
        Event::ContentType {
            hint: WEnum::Value(ContentHint { bits: 0x1 }),
            purpose: WEnum::Value(ContentPurpose::Digits),
        },
    );
    InputMethod::event(&mut data, Event::Activate);
    let mut expected = default_state();
    expected.active = negotiating(false, true);
    assert_eq!(data.pending_state(), &expected);
}

#[test]
fn unavailable_changes_nothing() {
    let mut data = InputMethodDataInner::new();
    InputMethod::event(&mut data, Event::Activate);
    assert_eq!(InputMethod::event(&mut data, Event::Unavailable), Action::HandleUnavailable);
    assert_eq!(data.pending_state().active, negotiating(false, false));
    assert_eq!(data.current_state(), &default_state());
    assert_eq!(data.serial(), 0);
}

#[test]
fn event_state_clone_is_equal() {
    let state = InputMethodEventState {
        surrounding: SurroundingText { text: String::from("t"), cursor: 1, anchor: 1 },
        content_purpose: ContentPurpose::Terminal,
        content_hint: ContentHint { bits: 0x200 },
        text_change_cause: ChangeCause::Other,
        active: active(true, true),
    };
    assert_eq!(state.clone(), state);
}

#[test]
fn rectangle_holds_its_fields() {
    let r = Rectangle { x: 1, y: -2, width: 30, height: 40 };
    assert_eq!((r.x, r.y, r.width, r.height), (1, -2, 30, 40));
}
