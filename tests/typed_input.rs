use yew_tincture::components::typed_input::{
    FocusIds, FocusState, ModifyError, Msg, RawAndParsed, TypedInput, TypedInputStorage,
};
use yew_tincture::components::TypedInputParseError;

fn text(s: &str) -> Msg {
    Msg::NewValue(s.to_string())
}

#[test]
fn raw_and_parsed_from_raw_parses_the_text() {
    let good = RawAndParsed::<i64>::from_raw("12".to_string());
    assert_eq!(good.raw_value(), "12");
    assert_eq!(good.parsed(), Ok(12));
    let negative = RawAndParsed::<i64>::from_raw("-305".to_string());
    assert_eq!(negative.parsed(), Ok(-305));
    let bad = RawAndParsed::<i64>::from_raw("12x".to_string());
    assert_eq!(bad.raw_value(), "12x");
    assert_eq!(bad.parsed(), Err(TypedInputParseError {}));
}

#[test]
fn raw_and_parsed_empty_fails_for_numbers() {
    let empty = RawAndParsed::<i64>::empty();
    assert_eq!(empty.raw_value(), "");
    assert_eq!(empty.parsed(), Err(TypedInputParseError {}));
}

#[test]
fn raw_and_parsed_from_initial_formats_the_value() {
    let r = RawAndParsed::<i64>::from_initial(-7);
    assert_eq!(r.raw_value(), "-7");
    assert_eq!(r.parsed(), Ok(-7));
    let copy = r.clone();
    assert_eq!(copy.raw_value(), "-7");
    assert_eq!(copy.parsed(), Ok(-7));
}

#[test]
fn storage_from_initial_holds_the_value() {
    let mut ids = FocusIds::new();
    let s = TypedInputStorage::<i64>::from_initial(&mut ids, 42);
    assert_eq!(s.get(), Ok(42));
    assert_eq!(s.parsed(), Ok(42));
    assert_eq!(s.raw_value(), "42");
    assert!(!s.is_focused());
    assert!(!s.is_linked());
    assert_eq!(s.focus_state().state(), FocusState::IsBlurred);
}

#[test]
fn storage_empty_keeps_the_failed_parse() {
    let mut ids = FocusIds::new();
    let s = TypedInputStorage::<i64>::empty(&mut ids);
    assert_eq!(s.raw_value(), "");
    assert_eq!(s.get(), Err(TypedInputParseError {}));
}

#[test]
fn set_if_not_focused_waits_for_blur() {
    let mut ids = FocusIds::new();
    let mut s = TypedInputStorage::<i64>::empty(&mut ids);
    let mut field = TypedInput::create(&mut s);
    field.update(&mut s, Msg::OnFocus);
    assert!(s.is_focused());
    s.set_if_not_focused(42);
    assert_eq!(s.get(), Err(TypedInputParseError {}));
    assert_eq!(s.raw_value(), "");
    field.update(&mut s, Msg::OnBlur);
    s.set_if_not_focused(42);
    assert_eq!(s.get(), Ok(42));
    assert_eq!(s.raw_value(), "42");
}

#[test]
fn modify_goes_through_the_field() {
    let mut ids = FocusIds::new();
    let mut s = TypedInputStorage::<i64>::from_initial(&mut ids, 5);
    let mut field = TypedInput::create(&mut s);
    assert!(s.is_linked());
    let msg = s.modify(|v| v * 2).unwrap();
    assert!(matches!(&msg, Msg::NewValue(raw) if raw == "10"));
    // nothing changes before the field handles the message
    assert_eq!(s.get(), Ok(5));
    let out = field.update(&mut s, msg);
    assert_eq!(s.get(), Ok(10));
    assert_eq!(s.raw_value(), "10");
    assert_eq!(field.raw_value(), "10");
    let changed = out.input_changed.expect("one input change");
    assert_eq!(changed.raw_value(), "10");
    assert_eq!(changed.parsed(), Ok(10));
    assert!(out.commit.is_none());
    assert!(out.render);
}

#[test]
fn modify_refuses_an_invalid_value() {
    let mut ids = FocusIds::new();
    let mut s = TypedInputStorage::<i64>::empty(&mut ids);
    let mut field = TypedInput::create(&mut s);
    field.update(&mut s, text("abc"));
    let r = s.modify(|v| v + 1);
    assert!(matches!(r, Err(ModifyError::NotCurrentlyValid)));
    assert_eq!(s.raw_value(), "abc");
    assert_eq!(s.get(), Err(TypedInputParseError {}));
}

#[test]
fn keystrokes_report_changes_and_never_commit() {
    let mut ids = FocusIds::new();
    let mut s = TypedInputStorage::<i64>::empty(&mut ids);
    let mut field = TypedInput::create(&mut s);
    field.update(&mut s, Msg::OnFocus);
    let expected = [("1", Ok(1)), ("12", Ok(12)), ("12x", Err(TypedInputParseError {}))];
    for (raw, parsed) in expected {
        let out = field.update(&mut s, text(raw));
        let changed = out.input_changed.expect("an input change");
        assert_eq!(changed.raw_value(), raw);
        assert_eq!(changed.parsed(), parsed);
        assert!(out.commit.is_none());
        assert!(out.render);
    }
}

#[test]
fn blur_after_invalid_text_does_not_commit() {
    let mut ids = FocusIds::new();
    let mut s = TypedInputStorage::<i64>::empty(&mut ids);
    let mut field = TypedInput::create(&mut s);
    field.update(&mut s, Msg::OnFocus);
    field.update(&mut s, text("1"));
    field.update(&mut s, text("12"));
    field.update(&mut s, text("12x"));
    let out = field.update(&mut s, Msg::OnBlur);
    assert!(out.commit.is_none());
    assert!(out.input_changed.is_none());
    assert!(!s.is_focused());
}

#[test]
fn blur_after_valid_text_commits() {
    let mut ids = FocusIds::new();
    let mut s = TypedInputStorage::<i64>::empty(&mut ids);
    let mut field = TypedInput::create(&mut s);
    field.update(&mut s, Msg::OnFocus);
    field.update(&mut s, text("1"));
    field.update(&mut s, text("12"));
    let out = field.update(&mut s, Msg::OnBlur);
    assert_eq!(out.commit, Some(12));
    assert!(out.render);
}

#[test]
fn commit_request_keeps_focus() {
    let mut ids = FocusIds::new();
    let mut s = TypedInputStorage::<i64>::empty(&mut ids);
    let mut field = TypedInput::create(&mut s);
    field.update(&mut s, Msg::OnFocus);
    field.update(&mut s, text("30"));
    let out = field.update(&mut s, Msg::SendValueIfValid);
    assert_eq!(out.commit, Some(30));
    assert!(!out.render);
    assert!(s.is_focused());
    field.update(&mut s, text("3o"));
    let out = field.update(&mut s, Msg::SendValueIfValid);
    assert!(out.commit.is_none());
    let out = field.update(&mut s, Msg::Ignore);
    assert!(!out.render);
    assert!(out.commit.is_none());
    assert!(out.input_changed.is_none());
    assert_eq!(s.raw_value(), "3o");
}

#[test]
fn field_starts_with_the_storage_text() {
    let mut ids = FocusIds::new();
    let mut s = TypedInputStorage::<i64>::from_initial(&mut ids, 8);
    let field = TypedInput::create(&mut s);
    assert_eq!(field.raw_value(), "8");
    assert_eq!(TypedInput::input_class(&s), "valid-input");
    let e = TypedInputStorage::<i64>::empty(&mut ids);
    assert_eq!(TypedInput::input_class(&e), "invalid-input");
}

#[test]
fn independent_empty_storages_are_never_equal() {
    let mut ids = FocusIds::new();
    let a = TypedInputStorage::<i64>::empty(&mut ids);
    let b = TypedInputStorage::<i64>::empty(&mut ids);
    assert_eq!(a.raw_value(), b.raw_value());
    assert!(a != b);
    assert!(a.focus_state().id() != b.focus_state().id());
}

#[test]
fn storage_equality_is_cell_and_text() {
    let mut ids = FocusIds::new();
    let mut a = TypedInputStorage::<i64>::empty(&mut ids);
    let b = TypedInputStorage::<i64>::empty(&mut ids);
    assert!(a == a);
    assert!(a != b);
    let mut field = TypedInput::create(&mut a);
    field.update(&mut a, text("4"));
    assert!(a == a);
    assert!(ids.has_room());
}

#[test]
fn field_takes_over_a_pushed_value() {
    let mut ids = FocusIds::new();
    let mut s = TypedInputStorage::<i64>::from_initial(&mut ids, 1);
    let mut field = TypedInput::create(&mut s);
    s.set_if_not_focused(77);
    assert_eq!(field.raw_value(), "1");
    field.sync(&s);
    assert_eq!(field.raw_value(), "77");
}

#[test]
fn modify_of_an_invalid_value_needs_no_field() {
    let mut ids = FocusIds::new();
    let mut s = TypedInputStorage::<i64>::empty(&mut ids);
    assert!(matches!(s.modify(|v| v + 1), Err(ModifyError::NotCurrentlyValid)));
    assert_eq!(s.raw_value(), "");
    assert!(!s.is_linked());
}
