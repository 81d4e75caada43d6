use fcd::input::{Answer, InputEvent, InputState, MAX_MAGNITUDE};

fn feed(s: &mut InputState, events: &[InputEvent]) -> Vec<Answer> {
    let mut out = Vec::new();
    for e in events {
        if let Some(a) = s.apply(*e) {
            out.push(a);
        }
    }
    out
}

fn text(s: &InputState) -> String {
    s.render().into_iter().collect()
}

#[test]
fn digits_then_submit_give_decimal_value() {
    let mut s = InputState::new();
    let answers = feed(
        &mut s,
        &[InputEvent::Digit(1), InputEvent::Digit(2), InputEvent::Digit(3), InputEvent::Submit],
    );
    assert_eq!(answers, vec![Answer(123)]);
    assert_eq!(s, InputState::new());
}

#[test]
fn overflowing_digit_is_ignored() {
    let mut s = InputState::new();
    feed(
        &mut s,
        &[InputEvent::Digit(6), InputEvent::Digit(5), InputEvent::Digit(5), InputEvent::Digit(3)],
    );
    let before = s;
    feed(&mut s, &[InputEvent::Digit(6)]);
    assert_eq!(s, before);
    feed(&mut s, &[InputEvent::Digit(5)]);
    assert_eq!(s.magnitude, MAX_MAGNITUDE);
    let answers = feed(&mut s, &[InputEvent::Digit(0), InputEvent::Submit]);
    assert_eq!(answers, vec![Answer(65535)]);
}

#[test]
fn negate_then_digits_submit_negative() {
    let mut s = InputState::new();
    let answers = feed(
        &mut s,
        &[InputEvent::Negate, InputEvent::Digit(3), InputEvent::Digit(2), InputEvent::Submit],
    );
    assert_eq!(answers, vec![Answer(-32)]);
}

#[test]
fn backspace_clears_sign_at_zero() {
    let mut s = InputState { magnitude: 0, negative: true, touched: true };
    s.apply(InputEvent::Backspace);
    assert_eq!(s.magnitude, 0);
    assert!(!s.negative);
}

#[test]
fn backspace_drops_last_digit_and_keeps_sign() {
    let mut s = InputState::new();
    feed(&mut s, &[InputEvent::Negate, InputEvent::Digit(4), InputEvent::Digit(7)]);
    s.apply(InputEvent::Backspace);
    assert_eq!(s.value(), -4);
    assert_eq!(text(&s), "-4");
}

#[test]
fn increment_crosses_from_negative_zero() {
    let mut s = InputState { magnitude: 0, negative: true, touched: true };
    s.apply(InputEvent::Increment);
    assert_eq!(s.value(), 1);
}

#[test]
fn decrement_crosses_from_zero() {
    let mut s = InputState { magnitude: 0, negative: false, touched: false };
    s.apply(InputEvent::Decrement);
    assert_eq!(s.value(), -1);
    assert_eq!(text(&s), "-1");
}

#[test]
fn increment_and_decrement_saturate_at_max() {
    let mut s = InputState { magnitude: MAX_MAGNITUDE, negative: false, touched: true };
    s.apply(InputEvent::Increment);
    assert_eq!(s.value(), 65535);
    let mut t = InputState { magnitude: MAX_MAGNITUDE, negative: true, touched: true };
    t.apply(InputEvent::Decrement);
    assert_eq!(t.value(), -65535);
    t.apply(InputEvent::Increment);
    assert_eq!(t.value(), -65534);
}

#[test]
fn untouched_submit_emits_nothing() {
    let mut s = InputState::new();
    assert_eq!(s.apply(InputEvent::Submit), None);
    assert_eq!(text(&s), "");
}

#[test]
fn zero_typed_is_submitted() {
    let mut s = InputState::new();
    let answers = feed(&mut s, &[InputEvent::Digit(0), InputEvent::Submit]);
    assert_eq!(answers, vec![Answer(0)]);
}

#[test]
fn reset_clears_entry() {
    let mut s = InputState::new();
    let answers = feed(&mut s, &[InputEvent::Digit(9), InputEvent::Reset, InputEvent::Submit]);
    assert!(answers.is_empty());
    assert_eq!(s, InputState::new());
}

#[test]
fn render_shows_sign_and_digits() {
    let mut s = InputState::new();
    feed(&mut s, &[InputEvent::Negate]);
    assert_eq!(text(&s), "-0");
    feed(&mut s, &[InputEvent::Digit(1), InputEvent::Digit(0), InputEvent::Digit(5)]);
    assert_eq!(text(&s), "-105");
}
