use runtime_ops::prompt::{prompt_reply, ReadOutcome};

#[test]
fn completed_line_is_returned() {
    let r = prompt_reply(ReadOutcome::Line("hello".to_string()));
    assert_eq!(r.value, Ok(Some("hello".to_string())));
    assert!(!r.raise_interrupt);
    let r = prompt_reply(ReadOutcome::Line(String::new()));
    assert_eq!(r.value, Ok(Some(String::new())));
}

#[test]
fn interrupt_gives_no_value_and_raises_once() {
    let r = prompt_reply(ReadOutcome::Interrupted);
    assert_eq!(r.value, Ok(None));
    assert!(r.raise_interrupt);
}

#[test]
fn end_of_input_is_quiet() {
    let r = prompt_reply(ReadOutcome::Eof);
    assert_eq!(r.value, Ok(None));
    assert!(!r.raise_interrupt);
}

#[test]
fn editor_failure_is_an_error() {
    let r = prompt_reply(ReadOutcome::Failed("broken pipe".to_string()));
    assert_eq!(r.value, Err("broken pipe".to_string()));
    assert!(!r.raise_interrupt);
}
