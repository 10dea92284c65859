use runtime_ops::tty::{
    check_descriptor, make_raw, ModeChange, RawModeError, TermAttrs, TtyModeStore, ECHO, ICANON,
    ICRNL, IEXTEN, ISIG, VMIN, VTIME,
};

fn cooked() -> TermAttrs {
    let mut cc = [0u8; 32];
    cc[VMIN] = 4;
    cc[VTIME] = 9;
    cc[0] = 3;
    TermAttrs {
        input_flags: 0o2 | 0o400 | 0o2000 | 0o10000,
        output_flags: 0o5,
        control_flags: 0o277,
        local_flags: ISIG | ICANON | ECHO | IEXTEN | 0o20,
        line_discipline: 0,
        control_chars: cc,
        input_speed: 15,
        output_speed: 15,
    }
}

fn same(a: &TermAttrs, b: &TermAttrs) -> bool {
    a.input_flags == b.input_flags
        && a.output_flags == b.output_flags
        && a.control_flags == b.control_flags
        && a.local_flags == b.local_flags
        && a.line_discipline == b.line_discipline
        && a.control_chars == b.control_chars
        && a.input_speed == b.input_speed
        && a.output_speed == b.output_speed
}

fn applied(c: ModeChange) -> TermAttrs {
    match c {
        ModeChange::Apply(t) => t,
        other => panic!("expected attributes, got {:?}", other),
    }
}

#[test]
fn raw_flags_exact() {
    let raw = make_raw(cooked(), false);
    assert_eq!(raw.input_flags, 0o10000);
    assert_eq!(raw.control_flags, 0o277 | 0o60);
    assert_eq!(raw.local_flags, 0o20);
    assert_eq!(raw.output_flags, 0o5);
    assert_eq!(raw.control_chars[VMIN], 1);
    assert_eq!(raw.control_chars[VTIME], 0);
    assert_eq!(raw.control_chars[0], 3);
}

#[test]
fn cbreak_keeps_signal_flag() {
    assert_eq!(make_raw(cooked(), true).local_flags & ISIG, ISIG);
    assert_eq!(make_raw(cooked(), false).local_flags & ISIG, 0);
}

#[test]
fn first_raw_request_asks_for_current_attributes() {
    let mut store = TtyModeStore::new();
    assert!(matches!(store.set_raw(4, true, false, None), ModeChange::ReadCurrent));
    assert!(store.get(4).is_none());
}

#[test]
fn raw_twice_then_cooked_restores_original() {
    let mut store = TtyModeStore::new();
    let first = applied(store.set_raw(4, true, false, Some(cooked())));
    let mut changed = first;
    changed.local_flags = 0;
    let second = applied(store.set_raw(4, true, true, Some(changed)));
    assert!(same(&second, &make_raw(cooked(), true)));
    let restored = applied(store.set_raw(4, false, false, None));
    assert!(same(&restored, &cooked()));
    assert!(store.get(4).is_none());
}

#[test]
fn cooked_without_raw_is_noop() {
    let mut store = TtyModeStore::new();
    store.set(2, cooked());
    assert!(matches!(store.set_raw(4, false, false, Some(cooked())), ModeChange::Keep));
    assert!(store.get(4).is_none());
    assert!(store.get(2).is_some());
}

#[test]
fn store_get_take_set() {
    let mut store = TtyModeStore::new();
    assert!(store.take(1).is_none());
    store.set(1, cooked());
    assert!(same(&store.get(1).unwrap(), &cooked()));
    assert!(same(&store.take(1).unwrap(), &cooked()));
    assert!(store.get(1).is_none());
}

#[test]
fn closed_descriptor_is_rejected() {
    assert_eq!(check_descriptor(-1), Err(RawModeError::BadDescriptor));
    assert_eq!(check_descriptor(0), Ok(0));
    assert_eq!(check_descriptor(17), Ok(17));
}
