use termcore::keys::{translate, KeyAction, KeyEvent, Modifiers, NamedKey};

fn mods(control: bool, shift: bool, primary: bool, secondary: bool) -> Modifiers {
    Modifiers { control, shift, platform_primary: primary, platform_secondary: secondary }
}

fn char_event(c: char, m: Modifiers) -> KeyEvent {
    KeyEvent { name: None, codepoint: Some(c), mods: m }
}

fn named_event(k: NamedKey, m: Modifiers) -> KeyEvent {
    KeyEvent { name: Some(k), codepoint: None, mods: m }
}

#[test]
fn copy_control_shift() {
    let e = char_event('C', mods(true, true, false, false));
    assert_eq!(translate(&e), KeyAction::TriggerCopy);
}

#[test]
fn copy_platform_primary() {
    let e = char_event('C', mods(false, false, true, false));
    assert_eq!(translate(&e), KeyAction::TriggerCopy);
}

#[test]
fn copy_control_without_shift() {
    let e = char_event('C', mods(true, false, false, false));
    assert_eq!(translate(&e), KeyAction::TriggerCopy);
}

#[test]
fn copy_unaffected_by_secondary_modifier() {
    let e = char_event('C', mods(true, true, false, true));
    assert_eq!(translate(&e), KeyAction::TriggerCopy);
}

#[test]
fn paste_control_shift() {
    let e = char_event('V', mods(true, true, false, false));
    assert_eq!(translate(&e), KeyAction::TriggerPaste);
}

#[test]
fn paste_platform_primary() {
    let e = char_event('V', mods(false, false, true, false));
    assert_eq!(translate(&e), KeyAction::TriggerPaste);
}

#[test]
fn paste_control_without_shift() {
    let e = char_event('V', mods(true, false, false, false));
    assert_eq!(translate(&e), KeyAction::TriggerPaste);
}

#[test]
fn lowercase_c_is_not_copy() {
    let e = char_event('c', mods(true, true, false, false));
    assert_eq!(translate(&e), KeyAction::Unhandled);
}

#[test]
fn control_return_forwards_cr() {
    let e = named_event(NamedKey::Return, mods(true, false, false, false));
    assert_eq!(translate(&e), KeyAction::ForwardBytes(vec![0x0d]));
}

#[test]
fn control_forwarding_is_idempotent() {
    let e = named_event(NamedKey::BackSpace, mods(true, false, false, false));
    let first = translate(&e);
    let second = translate(&e);
    assert_eq!(first, KeyAction::ForwardBytes(vec![0x7f]));
    assert_eq!(first, second);
}

#[test]
fn unmodified_backspace_forwards_del() {
    let e = named_event(NamedKey::BackSpace, mods(false, false, false, false));
    assert_eq!(translate(&e), KeyAction::ForwardBytes(vec![0x7f]));
}

#[test]
fn unmodified_return_forwards_cr() {
    let e = named_event(NamedKey::Return, mods(false, false, false, false));
    assert_eq!(translate(&e), KeyAction::ForwardBytes(vec![0x0d]));
}

#[test]
fn unmodified_tab_forwards_ht() {
    let e = named_event(NamedKey::Tab, mods(false, false, false, false));
    assert_eq!(translate(&e), KeyAction::ForwardBytes(vec![0x09]));
}

#[test]
fn arrow_keys_forward_csi_sequences() {
    let none = mods(false, false, false, false);
    let up = translate(&named_event(NamedKey::Up, none));
    let down = translate(&named_event(NamedKey::Down, none));
    let right = translate(&named_event(NamedKey::Right, none));
    let left = translate(&named_event(NamedKey::Left, none));
    assert_eq!(up, KeyAction::ForwardBytes(vec![0x1b, b'[', b'A']));
    assert_eq!(down, KeyAction::ForwardBytes(vec![0x1b, b'[', b'B']));
    assert_eq!(right, KeyAction::ForwardBytes(vec![0x1b, b'[', b'C']));
    assert_eq!(left, KeyAction::ForwardBytes(vec![0x1b, b'[', b'D']));
}

#[test]
fn home_and_end_forward_csi_sequences() {
    let none = mods(false, false, false, false);
    let home = translate(&named_event(NamedKey::Home, none));
    let end = translate(&named_event(NamedKey::End, none));
    assert_eq!(home, KeyAction::ForwardBytes(vec![0x1b, b'[', b'H']));
    assert_eq!(end, KeyAction::ForwardBytes(vec![0x1b, b'[', b'F']));
}

#[test]
fn shifted_arrow_still_forwards() {
    let e = named_event(NamedKey::Up, mods(false, true, false, false));
    assert_eq!(translate(&e), KeyAction::ForwardBytes(vec![0x1b, b'[', b'A']));
}

#[test]
fn control_shift_arrow_is_unhandled() {
    let e = named_event(NamedKey::Up, mods(true, true, false, false));
    assert_eq!(translate(&e), KeyAction::Unhandled);
}

#[test]
fn primary_modifier_suppresses_forwarding() {
    let e = named_event(NamedKey::Return, mods(false, false, true, false));
    assert_eq!(translate(&e), KeyAction::Unhandled);
}

#[test]
fn nameless_event_is_unhandled() {
    let e = KeyEvent { name: None, codepoint: None, mods: mods(true, false, false, false) };
    assert_eq!(translate(&e), KeyAction::Unhandled);
}

#[test]
fn plain_letter_is_unhandled() {
    let e = char_event('h', mods(false, false, false, false));
    assert_eq!(translate(&e), KeyAction::Unhandled);
}

#[test]
fn return_sequence_carries_carriage_return() {
    let e = named_event(NamedKey::Return, mods(false, false, false, false));
    match translate(&e) {
        KeyAction::ForwardBytes(bytes) => assert!(bytes.contains(&0x0d)),
        other => panic!("expected forwarded bytes, got {:?}", other),
    }
}
