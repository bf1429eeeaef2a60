//! Translation of key events into terminal actions.
//!
//! A key press is classified in a fixed order: clipboard shortcuts first
//! (three conventions for copy and paste, so no keyboard layout is left
//! without one), then control-sequence forwarding for named editing keys,
//! and finally a fall-through that leaves the event to the display layer.

use vstd::prelude::*;

verus! {

/// Modifier keys held during a key press.
#[derive(Clone, Copy, PartialEq, Eq, Structural, Debug)]
pub struct Modifiers {
    pub control: bool,
    pub shift: bool,
    /// The platform's primary command modifier (Command / Super).
    pub platform_primary: bool,
    /// The platform's secondary modifier (Meta).
    pub platform_secondary: bool,
}

/// Symbolic names of the editing keys the control table knows.
#[derive(Clone, Copy, PartialEq, Eq, Structural, Debug)]
pub enum NamedKey {
    BackSpace,
    Return,
    Tab,
    Up,
    Down,
    Right,
    Left,
    Home,
    End,
}

/// One key press as the display layer reports it: a symbolic name when
/// the key is a named editing key, the unicode codepoint when the key
/// produces one, and the modifier set.  A key with neither a name nor a
/// codepoint always translates to `Unhandled`.
#[derive(Clone, Copy, PartialEq, Eq, Debug)]
pub struct KeyEvent {
    pub name: Option<NamedKey>,
    pub codepoint: Option<char>,
    pub mods: Modifiers,
}

/// What the terminal should do with one key press.
#[derive(PartialEq, Eq, Debug)]
pub enum KeyAction {
    /// Send these bytes to the child shell.
    ForwardBytes(Vec<u8>),
    /// Copy the display's selection to the clipboard.
    TriggerCopy,
    /// Paste the clipboard into the terminal.
    TriggerPaste,
    /// Leave the event to the display layer's default handling.
    Unhandled,
}

/// The three copy conventions: control+shift+'C', platform-primary+'C',
/// and control+'C' without shift.
pub open spec fn is_copy_shortcut(e: KeyEvent) -> bool {
    &&& e.codepoint == Some('C')
    &&& {
        ||| e.mods.control && e.mods.shift
        ||| e.mods.platform_primary
        ||| e.mods.control && !e.mods.shift
    }
}

/// The three paste conventions: control+shift+'V', platform-primary+'V',
/// and control+'V' without shift.
pub open spec fn is_paste_shortcut(e: KeyEvent) -> bool {
    &&& e.codepoint == Some('V')
    &&& {
        ||| e.mods.control && e.mods.shift
        ||| e.mods.platform_primary
        ||| e.mods.control && !e.mods.shift
    }
}

/// The static table of control sequences: DEL for backspace, CR for
/// return, HT for tab, and the CSI sequences of the arrow and home/end
/// keys.
pub open spec fn control_bytes(k: NamedKey) -> Seq<u8> {
    match k {
        NamedKey::BackSpace => seq![0x7fu8],
        NamedKey::Return => seq![0x0du8],
        NamedKey::Tab => seq![0x09u8],
        NamedKey::Up => seq![0x1bu8, 0x5bu8, 0x41u8],
        NamedKey::Down => seq![0x1bu8, 0x5bu8, 0x42u8],
        NamedKey::Right => seq![0x1bu8, 0x5bu8, 0x43u8],
        NamedKey::Left => seq![0x1bu8, 0x5bu8, 0x44u8],
        NamedKey::Home => seq![0x1bu8, 0x5bu8, 0x48u8],
        NamedKey::End => seq![0x1bu8, 0x5bu8, 0x46u8],
    }
}

/// Control is held alone — neither shift nor the primary modifier — and
/// the key is a named editing key: its sequence is forwarded.
pub open spec fn wants_control_forward(e: KeyEvent) -> bool {
    e.mods.control && !e.mods.shift && !e.mods.platform_primary && e.name is Some
}

/// Neither control nor the primary modifier is held (shift alone is
/// allowed, e.g. for shifted-arrow selection) and the key is a named
/// editing key: its sequence is forwarded.
pub open spec fn wants_plain_forward(e: KeyEvent) -> bool {
    !e.mods.control && !e.mods.platform_primary && e.name is Some
}

pub open spec fn forwards_sequence(e: KeyEvent) -> bool {
    wants_control_forward(e) || wants_plain_forward(e)
}

/// The whole contract of `translate`: clipboard shortcuts take absolute
/// precedence, then control-sequence forwarding, then `Unhandled`.
pub open spec fn translate_post(e: KeyEvent, a: KeyAction) -> bool {
    &&& is_copy_shortcut(e) ==> a == KeyAction::TriggerCopy
    &&& !is_copy_shortcut(e) && is_paste_shortcut(e) ==> a == KeyAction::TriggerPaste
    &&& !is_copy_shortcut(e) && !is_paste_shortcut(e) && forwards_sequence(e) ==> (
        a matches KeyAction::ForwardBytes(v)
        && (e.name matches Some(k) && v@ == control_bytes(k))
    )
    &&& !is_copy_shortcut(e) && !is_paste_shortcut(e) && !forwards_sequence(e) ==> a
        == KeyAction::Unhandled
}

/// The bytes of one named key's control sequence.
pub fn control_sequence(k: NamedKey) -> (v: Vec<u8>)
    ensures
        v@ == control_bytes(k),
{
    let mut v: Vec<u8> = Vec::new();
    match k {
        NamedKey::BackSpace => {
            v.push(0x7f);
        },
        NamedKey::Return => {
            v.push(0x0d);
        },
        NamedKey::Tab => {
            v.push(0x09);
        },
        NamedKey::Up => {
            v.push(0x1b);
            v.push(0x5b);
            v.push(0x41);
        },
        NamedKey::Down => {
            v.push(0x1b);
            v.push(0x5b);
            v.push(0x42);
        },
        NamedKey::Right => {
            v.push(0x1b);
            v.push(0x5b);
            v.push(0x43);
        },
        NamedKey::Left => {
            v.push(0x1b);
            v.push(0x5b);
            v.push(0x44);
        },
        NamedKey::Home => {
            v.push(0x1b);
            v.push(0x5b);
            v.push(0x48);
        },
        NamedKey::End => {
            v.push(0x1b);
            v.push(0x5b);
            v.push(0x46);
        },
    }
    proof {
        assert(v@ =~= control_bytes(k));
    }
    v
}

/// Whether the event's codepoint is exactly `c` (case-sensitive; no
/// folding is performed anywhere in translation).
fn codepoint_is(e: &KeyEvent, c: char) -> (b: bool)
    ensures
        b == (e.codepoint == Some(c)),
{
    match e.codepoint {
        Some(p) => p == c,
        None => false,
    }
}

fn is_copy(e: &KeyEvent) -> (b: bool)
    ensures
        b == is_copy_shortcut(*e),
{
    codepoint_is(e, 'C') && ((e.mods.control && e.mods.shift) || e.mods.platform_primary || (
    e.mods.control && !e.mods.shift))
}

fn is_paste(e: &KeyEvent) -> (b: bool)
    ensures
        b == is_paste_shortcut(*e),
{
    codepoint_is(e, 'V') && ((e.mods.control && e.mods.shift) || e.mods.platform_primary || (
    e.mods.control && !e.mods.shift))
}

/// Decide what one key press does.  Ordered, first match wins: clipboard
/// shortcuts, then control-sequence forwarding (control held alone),
/// then forwarding of unmodified editing keys, then `Unhandled`.
/// Deterministic, no side effects.
pub fn translate(e: &KeyEvent) -> (a: KeyAction)
    ensures
        translate_post(*e, a),
{
    if is_copy(e) {
        KeyAction::TriggerCopy
    } else if is_paste(e) {
        KeyAction::TriggerPaste
    } else if e.mods.control && !e.mods.shift && !e.mods.platform_primary {
        match e.name {
            Some(k) => KeyAction::ForwardBytes(control_sequence(k)),
            None => KeyAction::Unhandled,
        }
    } else if !e.mods.control && !e.mods.platform_primary {
        match e.name {
            Some(k) => KeyAction::ForwardBytes(control_sequence(k)),
            None => KeyAction::Unhandled,
        }
    } else {
        KeyAction::Unhandled
    }
}

/// Two actions carry the same outcome: the same tag, and for forwarded
/// bytes the same sequence.
pub open spec fn actions_match(a1: KeyAction, a2: KeyAction) -> bool {
    match (a1, a2) {
        (KeyAction::ForwardBytes(v1), KeyAction::ForwardBytes(v2)) => v1@ == v2@,
        (KeyAction::TriggerCopy, KeyAction::TriggerCopy) => true,
        (KeyAction::TriggerPaste, KeyAction::TriggerPaste) => true,
        (KeyAction::Unhandled, KeyAction::Unhandled) => true,
        _ => false,
    }
}

/// Clipboard precedence for copy: under any of the three copy
/// conventions translation yields `TriggerCopy`, whatever other modifier
/// bits are set.
pub proof fn lemma_copy_conventions_win(e: KeyEvent, a: KeyAction)
    requires
        translate_post(e, a),
        e.codepoint == Some('C'),
        (e.mods.control && e.mods.shift) || e.mods.platform_primary || (e.mods.control
            && !e.mods.shift),
    ensures
        a == KeyAction::TriggerCopy,
{
}

/// Clipboard precedence for paste, symmetric to copy.
pub proof fn lemma_paste_conventions_win(e: KeyEvent, a: KeyAction)
    requires
        translate_post(e, a),
        e.codepoint == Some('V'),
        e.codepoint != Some('C'),
        (e.mods.control && e.mods.shift) || e.mods.platform_primary || (e.mods.control
            && !e.mods.shift),
    ensures
        a == KeyAction::TriggerPaste,
{
}

/// Control-sequence forwarding: when no clipboard shortcut applies,
/// control is held without shift or the primary modifier, and the key is
/// in the control table, translation yields exactly the table's bytes.
pub proof fn lemma_control_forwarding(e: KeyEvent, a: KeyAction, k: NamedKey)
    requires
        translate_post(e, a),
        !is_copy_shortcut(e),
        !is_paste_shortcut(e),
        e.mods.control,
        !e.mods.shift,
        !e.mods.platform_primary,
        e.name == Some(k),
    ensures
        a matches KeyAction::ForwardBytes(v) && v@ == control_bytes(k),
{
}

/// Translation is a function of the event alone: any two results that
/// meet the contract for the same event carry the same outcome.
pub proof fn lemma_translate_deterministic(e: KeyEvent, a1: KeyAction, a2: KeyAction)
    requires
        translate_post(e, a1),
        translate_post(e, a2),
    ensures
        actions_match(a1, a2),
{
}

/// A key with no symbolic name and no unicode codepoint always yields
/// `Unhandled`.
pub proof fn lemma_nameless_key_unhandled(e: KeyEvent, a: KeyAction)
    requires
        translate_post(e, a),
        e.name is None,
        e.codepoint is None,
    ensures
        a == KeyAction::Unhandled,
{
}

} // verus!
