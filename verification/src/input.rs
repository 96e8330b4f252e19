//! Key and gamepad labels, shortcut matching, and capturing bindings and
//! text typed into the editor.
use crate::text::{has_prefix, starts_with, str_eq, strip_prefix, strip_prefix_str};
use vstd::prelude::*;

verus! {

/// A gamepad button, as the host's input layer reports it.
#[derive(Clone, Copy, PartialEq, Eq, Structural, Debug)]
pub enum GamepadButton {
    South,
    East,
    North,
    West,
    C,
    Z,
    LeftTrigger,
    LeftTrigger2,
    RightTrigger,
    RightTrigger2,
    Select,
    Start,
    Mode,
    LeftThumb,
    RightThumb,
    DPadUp,
    DPadDown,
    DPadLeft,
    DPadRight,
    Other(u32),
}

/// Label stored in `"GP:{label}"` bindings for a gamepad button.
pub open spec fn button_label(b: GamepadButton) -> Seq<char> {
    match b {
        GamepadButton::South => "A"@,
        GamepadButton::East => "B"@,
        GamepadButton::North => "Y"@,
        GamepadButton::West => "X"@,
        GamepadButton::LeftTrigger => "LB"@,
        GamepadButton::RightTrigger => "RB"@,
        GamepadButton::LeftTrigger2 => "LT"@,
        GamepadButton::RightTrigger2 => "RT"@,
        GamepadButton::Start => "Start"@,
        GamepadButton::Select => "Select"@,
        GamepadButton::LeftThumb => "LS"@,
        GamepadButton::RightThumb => "RS"@,
        GamepadButton::DPadUp => "DUp"@,
        GamepadButton::DPadDown => "DDown"@,
        GamepadButton::DPadLeft => "DLeft"@,
        GamepadButton::DPadRight => "DRight"@,
        GamepadButton::C => "C"@,
        GamepadButton::Z => "Z"@,
        GamepadButton::Mode => "Mode"@,
        GamepadButton::Other(n) => "Other("@ + crate::text::decimal(n as nat) + ")"@,
    }
}

/// Label of a gamepad button: the controller glyph name for the sixteen
/// bindable buttons, otherwise the button's debug name.
pub fn gamepad_btn_label(b: GamepadButton) -> (r: String)
    ensures
        r@ == button_label(b),
{
    proof {
        reveal_strlit("A");
        reveal_strlit("B");
        reveal_strlit("Y");
        reveal_strlit("X");
        reveal_strlit("LB");
        reveal_strlit("RB");
        reveal_strlit("LT");
        reveal_strlit("RT");
        reveal_strlit("Start");
        reveal_strlit("Select");
        reveal_strlit("LS");
        reveal_strlit("RS");
        reveal_strlit("DUp");
        reveal_strlit("DDown");
        reveal_strlit("DLeft");
        reveal_strlit("DRight");
        reveal_strlit("C");
        reveal_strlit("Z");
        reveal_strlit("Mode");
        reveal_strlit("Other(");
        reveal_strlit(")");
    }
    match b {
        GamepadButton::South => String::from_str("A"),
        GamepadButton::East => String::from_str("B"),
        GamepadButton::North => String::from_str("Y"),
        GamepadButton::West => String::from_str("X"),
        GamepadButton::LeftTrigger => String::from_str("LB"),
        GamepadButton::RightTrigger => String::from_str("RB"),
        GamepadButton::LeftTrigger2 => String::from_str("LT"),
        GamepadButton::RightTrigger2 => String::from_str("RT"),
        GamepadButton::Start => String::from_str("Start"),
        GamepadButton::Select => String::from_str("Select"),
        GamepadButton::LeftThumb => String::from_str("LS"),
        GamepadButton::RightThumb => String::from_str("RS"),
        GamepadButton::DPadUp => String::from_str("DUp"),
        GamepadButton::DPadDown => String::from_str("DDown"),
        GamepadButton::DPadLeft => String::from_str("DLeft"),
        GamepadButton::DPadRight => String::from_str("DRight"),
        GamepadButton::C => String::from_str("C"),
        GamepadButton::Z => String::from_str("Z"),
        GamepadButton::Mode => String::from_str("Mode"),
        GamepadButton::Other(n) => {
            let mut s = String::from_str("Other(");
            let d = crate::text::usize_to_decimal(n as usize);
            s.append(d.as_str());
            s.append(")");
            assert(s@ =~= button_label(b));
            s
        },
    }
}

/// The sixteen buttons that can be bound, in the order they are checked.
pub open spec fn bindable_buttons() -> Seq<GamepadButton> {
    seq![
        GamepadButton::South,
        GamepadButton::East,
        GamepadButton::North,
        GamepadButton::West,
        GamepadButton::LeftTrigger,
        GamepadButton::RightTrigger,
        GamepadButton::LeftTrigger2,
        GamepadButton::RightTrigger2,
        GamepadButton::Start,
        GamepadButton::Select,
        GamepadButton::LeftThumb,
        GamepadButton::RightThumb,
        GamepadButton::DPadUp,
        GamepadButton::DPadDown,
        GamepadButton::DPadLeft,
        GamepadButton::DPadRight,
    ]
}

/// The sixteen bindable buttons, in the order they are checked.
pub fn bindable_button_list() -> (r: Vec<GamepadButton>)
    ensures
        r@ == bindable_buttons(),
{
    let r = vec![
        GamepadButton::South,
        GamepadButton::East,
        GamepadButton::North,
        GamepadButton::West,
        GamepadButton::LeftTrigger,
        GamepadButton::RightTrigger,
        GamepadButton::LeftTrigger2,
        GamepadButton::RightTrigger2,
        GamepadButton::Start,
        GamepadButton::Select,
        GamepadButton::LeftThumb,
        GamepadButton::RightThumb,
        GamepadButton::DPadUp,
        GamepadButton::DPadDown,
        GamepadButton::DPadLeft,
        GamepadButton::DPadRight,
    ];
    assert(r@ =~= bindable_buttons());
    r
}

/// Label of a keyboard key from its debug name (`"KeyA"`, `"Digit1"`,
/// `"Tab"`): the name without a leading `"Key"`, then without a leading
/// `"Digit"`.
pub open spec fn key_label_spec(name: Seq<char>) -> Seq<char> {
    strip_prefix(strip_prefix(name, "Key"@), "Digit"@)
}

/// Label of a keyboard key given by its debug name.
pub fn key_label(name: &str) -> (r: String)
    ensures
        r@ == key_label_spec(name@),
{
    proof {
        reveal_strlit("Key");
        reveal_strlit("Digit");
    }
    let s = strip_prefix_str(name, "Key");
    let t = strip_prefix_str(s, "Digit");
    String::from_str(t)
}

/// Whether the key with debug name `name` is a modifier (Shift, Control, Alt
/// or Super, left or right).
pub open spec fn is_modifier_spec(name: Seq<char>) -> bool {
    name == "ShiftLeft"@ || name == "ShiftRight"@ || name == "ControlLeft"@ || name
        == "ControlRight"@ || name == "AltLeft"@ || name == "AltRight"@ || name == "SuperLeft"@
        || name == "SuperRight"@
}

/// Whether the key with debug name `name` is a modifier.
pub fn is_modifier(name: &str) -> (r: bool)
    ensures
        r == is_modifier_spec(name@),
{
    str_eq(name, "ShiftLeft") || str_eq(name, "ShiftRight") || str_eq(name, "ControlLeft")
        || str_eq(name, "ControlRight") || str_eq(name, "AltLeft") || str_eq(name, "AltRight")
        || str_eq(name, "SuperLeft") || str_eq(name, "SuperRight")
}

/// Whether shortcut `s` was just pressed, given the debug names of the keys
/// just pressed and the gamepad buttons just pressed (on any gamepad).
///
/// An empty shortcut never fires. `"GP:{label}"` fires when a bindable button
/// with that label was pressed; any other shortcut fires when a non-modifier
/// key with that label was pressed.
pub open spec fn shortcut_fires(s: Seq<char>, keys: Seq<Seq<char>>, buttons: Seq<GamepadButton>) -> bool {
    if s.len() == 0 {
        false
    } else if has_prefix(s, "GP:"@) {
        exists|i: int|
            0 <= i < bindable_buttons().len() && button_label(#[trigger] bindable_buttons()[i])
                == strip_prefix(s, "GP:"@) && buttons.contains(bindable_buttons()[i])
    } else {
        exists|i: int|
            0 <= i < keys.len() && !is_modifier_spec(#[trigger] keys[i]) && key_label_spec(keys[i])
                == s
    }
}

pub open spec fn names_view(s: Seq<String>) -> Seq<Seq<char>> {
    s.map_values(|x: String| x@)
}

/// Whether the key with debug name `name` is among `keys`.
pub fn key_among(keys: &Vec<String>, name: &str) -> (r: bool)
    ensures
        r == names_view(keys@).contains(name@),
{
    let mut i: usize = 0;
    while i < keys.len()
        invariant
            i <= keys@.len(),
            forall|j: int| 0 <= j < i ==> names_view(keys@)[j] != name@,
        decreases keys.len() - i,
    {
        assert(names_view(keys@)[i as int] == keys@[i as int]@);
        if str_eq(keys[i].as_str(), name) {
            assert(names_view(keys@)[i as int] == name@);
            return true;
        }
        i = i + 1;
    }
    false
}

/// Whether any of `buttons` is `b`.
pub fn contains_button(buttons: &Vec<GamepadButton>, b: GamepadButton) -> (r: bool)
    ensures
        r == buttons@.contains(b),
{
    let mut i: usize = 0;
    while i < buttons.len()
        invariant
            i <= buttons@.len(),
            forall|j: int| 0 <= j < i ==> buttons@[j] != b,
        decreases buttons.len() - i,
    {
        if buttons[i] == b {
            return true;
        }
        i = i + 1;
    }
    false
}

/// Whether `shortcut` was just pressed (see [`shortcut_fires`]).
pub fn shortcut_just_pressed(shortcut: &str, keys: &Vec<String>, buttons: &Vec<GamepadButton>) -> (r: bool)
    ensures
        r == shortcut_fires(shortcut@, names_view(keys@), buttons@),
{
    proof {
        reveal_strlit("GP:");
    }
    if shortcut.unicode_len() == 0 {
        return false;
    }
    if starts_with(shortcut, "GP:") {
        let name = strip_prefix_str(shortcut, "GP:");
        let all = bindable_button_list();
        let mut i: usize = 0;
        while i < all.len()
            invariant
                all@ == bindable_buttons(),
                shortcut@.len() != 0,
                has_prefix(shortcut@, "GP:"@),
                name@ == strip_prefix(shortcut@, "GP:"@),
                i <= all@.len(),
                forall|j: int|
                    0 <= j < i ==> !(button_label(#[trigger] bindable_buttons()[j]) == name@
                        && buttons@.contains(bindable_buttons()[j])),
            decreases all.len() - i,
        {
            let label = gamepad_btn_label(all[i]);
            if str_eq(label.as_str(), name) && contains_button(buttons, all[i]) {
                assert(all@[i as int] == bindable_buttons()[i as int]);
                assert(button_label(bindable_buttons()[i as int]) == strip_prefix(shortcut@, "GP:"@)
                    && buttons@.contains(bindable_buttons()[i as int]));
                return true;
            }
            i = i + 1;
        }
        false
    } else {
        let mut i: usize = 0;
        while i < keys.len()
            invariant
                i <= keys@.len(),
                shortcut@.len() != 0,
                !has_prefix(shortcut@, "GP:"@),
                forall|j: int|
                    0 <= j < i ==> !(!is_modifier_spec(#[trigger] names_view(keys@)[j])
                        && key_label_spec(names_view(keys@)[j]) == shortcut@),
            decreases keys.len() - i,
        {
            assert(names_view(keys@)[i as int] == keys@[i as int]@);
            if !is_modifier(keys[i].as_str()) {
                let label = key_label(keys[i].as_str());
                if str_eq(label.as_str(), shortcut) {
                    assert(!is_modifier_spec(names_view(keys@)[i as int]) && key_label_spec(
                        names_view(keys@)[i as int],
                    ) == shortcut@);
                    return true;
                }
            }
            i = i + 1;
        }
        false
    }
}

} // verus!
