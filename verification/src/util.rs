//! Keys of the keyboard, as the widgets name them.

use vstd::prelude::*;
use vstd::string::StringExecFns;
use crate::text::chars_of;

verus! {

/// The value of a decimal digit.
pub open spec fn decimal_digit(c: char) -> Option<int> {
    if 0x30 <= c as u32 <= 0x39 {
        Some(c as u32 - 0x30)
    } else {
        None
    }
}

/// The virtual-key code of the key that `name` names: a digit or a letter
/// stands for its own key, `f1` to `f24` for the function keys; letters count
/// in either case. Other names name no key.
pub open spec fn key_code_of(name: Seq<char>) -> Option<i32> {
    if name.len() == 1 && (0x30 <= name[0] as u32 <= 0x39 || 0x41 <= name[0] as u32 <= 0x5a) {
        Some(name[0] as u32 as i32)
    } else if name.len() == 1 && 0x61 <= name[0] as u32 <= 0x7a {
        Some((name[0] as u32 - 0x20) as i32)
    } else if name.len() == 2 && (name[0] == 'f' || name[0] == 'F') && decimal_digit(name[1])
        is Some && decimal_digit(name[1])->0 >= 1 {
        Some((0x6f + decimal_digit(name[1])->0) as i32)
    } else if name.len() == 3 && (name[0] == 'f' || name[0] == 'F') && decimal_digit(name[1])
        is Some && decimal_digit(name[2]) is Some && 10 <= 10 * decimal_digit(name[1])->0
        + decimal_digit(name[2])->0 <= 24 {
        Some((0x6f + 10 * decimal_digit(name[1])->0 + decimal_digit(name[2])->0) as i32)
    } else {
        None
    }
}

/// What is said of a name that names no key.
pub open spec fn key_error(name: Seq<char>) -> Seq<char> {
    "\""@ + name + "\" is not a valid key code"@
}

fn digit_value(c: char) -> (digit: Option<u32>)
    ensures
        match digit {
            Some(digit) => decimal_digit(c) == Some(digit as int),
            None => decimal_digit(c) is None,
        },
{
    let code = c as u32;
    if 0x30 <= code && code <= 0x39 {
        Some(code - 0x30)
    } else {
        None
    }
}

/// The virtual-key code of a key, from its name.
pub fn get_key_code(name: &str) -> (code: Option<i32>)
    ensures
        code == key_code_of(name@),
{
    let chars = chars_of(name);
    if chars.len() == 1 {
        let code = chars[0] as u32;
        if (0x30 <= code && code <= 0x39) || (0x41 <= code && code <= 0x5a) {
            Some(code as i32)
        } else if 0x61 <= code && code <= 0x7a {
            Some((code - 0x20) as i32)
        } else {
            None
        }
    } else if chars.len() == 2 && (chars[0] == 'f' || chars[0] == 'F') {
        match digit_value(chars[1]) {
            Some(ones) => if ones >= 1 {
                Some((0x6f + ones) as i32)
            } else {
                None
            },
            None => None,
        }
    } else if chars.len() == 3 && (chars[0] == 'f' || chars[0] == 'F') {
        match (digit_value(chars[1]), digit_value(chars[2])) {
            (Some(tens), Some(ones)) => {
                let number = 10 * tens + ones;
                if 10 <= number && number <= 24 {
                    Some((0x6f + number) as i32)
                } else {
                    None
                }
            },
            _ => None,
        }
    } else {
        None
    }
}

/// A key that a widget listens to: its virtual-key code, and the name under
/// which it was configured and is shown.
#[derive(Debug)]
pub struct KeyState {
    pub code: i32,
    pub name: String,
}

/// What a [`KeyState`] holds.
pub struct KeyView {
    pub code: i32,
    pub name: Seq<char>,
}

impl View for KeyState {
    type V = KeyView;

    open spec fn view(&self) -> KeyView {
        KeyView { code: self.code, name: self.name@ }
    }
}

impl Clone for KeyState {
    fn clone(&self) -> (key: Self)
        ensures
            key@ == self@,
    {
        KeyState { code: self.code, name: self.name.clone() }
    }
}

impl KeyState {
    pub fn new(code: i32, name: String) -> (key: KeyState)
        ensures
            key@ == (KeyView { code, name: name@ }),
    {
        KeyState { code, name }
    }

    /// The key that `name` names. A name that names no key gives the reason
    /// as the error.
    pub fn try_from(name: String) -> (key: Result<KeyState, String>)
        ensures
            match key_code_of(name@) {
                Some(code) => key matches Ok(key) && key@ == (KeyView { code, name: name@ }),
                None => key matches Err(message) && message@ == key_error(name@),
            },
    {
        match get_key_code(name.as_str()) {
            Some(code) => Ok(KeyState { code, name }),
            None => {
                let mut message = String::new();
                message.append("\"");
                message.append(name.as_str());
                message.append("\" is not a valid key code");
                Err(message)
            },
        }
    }
}

/// The view of a key that may be absent.
pub open spec fn key_view(key: Option<KeyState>) -> Option<KeyView> {
    match key {
        Some(key) => Some(key@),
        None => None,
    }
}

/// Copies a key that may be absent.
pub fn clone_key(key: &Option<KeyState>) -> (copy: Option<KeyState>)
    ensures
        key_view(copy) == key_view(*key),
{
    match key {
        Some(key) => Some(key.clone()),
        None => None,
    }
}

} // verus!
