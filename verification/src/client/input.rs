//! Key and mouse bindings.

use vstd::prelude::*;
use crate::client::msg::{CallbackId, KeyIntOrString, Modifier, MouseEdge, Msg};

verus! {

/// A mouse button, named as the kernel's input layer names it.
#[derive(Debug, Clone, Copy, PartialEq, Eq, Structural)]
pub enum MouseButton {
    Left,
    Right,
    Middle,
    Side,
    Extra,
    Forward,
    Back,
}

impl MouseButton {
    /// The code the kernel's input layer gives this button.
    pub open spec fn spec_code(self) -> u32 {
        match self {
            MouseButton::Left => 0x110,
            MouseButton::Right => 0x111,
            MouseButton::Middle => 0x112,
            MouseButton::Side => 0x113,
            MouseButton::Extra => 0x114,
            MouseButton::Forward => 0x115,
            MouseButton::Back => 0x116,
        }
    }

    /// The code the kernel's input layer gives this button.
    #[verifier::when_used_as_spec(spec_code)]
    pub fn code(self) -> (code: u32)
        ensures
            code == self.spec_code(),
    {
        match self {
            MouseButton::Left => 0x110,
            MouseButton::Right => 0x111,
            MouseButton::Middle => 0x112,
            MouseButton::Side => 0x113,
            MouseButton::Extra => 0x114,
            MouseButton::Forward => 0x115,
            MouseButton::Back => 0x116,
        }
    }
}

/// `xkeysym::Keysym`, a keyboard symbol, which is carried through as it is.
#[verifier::external_type_specification]
#[verifier::external_body]
pub struct ExKeysym(xkeysym::Keysym);

/// The number that a keyboard symbol stands for.
pub uninterp spec fn keysym_number(keysym: xkeysym::Keysym) -> u32;

/// `xkeysym::Keysym::raw`: the number of a keyboard symbol, which is the
/// one number that the symbol wraps.
#[verifier::external_body]
fn keysym_raw(keysym: xkeysym::Keysym) -> (raw: u32)
    ensures
        raw == keysym_number(keysym),
{
    keysym.raw()
}

/// `char::to_string`: the string that holds exactly the given character.
#[verifier::external_body]
fn char_to_string(value: char) -> (s: String)
    ensures
        s@ == seq![value],
{
    value.to_string()
}

impl KeyIntOrString {
    /// The key named by a single character, such as `a`, `~` or `@`.
    pub fn from_char(value: char) -> (key: Self)
        ensures
            key matches KeyIntOrString::String(s) && s@ == seq![value],
    {
        KeyIntOrString::String(char_to_string(value))
    }

    /// The key with the given numeric keysym.
    pub fn from_u32(value: u32) -> (key: Self)
        ensures
            key == KeyIntOrString::Int(value),
    {
        KeyIntOrString::Int(value)
    }

    /// The key with the given keyboard symbol, carried by its number.
    pub fn from_keysym(value: xkeysym::Keysym) -> (key: Self)
        ensures
            key == KeyIntOrString::Int(keysym_number(value)),
    {
        KeyIntOrString::from_u32(keysym_raw(value))
    }
}

/// Copies a slice of modifiers into a vector.
fn modifiers_to_vec(modifiers: &[Modifier]) -> (out: Vec<Modifier>)
    ensures
        out@ == modifiers@,
{
    let mut out: Vec<Modifier> = Vec::new();
    let mut i: usize = 0;
    while i < modifiers.len()
        invariant
            i <= modifiers.len(),
            out@ == modifiers@.subrange(0, i as int),
        decreases modifiers.len() - i,
    {
        out.push(modifiers[i]);
        i = i + 1;
    }
    out
}

/// Builds the messages that register bindings with the compositor.
///
/// The callbacks themselves stay with the caller, in a table that only ever
/// grows; a binding refers to its callback by the callback's index in that
/// table.
pub struct Input;

impl Input {
    /// The message that binds `key`, held together with `modifiers`, to the
    /// callback that the caller is about to append to a table of `callbacks`
    /// entries.
    pub fn keybind(&self, modifiers: &[Modifier], key: KeyIntOrString, callbacks: usize) -> (msg: Msg)
        ensures
            msg matches Msg::SetKeybind { key: k, modifiers: m, callback_id: c }
                && k == key && m@ == modifiers@ && c == CallbackId(callbacks as u32),
    {
        Msg::SetKeybind {
            key,
            modifiers: modifiers_to_vec(modifiers),
            callback_id: CallbackId(callbacks as u32),
        }
    }

    /// The message that binds `button`, held together with `modifiers`, to
    /// the callback that the caller is about to append to a table of
    /// `callbacks` entries. The binding fires on the given edge.
    pub fn mousebind(
        &self,
        modifiers: &[Modifier],
        button: MouseButton,
        edge: MouseEdge,
        callbacks: usize,
    ) -> (msg: Msg)
        ensures
            msg matches Msg::SetMousebind { modifiers: m, button: b, edge: e, callback_id: c }
                && m@ == modifiers@ && b == button.spec_code() && e == edge
                && c == CallbackId(callbacks as u32),
    {
        Msg::SetMousebind {
            modifiers: modifiers_to_vec(modifiers),
            button: button.code(),
            edge,
            callback_id: CallbackId(callbacks as u32),
        }
    }
}

} // verus!
