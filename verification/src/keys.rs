//! Key identity resolution and action classification.
//!
//! Two total, table-driven lookups: a raw platform key code resolves to a
//! symbolic [`KeyCode`], and a [`KeyCode`] classifies into an optional
//! navigation [`Action`]. Together they decide what, if anything, a key-down
//! event means to the navigator.

use vstd::prelude::*;

verus! {

/// Symbolic identity of a pressed key. Raw codes outside the recognized set
/// resolve to `Unrecognized`.
#[derive(Clone, Copy, PartialEq, Eq, Debug, Structural)]
pub enum KeyCode {
    P,
    N,
    O,
    Q,
    W,
    Return,
    Unrecognized,
}

/// The closed set of navigation actions a recognized key can trigger.
#[derive(Clone, Copy, PartialEq, Eq, Debug, Structural)]
pub enum Action {
    Next,
    Prev,
    Open,
    Exit,
}

/// The fixed key-code table: which symbolic key a raw code denotes.
pub open spec fn spec_resolve(raw: u16) -> KeyCode {
    if raw == 35 {
        KeyCode::P
    } else if raw == 45 {
        KeyCode::N
    } else if raw == 31 {
        KeyCode::O
    } else if raw == 12 {
        KeyCode::Q
    } else if raw == 13 {
        KeyCode::W
    } else if raw == 36 {
        KeyCode::Return
    } else {
        KeyCode::Unrecognized
    }
}

/// Resolves a raw key code to its symbolic identity. Total: unmapped codes
/// yield `KeyCode::Unrecognized` rather than an error.
pub fn resolve(raw: u16) -> (k: KeyCode)
    ensures
        k == spec_resolve(raw),
{
    match raw {
        35 => KeyCode::P,
        45 => KeyCode::N,
        31 => KeyCode::O,
        12 => KeyCode::Q,
        13 => KeyCode::W,
        36 => KeyCode::Return,
        _ => KeyCode::Unrecognized,
    }
}

/// The fixed key-binding table: which action a symbolic key triggers.
pub open spec fn spec_classify(k: KeyCode) -> Option<Action> {
    match k {
        KeyCode::P => Some(Action::Prev),
        KeyCode::N => Some(Action::Next),
        KeyCode::O => Some(Action::Open),
        KeyCode::Return => Some(Action::Open),
        KeyCode::Q => Some(Action::Exit),
        KeyCode::W => Some(Action::Exit),
        KeyCode::Unrecognized => None,
    }
}

/// What a raw key code means to the navigator: resolution followed by
/// classification.
pub open spec fn action_of(raw: u16) -> Option<Action> {
    spec_classify(spec_resolve(raw))
}

impl Action {
    /// Classifies a symbolic key into a navigation action. This table is the
    /// single source of truth for the key bindings.
    pub fn from_key(k: KeyCode) -> (a: Option<Action>)
        ensures
            a == spec_classify(k),
    {
        match k {
            KeyCode::P => Some(Action::Prev),
            KeyCode::N => Some(Action::Next),
            KeyCode::O => Some(Action::Open),
            KeyCode::Return => Some(Action::Open),
            KeyCode::Q => Some(Action::Exit),
            KeyCode::W => Some(Action::Exit),
            KeyCode::Unrecognized => None,
        }
    }
}

/// The key-code-to-action mapping is total and deterministic: every raw code
/// means exactly one of the four actions or no action at all.
pub proof fn lemma_key_mapping_total(raw: u16)
    ensures
        action_of(raw) == Some(Action::Next) || action_of(raw) == Some(Action::Prev)
            || action_of(raw) == Some(Action::Open) || action_of(raw) == Some(Action::Exit)
            || action_of(raw) == None::<Action>,
{
}

/// Implemented by the platform layer for its raw key-event handles; yields
/// the symbolic identity of the pressed key.
pub trait CGEventExt {
    fn key_code(&self) -> KeyCode;
}

} // verus!
