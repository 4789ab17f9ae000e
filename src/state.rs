use vstd::prelude::*;

verus! {

/// The interpretation of keystrokes currently in force.
#[derive(Debug, Clone, Copy, PartialEq, Eq, Structural)]
pub enum Mode {
    /// Navigation only; the initial mode.
    READ,
    EDIT,
    INSERT,
    GRAB,
}

impl Mode {
    /// Status-line label of the mode.
    pub fn get(&self) -> (r: &'static str)
        ensures
            r@ == mode_label(*self)@,
    {
        match self {
            Mode::EDIT => "EDIT MODE",
            Mode::GRAB => "GRAB MODE",
            Mode::INSERT => "INSERT MODE",
            Mode::READ => "READ MODE",
        }
    }
}

pub open spec fn mode_label(m: Mode) -> &'static str {
    match m {
        Mode::EDIT => "EDIT MODE",
        Mode::GRAB => "GRAB MODE",
        Mode::INSERT => "INSERT MODE",
        Mode::READ => "READ MODE",
    }
}

/// Which list is shown and targeted.
#[derive(Debug, Clone, Copy, PartialEq, Eq, Structural)]
pub enum Screen {
    COMPLETED,
    /// The initial screen.
    ACTIVE,
}

impl Screen {
    /// Status-line label of the screen.
    pub fn get(&self) -> (r: &'static str)
        ensures
            r@ == screen_label(*self)@,
    {
        match self {
            Screen::COMPLETED => "COMPLETED TODO'S SECTION",
            Screen::ACTIVE => "INCOMPLETE TODO'S SECTION",
        }
    }
}

pub open spec fn screen_label(s: Screen) -> &'static str {
    match s {
        Screen::COMPLETED => "COMPLETED TODO'S SECTION",
        Screen::ACTIVE => "INCOMPLETE TODO'S SECTION",
    }
}

/// The mode and the screen of a session.
#[derive(Debug, Clone, Copy, PartialEq, Eq, Structural)]
pub struct State {
    pub mode: Mode,
    pub active: Screen,
}

/// A pressed key, as the state machine sees it.
#[derive(Debug, Clone, Copy, PartialEq, Eq, Structural)]
pub enum Key {
    Char(char),
    Esc,
    Enter,
    Backspace,
    Tab,
    /// Any other key: it has no meaning anywhere.
    Other,
}

} // verus!
