use vstd::prelude::*;

verus! {

/// A key press.
#[derive(PartialEq, Eq, Clone, Copy, Hash, Debug)]
pub enum Key {
    /// Both Enter (or Return) and numpad Enter
    Enter,
    Tab,
    Backspace,
    Esc,
    Left,
    Right,
    Up,
    Down,
    Ins,
    Delete,
    Home,
    End,
    PageUp,
    PageDown,
    F0,
    F1,
    F2,
    F3,
    F4,
    F5,
    F6,
    F7,
    F8,
    F9,
    F10,
    F11,
    F12,
    Char(char),
    Ctrl(char),
    Alt(char),
    Unknown,
}

/// The function key numbered `n`.
pub open spec fn function_key(n: u8) -> Key {
    if n == 0 {
        Key::F0
    } else if n == 1 {
        Key::F1
    } else if n == 2 {
        Key::F2
    } else if n == 3 {
        Key::F3
    } else if n == 4 {
        Key::F4
    } else if n == 5 {
        Key::F5
    } else if n == 6 {
        Key::F6
    } else if n == 7 {
        Key::F7
    } else if n == 8 {
        Key::F8
    } else if n == 9 {
        Key::F9
    } else if n == 10 {
        Key::F10
    } else if n == 11 {
        Key::F11
    } else {
        Key::F12
    }
}

impl Key {
    /// Returns the function key corresponding to the given number: 1 -> F1, etc.
    pub fn from_f(n: u8) -> (r: Key)
        requires
            n <= 12,
        ensures
            r == function_key(n),
    {
        match n {
            0 => Key::F0,
            1 => Key::F1,
            2 => Key::F2,
            3 => Key::F3,
            4 => Key::F4,
            5 => Key::F5,
            6 => Key::F6,
            7 => Key::F7,
            8 => Key::F8,
            9 => Key::F9,
            10 => Key::F10,
            11 => Key::F11,
            _ => Key::F12,
        }
    }
}

/// Configuration for event handling. Tick rates are in milliseconds.
#[derive(Debug, Clone, Copy)]
pub struct EventConfig {
    /// The key that is used to exit the application.
    pub exit_key: Key,
    pub tick_rate_min: u64,
    pub tick_rate_max: u64,
}

impl Default for EventConfig {
    fn default() -> (r: EventConfig)
        ensures
            r.exit_key == Key::Ctrl('c'),
            r.tick_rate_min == 25,
            r.tick_rate_max == 250,
    {
        EventConfig { exit_key: Key::Ctrl('c'), tick_rate_min: 25, tick_rate_max: 250 }
    }
}

impl EventConfig {
    /// The default configuration with the given tick rates.
    pub fn with_tick_rates(tick_rate_min: u64, tick_rate_max: u64) -> (r: EventConfig)
        ensures
            r.exit_key == Key::Ctrl('c'),
            r.tick_rate_min == tick_rate_min,
            r.tick_rate_max == tick_rate_max,
    {
        EventConfig { exit_key: Key::Ctrl('c'), tick_rate_min, tick_rate_max }
    }
}

/// An occurred event.
pub enum Event<I> {
    /// An input event occurred.
    Input(I),
    /// A tick event occurred.
    Tick,
}

} // verus!
