use vstd::prelude::*;
use crate::event::key::Key;

verus! {

/// Which key triggers which action in the widgets.
#[derive(Clone, Copy, Debug, PartialEq, Eq, Structural)]
pub struct KeyConfig {
    pub scroll_up: Key,
    pub scroll_down: Key,
    pub scroll_up_multiple_lines: Key,
    pub scroll_down_multiple_lines: Key,
    pub scroll_to_top: Key,
    pub scroll_to_bottom: Key,
    pub enter: Key,
    pub esc: Key,
    pub next: Key,
    pub open_browser: Key,
    pub quit: Key,
    pub exit: Key,
}

impl KeyConfig {
    /// Whether `key` confirms: it is the enter key and no scroll key
    /// claims it first.
    pub open spec fn confirms(self, key: Key) -> bool {
        &&& key == self.enter
        &&& key != self.scroll_down
        &&& key != self.scroll_up
        &&& key != self.scroll_down_multiple_lines
        &&& key != self.scroll_up_multiple_lines
        &&& key != self.scroll_to_bottom
        &&& key != self.scroll_to_top
    }

    /// Whether `key` moves a cursor.
    pub open spec fn scrolls(self, key: Key) -> bool {
        ||| key == self.scroll_down
        ||| key == self.scroll_up
        ||| key == self.scroll_down_multiple_lines
        ||| key == self.scroll_up_multiple_lines
        ||| key == self.scroll_to_bottom
        ||| key == self.scroll_to_top
    }

    /// The vi-style bindings used when no configuration says otherwise.
    pub open spec fn standard() -> KeyConfig {
        KeyConfig {
            scroll_up: Key::Char('k'),
            scroll_down: Key::Char('j'),
            scroll_up_multiple_lines: Key::Ctrl('u'),
            scroll_down_multiple_lines: Key::Ctrl('d'),
            scroll_to_top: Key::Char('g'),
            scroll_to_bottom: Key::Char('G'),
            enter: Key::Enter,
            esc: Key::Esc,
            next: Key::Tab,
            open_browser: Key::Char('o'),
            quit: Key::Char('q'),
            exit: Key::Ctrl('c'),
        }
    }
}

impl Default for KeyConfig {
    fn default() -> (r: Self)
        ensures
            r == KeyConfig::standard(),
    {
        KeyConfig {
            scroll_up: Key::Char('k'),
            scroll_down: Key::Char('j'),
            scroll_up_multiple_lines: Key::Ctrl('u'),
            scroll_down_multiple_lines: Key::Ctrl('d'),
            scroll_to_top: Key::Char('g'),
            scroll_to_bottom: Key::Char('G'),
            enter: Key::Enter,
            esc: Key::Esc,
            next: Key::Tab,
            open_browser: Key::Char('o'),
            quit: Key::Char('q'),
            exit: Key::Ctrl('c'),
        }
    }
}

} // verus!
