//! What a key does to the dashboard.

use crate::app::{
    confirmed, profile_stepped_down, profile_stepped_up, quit_asked, stepped_down, stepped_up,
    toggled, App,
};
use vstd::prelude::*;

verus! {

/// The modifier bits of a key event that hold for the control key alone.
pub const CONTROL: u8 = 2;

/// The key of a key event, as far as the dashboard tells keys apart.
#[derive(Clone, Copy, Debug)]
pub enum KeyCode {
    Esc,
    Enter,
    Up,
    Down,
    Char(char),
    Other,
}

/// A key event: the key, and the bits of the modifiers held with it (shift
/// 1, control 2, alt 4, super 8, hyper 16, meta 32).
#[derive(Clone, Copy, Debug)]
pub struct KeyEvent {
    pub code: KeyCode,
    pub modifiers: u8,
}

/// What a key asks for.
#[derive(Clone, Copy, Debug, PartialEq, Eq, Structural)]
pub enum Action {
    Quit,
    ToggleProfileSelector,
    MoveUp,
    MoveDown,
    Confirm,
    Nothing,
}

/// What a key asks for: `Esc` and `q` quit, and so does `c` or `C` with the
/// control key alone; `p` toggles the profile switcher; the arrows, `k` and
/// `j` move a cursor; `Enter` confirms. Every other key asks for nothing.
pub open spec fn action_of(key: KeyEvent) -> Action {
    match key.code {
        KeyCode::Esc => Action::Quit,
        KeyCode::Enter => Action::Confirm,
        KeyCode::Up => Action::MoveUp,
        KeyCode::Down => Action::MoveDown,
        KeyCode::Char(c) => if c == 'q' {
            Action::Quit
        } else if c == 'c' || c == 'C' {
            if key.modifiers == CONTROL {
                Action::Quit
            } else {
                Action::Nothing
            }
        } else if c == 'p' {
            Action::ToggleProfileSelector
        } else if c == 'k' {
            Action::MoveUp
        } else if c == 'j' {
            Action::MoveDown
        } else {
            Action::Nothing
        },
        KeyCode::Other => Action::Nothing,
    }
}

/// Whether `post` is `pre` after the key. A move goes to the switcher's
/// cursor while the switcher is shown, and to the table's cursor else; a
/// confirmation picks a profile only while the switcher is shown.
pub open spec fn key_applied(pre: App, post: App, key: KeyEvent) -> bool {
    match action_of(key) {
        Action::Quit => quit_asked(pre, post),
        Action::ToggleProfileSelector => toggled(pre, post),
        Action::MoveUp => if pre.switcher is Visible {
            profile_stepped_up(pre, post)
        } else {
            stepped_up(pre, post)
        },
        Action::MoveDown => if pre.switcher is Visible {
            profile_stepped_down(pre, post)
        } else {
            stepped_down(pre, post)
        },
        Action::Confirm => confirmed(pre, post),
        Action::Nothing => post == pre,
    }
}

/// What a key asks for.
pub fn action(key: &KeyEvent) -> (asked: Action)
    ensures
        asked == action_of(*key),
{
    match key.code {
        KeyCode::Esc => Action::Quit,
        KeyCode::Enter => Action::Confirm,
        KeyCode::Up => Action::MoveUp,
        KeyCode::Down => Action::MoveDown,
        KeyCode::Char(c) => {
            if c == 'q' {
                Action::Quit
            } else if c == 'c' || c == 'C' {
                if key.modifiers == CONTROL {
                    Action::Quit
                } else {
                    Action::Nothing
                }
            } else if c == 'p' {
                Action::ToggleProfileSelector
            } else if c == 'k' {
                Action::MoveUp
            } else if c == 'j' {
                Action::MoveDown
            } else {
                Action::Nothing
            }
        },
        KeyCode::Other => Action::Nothing,
    }
}

/// Applies a key to the dashboard.
pub fn update(app: &mut App, key_event: KeyEvent)
    requires
        old(app).wf(),
    ensures
        final(app).wf(),
        key_applied(*old(app), *final(app), key_event),
{
    match action(&key_event) {
        Action::Quit => app.quit(),
        Action::ToggleProfileSelector => app.toggle_profile_selector(),
        Action::MoveUp => {
            if app.show_profile_selector() {
                app.profile_up()
            } else {
                app.collection_up()
            }
        },
        Action::MoveDown => {
            if app.show_profile_selector() {
                app.profile_down()
            } else {
                app.collection_down()
            }
        },
        Action::Confirm => app.confirm_profile(),
        Action::Nothing => {},
    }
}

} // verus!
