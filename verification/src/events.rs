//! Key events as the library sees them, and the top-level dispatcher that
//! turns one keystroke into pane edits, focus or mode switches, and outward
//! signals. The host translates whatever its terminal backend reports into a
//! [`Key`] plus a control-modifier flag.

use crate::app::{spec_active_panel, spec_route, spec_scroll_down, spec_scroll_up,
    spec_switch_mode, Mode, Panel, Signal, SignalView, State, StateView};
use vstd::prelude::*;

verus! {

/// A keystroke, reduced to the keys the dashboard reacts to; anything else is
/// [`Key::Other`].
#[derive(Clone, Copy, Debug, PartialEq, Eq, Structural)]
pub enum Key {
    Char(char),
    Enter,
    Esc,
    Backspace,
    Delete,
    Left,
    Right,
    Up,
    Down,
    Home,
    End,
    Other,
}

/// The fixed global shortcuts, as (key, action) pairs for the help overlay.
pub fn global_keys() -> (r: Vec<(&'static str, &'static str)>)
    ensures
        r@.len() == 4,
        r@[0].0@ == "Ctrl+q"@ && r@[0].1@ == "Quit"@,
        r@[1].0@ == "Ctrl+w"@ && r@[1].1@ == "Switch panel"@,
        r@[2].0@ == "Esc"@ && r@[2].1@ == "Switch mode"@,
        r@[3].0@ == "?"@ && r@[3].1@ == "Show help"@,
{
    let mut r: Vec<(&'static str, &'static str)> = Vec::new();
    r.push(("Ctrl+q", "Quit"));
    r.push(("Ctrl+w", "Switch panel"));
    r.push(("Esc", "Switch mode"));
    r.push(("?", "Show help"));
    r
}

/// Panel rotation on the switch-panel shortcut: Source, Output and the
/// command line cycle; the overlays stay put.
pub open spec fn spec_rotate(p: Panel) -> Panel {
    match p {
        Panel::Source => Panel::Output,
        Panel::Output => Panel::Command,
        Panel::Command => Panel::Source,
        Panel::Help => Panel::Help,
        Panel::Bookmarks => Panel::Bookmarks,
    }
}

/// The whole router, as one transition function: global shortcuts first
/// (quit, panel cycle, bookmark toggle, mode switch, help, scrolling), then
/// the keystroke goes to the active pane.
pub open spec fn spec_handle_key(s: StateView, key: Key, ctrl: bool) -> (StateView, SignalView) {
    if ctrl && key == Key::Char('q') {
        (s, SignalView::Quit)
    } else if ctrl && key == Key::Char('w') {
        (StateView { active: spec_rotate(spec_active_panel(s)), ..s }, SignalView::Nop)
    } else if ctrl && key == Key::Char('s') {
        let m = if s.mode is Bookmarks {
            Mode::Shell
        } else {
            Mode::Bookmarks
        };
        (StateView { mode: m, ..s }, SignalView::AddBookmark)
    } else if key == Key::Esc {
        let s1 = spec_route(s, Key::Esc, ctrl).0;
        (
            StateView { mode: spec_switch_mode(s1.mode), active: Panel::Command, ..s1 },
            SignalView::Nop,
        )
    } else if key == Key::Char('?') {
        (StateView { mode: Mode::Help, ..s }, SignalView::Nop)
    } else if key == Key::Down {
        (spec_scroll_down(s), SignalView::Nop)
    } else if key == Key::Up {
        (spec_scroll_up(s), SignalView::Nop)
    } else {
        spec_route(s, key, ctrl)
    }
}

/// Dispatch one keystroke: global shortcuts are handled here, everything else
/// is forwarded to the active pane; the caller acts on the returned signal.
pub fn handle_key_event(key: Key, ctrl: bool, state: &mut State) -> (sig: Signal)
    requires
        old(state).inv(),
    ensures
        final(state).inv(),
        final(state)@ == spec_handle_key(old(state)@, key, ctrl).0,
        sig@ == spec_handle_key(old(state)@, key, ctrl).1,
{
    if ctrl && key == Key::Char('q') {
        return Signal::Quit;
    }
    if ctrl && key == Key::Char('w') {
        let active = match state.get_active() {
            Panel::Source => Panel::Output,
            Panel::Output => Panel::Command,
            Panel::Command => Panel::Source,
            Panel::Help => Panel::Help,
            Panel::Bookmarks => Panel::Bookmarks,
        };
        state.set_active(active);
        return Signal::Nop;
    }
    if ctrl && key == Key::Char('s') {
        let m = *state.mode();
        let new_mode = match m {
            Mode::Bookmarks => Mode::Shell,
            Mode::Internal => Mode::Bookmarks,
            Mode::Shell => Mode::Bookmarks,
            Mode::Help => Mode::Bookmarks,
        };
        state.set_mode(new_mode);
        return Signal::AddBookmark;
    }
    if key == Key::Esc {
        let _ = state.handle_active_event(Key::Esc, ctrl);
        state.switch_mode();
        state.set_active(Panel::Command);
        return Signal::Nop;
    }
    if key == Key::Char('?') {
        state.set_mode(Mode::Help);
        return Signal::Nop;
    }
    if key == Key::Down {
        state.scroll_active_down();
        return Signal::Nop;
    }
    if key == Key::Up {
        state.scroll_active_up();
        return Signal::Nop;
    }
    state.handle_active_event(key, ctrl)
}

} // verus!
