//! The presenter: one window's visibility, focus and position, and the
//! operations that tray clicks, the show shortcut, quit requests and close
//! requests call for.
use vstd::prelude::*;

use crate::platform::{
    activate_seq, prepare_seq, push_activate, push_prepare, Action, Platform,
};
use crate::position::{
    cursor_position_spec, cursor_show_position, tray_position_spec, tray_show_position, Position,
};

verus! {

/// What the presenter knows of its window.
#[derive(Clone, Copy, Debug, PartialEq, Eq, Structural)]
pub struct WindowState {
    pub visible: bool,
    pub focused: bool,
    /// The last position the window was moved to, if any.
    pub position: Option<Position>,
}

/// Owner of the visibility and position of the application's single window.
/// Each request returns the operations to carry out, in order; carrying them
/// out is best-effort, and a failed one changes nothing of the state here.
#[derive(Clone, Copy, Debug, PartialEq, Eq, Structural)]
pub struct Presenter {
    pub platform: Platform,
    pub window: WindowState,
    /// False once the process has been told to exit.
    pub running: bool,
}

/// The operations that show the window, at `pos` where it is given, else
/// where it already is.
pub open spec fn show_seq(p: Platform, pos: Option<Position>) -> Seq<Action> {
    prepare_seq(p) + match pos {
        Some(q) => seq![Action::SetPosition(q)],
        None => seq![],
    } + seq![Action::Show, Action::Focus] + activate_seq(p)
}

/// The state after the window was shown, at `pos` where it is given.
pub open spec fn shown(s: Presenter, pos: Option<Position>) -> Presenter {
    Presenter {
        window: WindowState {
            visible: true,
            focused: true,
            position: match pos {
                Some(q) => Some(q),
                None => s.window.position,
            },
        },
        ..s
    }
}

/// The state after the window was hidden.
pub open spec fn hidden(s: Presenter) -> Presenter {
    Presenter { window: WindowState { visible: false, focused: false, ..s.window }, ..s }
}

/// The state after a click on the tray icon at `click`.
pub open spec fn toggled(s: Presenter, click: Position) -> Presenter {
    if s.window.visible {
        hidden(s)
    } else {
        shown(s, Some(tray_position_spec(click)))
    }
}

/// The operations for a click on the tray icon at `click`.
pub open spec fn toggle_seq(s: Presenter, click: Position) -> Seq<Action> {
    if s.window.visible {
        seq![Action::Hide]
    } else {
        show_seq(s.platform, Some(tray_position_spec(click)))
    }
}

/// Where the window is shown for the shortcut, given what reading the cursor
/// position gave: below the cursor, or where it is when the read failed.
pub open spec fn cursor_target(cursor: Option<Position>) -> Option<Position> {
    match cursor {
        Some(c) => Some(cursor_position_spec(c)),
        None => None,
    }
}

/// The state after a quit request that the user answered with `confirmed`.
pub open spec fn after_quit(s: Presenter, confirmed: bool) -> Presenter {
    if confirmed {
        Presenter { running: false, ..s }
    } else {
        s
    }
}

/// The operations for a quit request that the user answered with `confirmed`.
pub open spec fn quit_seq(confirmed: bool) -> Seq<Action> {
    if confirmed {
        seq![Action::Exit(0)]
    } else {
        seq![]
    }
}

/// The state after a close request that the user answered with `confirmed`.
pub open spec fn after_close(s: Presenter, confirmed: bool) -> Presenter {
    if confirmed {
        hidden(s)
    } else {
        s
    }
}

/// The operations for a close request that the user answered with
/// `confirmed`: the default close is always stopped, and the window is at
/// most hidden.
pub open spec fn close_seq(confirmed: bool) -> Seq<Action> {
    if confirmed {
        seq![Action::PreventClose, Action::Hide]
    } else {
        seq![Action::PreventClose]
    }
}

impl Presenter {
    /// A presenter for a window that is visible or not, on `platform`.
    pub fn new(platform: Platform, visible: bool) -> (r: Presenter)
        ensures
            r.platform == platform,
            r.window.visible == visible,
            r.window.focused == false,
            r.window.position.is_none(),
            r.running,
    {
        Presenter {
            platform,
            window: WindowState { visible, focused: false, position: None },
            running: true,
        }
    }

    /// Records what the window system reports of the window's visibility.
    pub fn observe_visibility(&mut self, visible: bool)
        ensures
            final(self).window.visible == visible,
            final(self).window.focused == (old(self).window.focused && visible),
            final(self).window.position == old(self).window.position,
            final(self).platform == old(self).platform,
            final(self).running == old(self).running,
    {
        self.window.visible = visible;
        if !visible {
            self.window.focused = false;
        }
    }

    fn show_with(&mut self, pos: Option<Position>) -> (r: Vec<Action>)
        ensures
            *final(self) == shown(*old(self), pos),
            r@ == show_seq(old(self).platform, pos),
    {
        let mut out: Vec<Action> = Vec::new();
        push_prepare(self.platform, &mut out);
        match pos {
            Some(q) => {
                out.push(Action::SetPosition(q));
                self.window.position = Some(q);
            },
            None => {},
        }
        out.push(Action::Show);
        out.push(Action::Focus);
        push_activate(self.platform, &mut out);
        self.window.visible = true;
        self.window.focused = true;
        assert(out@ =~= show_seq(self.platform, pos));
        out
    }

    /// Shows the window at `pos`: prepares it for the platform, moves it,
    /// shows and focuses it, then brings the application to the front.
    pub fn show_at(&mut self, pos: Position) -> (r: Vec<Action>)
        ensures
            *final(self) == shown(*old(self), Some(pos)),
            r@ == show_seq(old(self).platform, Some(pos)),
    {
        self.show_with(Some(pos))
    }

    /// A click on the tray icon at `click`: hides a visible window, and shows
    /// a hidden one below the click.
    pub fn toggle_from_tray(&mut self, click: Position) -> (r: Vec<Action>)
        ensures
            *final(self) == toggled(*old(self), click),
            r@ == toggle_seq(*old(self), click),
    {
        if self.window.visible {
            self.window.visible = false;
            self.window.focused = false;
            let mut out: Vec<Action> = Vec::new();
            out.push(Action::Hide);
            assert(out@ =~= seq![Action::Hide]);
            out
        } else {
            let pos = tray_show_position(click);
            self.show_at(pos)
        }
    }

    /// The show shortcut, given what reading the cursor position gave: shows
    /// and focuses the window below the cursor, or where it is when the cursor
    /// could not be read.
    pub fn show_at_cursor(&mut self, cursor: Option<Position>) -> (r: Vec<Action>)
        ensures
            *final(self) == shown(*old(self), cursor_target(cursor)),
            r@ == show_seq(old(self).platform, cursor_target(cursor)),
    {
        match cursor {
            Some(c) => {
                let pos = cursor_show_position(c);
                self.show_with(Some(pos))
            },
            None => self.show_with(None),
        }
    }

    /// A quit request that the user answered with `confirmed`: the process
    /// exits with code 0 only when confirmed.
    pub fn request_quit(&mut self, confirmed: bool) -> (r: Vec<Action>)
        ensures
            *final(self) == after_quit(*old(self), confirmed),
            r@ == quit_seq(confirmed),
    {
        let mut out: Vec<Action> = Vec::new();
        if confirmed {
            self.running = false;
            out.push(Action::Exit(0));
        }
        assert(out@ =~= quit_seq(confirmed));
        out
    }

    /// A close request that the user answered with `confirmed`: the default
    /// close never happens; when confirmed the window is hidden, and the
    /// process stays resident.
    pub fn request_close(&mut self, confirmed: bool) -> (r: Vec<Action>)
        ensures
            *final(self) == after_close(*old(self), confirmed),
            r@ == close_seq(confirmed),
    {
        let mut out: Vec<Action> = Vec::new();
        out.push(Action::PreventClose);
        if confirmed {
            self.window.visible = false;
            self.window.focused = false;
            out.push(Action::Hide);
        }
        assert(out@ =~= close_seq(confirmed));
        out
    }
}

} // verus!
