//! Properties that hold across the presenter's requests.
use vstd::prelude::*;

use crate::platform::Action;
use crate::position::{on_screen, tray_position_spec, Position};
use crate::presenter::{
    after_close, after_quit, close_seq, cursor_target, quit_seq, show_seq, shown, toggle_seq,
    toggled, Presenter,
};

verus! {

/// Two tray clicks in a row leave the window as visible, or as hidden, as it
/// was before them.
pub proof fn lemma_toggle_twice_restores_visibility(s: Presenter, c1: Position, c2: Position)
    ensures
        toggled(toggled(s, c1), c2).window.visible == s.window.visible,
{
}

/// A quit or close request that the user cancels changes nothing and does not
/// end the process; no answer to a close request ends the process, and only a
/// confirmed quit request does.
pub proof fn lemma_requests_need_confirmation(s: Presenter, confirmed: bool, code: i32)
    ensures
        after_quit(s, false) == s,
        quit_seq(false).len() == 0,
        after_close(s, false) == s,
        close_seq(false) == seq![Action::PreventClose],
        !close_seq(confirmed).contains(Action::Exit(code)),
        after_close(s, confirmed).running == s.running,
        quit_seq(confirmed).contains(Action::Exit(code)) ==> confirmed && code == 0,
        !after_quit(s, confirmed).running ==> confirmed || !s.running,
{
    if close_seq(confirmed).contains(Action::Exit(code)) {
        let i = choose|i: int| 0 <= i < close_seq(confirmed).len()
            && close_seq(confirmed)[i] == Action::Exit(code);
        assert(false);
    }
    if quit_seq(confirmed).contains(Action::Exit(code)) {
        assert(quit_seq(confirmed).len() > 0);
    }
}

/// A confirmed close request only hides the window: the next tray click shows
/// it again, below the click.
pub proof fn lemma_closed_window_shows_again(s: Presenter, click: Position)
    ensures
        toggled(after_close(s, true), click).window.visible,
        toggled(after_close(s, true), click).window.position == Some(tray_position_spec(click)),
        toggle_seq(after_close(s, true), click).contains(Action::Show),
        on_screen(tray_position_spec(click)),
{
    let t = toggle_seq(after_close(s, true), click);
    let k: int = crate::platform::prepare_seq(s.platform).len() as int + 1;
    assert(t[k] == Action::Show);
}

/// When the cursor position cannot be read, the show shortcut still leaves
/// the window visible and focused, and still shows and focuses it.
pub proof fn lemma_cursor_failure_still_shows(s: Presenter)
    ensures
        shown(s, cursor_target(None)).window.visible,
        shown(s, cursor_target(None)).window.focused,
        shown(s, cursor_target(None)).window.position == s.window.position,
        show_seq(s.platform, cursor_target(None)).contains(Action::Show),
        show_seq(s.platform, cursor_target(None)).contains(Action::Focus),
{
    let t = show_seq(s.platform, None);
    let k: int = crate::platform::prepare_seq(s.platform).len() as int;
    assert(t[k] == Action::Show);
    assert(t[k + 1] == Action::Focus);
}

} // verus!
