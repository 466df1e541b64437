//! What each platform asks of the window manager so that the window floats
//! above other windows and comes to the front when shown.
use vstd::prelude::*;

use crate::position::Position;

verus! {

/// Collection-behavior flag: the window joins every virtual desktop.
pub const COLLECTION_CAN_JOIN_ALL_SPACES: u64 = 1 << 0;

/// Collection-behavior flag: the window may appear beside full-screen apps.
pub const COLLECTION_FULL_SCREEN_AUXILIARY: u64 = 1 << 8;

/// Collection-behavior flag: the window stays put when desktops switch.
pub const COLLECTION_STATIONARY: u64 = 1 << 4;

/// The "popup menu" window level, which is above full-screen applications.
pub const POPUP_MENU_WINDOW_LEVEL: i64 = 101;

/// The collection behavior given to the window on a floating-panel platform.
pub const FLOATING_COLLECTION_BEHAVIOR: u64 =
    COLLECTION_CAN_JOIN_ALL_SPACES | COLLECTION_FULL_SCREEN_AUXILIARY | COLLECTION_STATIONARY;

/// The kind of window manager the application runs under.
#[derive(Clone, Copy, Debug, PartialEq, Eq, Structural)]
pub enum Platform {
    /// Floating-panel semantics: collection behavior, window levels, and an
    /// accessory activation policy (macOS).
    MacOs,
    /// Explicit z-order: topmost windows and a foreground window (Windows).
    Windows,
    /// Anything else: the framework's defaults apply.
    Other,
}

/// One operation on the window, the application or the process, carried out
/// by the host framework or the operating system.
#[derive(Clone, Copy, Debug, PartialEq, Eq, Structural)]
pub enum Action {
    /// Hide the application from the dock and the task bar for good.
    UseAccessoryPolicy,
    /// Set the window's collection-behavior bitmask.
    SetCollectionBehavior(u64),
    /// Set the window's level.
    SetWindowLevel(i64),
    /// Make the window topmost without moving, resizing or hiding it.
    SetTopmost,
    /// Move the window's top-left corner.
    SetPosition(Position),
    /// Show the window.
    Show,
    /// Give the window the keyboard focus.
    Focus,
    /// Bring the application in front of all others.
    ActivateApp,
    /// Show the window and make it the foreground window.
    BringToForeground,
    /// Hide the window; it stays alive and can be shown again.
    Hide,
    /// Stop the operating system's default handling of a close request.
    PreventClose,
    /// End the process with the given exit code.
    Exit(i32),
}

/// The operations that prepare the window before it is shown.
pub open spec fn prepare_seq(p: Platform) -> Seq<Action> {
    match p {
        Platform::MacOs => seq![
            Action::SetCollectionBehavior(FLOATING_COLLECTION_BEHAVIOR),
            Action::SetWindowLevel(POPUP_MENU_WINDOW_LEVEL),
        ],
        Platform::Windows => seq![Action::SetTopmost],
        Platform::Other => seq![],
    }
}

/// The operations that bring the application to the front once the window
/// is shown.
pub open spec fn activate_seq(p: Platform) -> Seq<Action> {
    match p {
        Platform::MacOs => seq![Action::ActivateApp],
        Platform::Windows => seq![Action::BringToForeground],
        Platform::Other => seq![],
    }
}

/// The operations done once at startup.
pub open spec fn startup_seq(p: Platform) -> Seq<Action> {
    match p {
        Platform::MacOs => seq![Action::UseAccessoryPolicy],
        _ => seq![],
    }
}

/// Appends the operations that prepare the window before it is shown.
pub fn push_prepare(p: Platform, out: &mut Vec<Action>)
    ensures
        final(out)@ == old(out)@ + prepare_seq(p),
{
    match p {
        Platform::MacOs => {
            out.push(Action::SetCollectionBehavior(FLOATING_COLLECTION_BEHAVIOR));
            out.push(Action::SetWindowLevel(POPUP_MENU_WINDOW_LEVEL));
        },
        Platform::Windows => {
            out.push(Action::SetTopmost);
        },
        Platform::Other => {},
    }
    assert(out@ =~= old(out)@ + prepare_seq(p));
}

/// Appends the operations that bring the application to the front.
pub fn push_activate(p: Platform, out: &mut Vec<Action>)
    ensures
        final(out)@ == old(out)@ + activate_seq(p),
{
    match p {
        Platform::MacOs => {
            out.push(Action::ActivateApp);
        },
        Platform::Windows => {
            out.push(Action::BringToForeground);
        },
        Platform::Other => {},
    }
    assert(out@ =~= old(out)@ + activate_seq(p));
}

/// The operations done once at startup: on a floating-panel platform the
/// application leaves the dock.
pub fn startup_actions(p: Platform) -> (r: Vec<Action>)
    ensures
        r@ == startup_seq(p),
{
    let mut out: Vec<Action> = Vec::new();
    if p == Platform::MacOs {
        out.push(Action::UseAccessoryPolicy);
    }
    assert(out@ =~= startup_seq(p));
    out
}

} // verus!
