//! The window-message state machine: the decision core invoked for every
//! message the hidden host window receives. It classifies each
//! (message, sub-code) pair into a directive — pass the message through,
//! sample the cursor and emit a click event, resolve or act on the
//! taskbar-restart notification, or terminate the loop — while the
//! surrounding message loop performs the platform calls it orders.

use vstd::prelude::*;

use crate::error::TrayError;

verus! {

/// The window-creation message, delivered once when the host window comes up.
pub const WM_CREATE: u32 = 1;

/// The window-destruction message; the only message that terminates the loop.
pub const WM_DESTROY: u32 = 2;

/// The quit message the loop driver watches for.
pub const WM_QUIT: u32 = 18;

/// The menu-command message; reserved, intentionally inert.
pub const WM_MENUCOMMAND: u32 = 294;

/// Mouse sub-code: left button released.
pub const WM_LBUTTONUP: u32 = 514;

/// Mouse sub-code: left button double-clicked.
pub const WM_LBUTTONDBLCLK: u32 = 515;

/// Mouse sub-code: right button released.
pub const WM_RBUTTONUP: u32 = 517;

/// Mouse sub-code: right button double-clicked.
pub const WM_RBUTTONDBLCLK: u32 = 518;

/// Mouse sub-code: middle button released.
pub const WM_MBUTTONUP: u32 = 520;

/// Mouse sub-code: middle button double-clicked.
pub const WM_MBUTTONDBLCLK: u32 = 521;

/// Mouse sub-code: extra (X) button released.
pub const WM_XBUTTONUP: u32 = 524;

/// Mouse sub-code: extra (X) button double-clicked.
pub const WM_XBUTTONDBLCLK: u32 = 525;

/// The first message number reserved for applications.
pub const WM_USER: u32 = 1024;

/// The custom notification message the tray icon is subscribed with: mouse
/// interaction with the icon arrives under this number, the mouse sub-code
/// riding in the message's extra parameter.
pub const TRAY_CALLBACK_MESSAGE: u32 = WM_USER + 1;

/// The lower end of the range the platform assigns dynamically registered
/// message numbers from (the taskbar-restart notification is one).
pub const REGISTERED_MESSAGE_MIN: u32 = 0xC000;

/// The upper end of the dynamically registered message-number range.
pub const REGISTERED_MESSAGE_MAX: u32 = 0xFFFF;

/// The mouse button a click came from.
#[derive(Clone, Copy, Debug, PartialEq, Eq, Structural)]
pub enum Button {
    Left,
    Right,
    Middle,
    Forward,
}

/// A classified click: a button released once, or double-clicked. Derived
/// purely from the sub-code of one mouse-input notification; no state is
/// carried across calls.
#[derive(Clone, Copy, Debug, PartialEq, Eq, Structural)]
pub enum Click {
    Single(Button),
    Double(Button),
}

/// One semantic tray event: the classified click and a snapshot of the
/// global cursor position at the instant the click message was received.
#[derive(Clone, Copy, Debug, PartialEq, Eq)]
pub struct TrayEvent {
    pub mouse: Click,
    pub position: (i32, i32),
}

/// What the state machine tells the surrounding message loop to do with one
/// incoming message.
#[derive(Clone, Copy, Debug, PartialEq, Eq, Structural)]
pub enum Directive {
    /// Delegate to the platform's default procedure; nothing of the tray's
    /// concern happened.
    PassThrough,
    /// A recognized mouse notification: sample the global cursor position,
    /// then finish the classification with `on_cursor`.
    QueryCursor,
    /// The window-creation message: resolve the taskbar-restart message
    /// number and record it with `record_restart_message`.
    RegisterRestart,
    /// The taskbar restarted: re-run the icon-attach sequence, and terminate
    /// the process if that fails.
    ReaddIcon,
    /// The host window is being destroyed: post the quit message.
    Quit,
}

/// How a recognized mouse notification ends once the cursor was sampled.
#[derive(Clone, Copy, Debug, PartialEq, Eq)]
pub enum ClickResponse {
    /// The cursor position could not be read: report the message as already
    /// handled and emit nothing.
    Suppress,
    /// Hand this event to the embedder and bring the host window to the
    /// foreground.
    Notify(TrayEvent),
}

/// True of exactly the eight mouse sub-codes the machine reacts to:
/// left, right, middle and extra button, each released or double-clicked.
pub open spec fn recognized_sub_code(sub_code: u32) -> bool {
    ||| sub_code == WM_LBUTTONUP
    ||| sub_code == WM_LBUTTONDBLCLK
    ||| sub_code == WM_RBUTTONUP
    ||| sub_code == WM_RBUTTONDBLCLK
    ||| sub_code == WM_MBUTTONUP
    ||| sub_code == WM_MBUTTONDBLCLK
    ||| sub_code == WM_XBUTTONUP
    ||| sub_code == WM_XBUTTONDBLCLK
}

/// The click each recognized sub-code stands for: a button release is a
/// single click, a double-click message a double click, per button; any
/// other sub-code stands for no click.
pub open spec fn spec_classify_click(sub_code: u32) -> Option<Click> {
    if sub_code == WM_LBUTTONUP {
        Some(Click::Single(Button::Left))
    } else if sub_code == WM_RBUTTONUP {
        Some(Click::Single(Button::Right))
    } else if sub_code == WM_MBUTTONUP {
        Some(Click::Single(Button::Middle))
    } else if sub_code == WM_XBUTTONUP {
        Some(Click::Single(Button::Forward))
    } else if sub_code == WM_LBUTTONDBLCLK {
        Some(Click::Double(Button::Left))
    } else if sub_code == WM_RBUTTONDBLCLK {
        Some(Click::Double(Button::Right))
    } else if sub_code == WM_MBUTTONDBLCLK {
        Some(Click::Double(Button::Middle))
    } else if sub_code == WM_XBUTTONDBLCLK {
        Some(Click::Double(Button::Forward))
    } else {
        None
    }
}

/// The event a recognized sub-code and a cursor position assemble into.
pub open spec fn spec_tray_event(sub_code: u32, position: (i32, i32)) -> TrayEvent {
    TrayEvent { mouse: spec_classify_click(sub_code)->Some_0, position }
}

/// The machine's one piece of process-lifetime state: the taskbar-restart
/// message number, unresolved until the window-creation message and cached
/// from then on.
#[derive(Clone, Copy, Debug, PartialEq, Eq)]
pub struct MachineState {
    pub restart_message: Option<u32>,
}

/// The directive for one incoming (message, sub-code) pair, in priority
/// order: the inert menu-command branch; the tray notification with a
/// recognized mouse sub-code; the creation message; the cached
/// taskbar-restart number; the destruction message; everything else passes
/// through to the default procedure.
pub open spec fn spec_directive(state: MachineState, msg: u32, sub_code: u32) -> Directive {
    if msg == WM_MENUCOMMAND {
        Directive::PassThrough
    } else if msg == TRAY_CALLBACK_MESSAGE && recognized_sub_code(sub_code) {
        Directive::QueryCursor
    } else if msg == WM_CREATE {
        Directive::RegisterRestart
    } else if state.restart_message matches Some(id) && msg == id {
        Directive::ReaddIcon
    } else if msg == WM_DESTROY {
        Directive::Quit
    } else {
        Directive::PassThrough
    }
}

impl MachineState {
    /// Valid states: the restart number is unresolved, or one the platform
    /// assigned from its dynamic registration range.
    pub open spec fn wf(&self) -> bool {
        self.restart_message matches Some(id) ==> REGISTERED_MESSAGE_MIN <= id
            <= REGISTERED_MESSAGE_MAX
    }

    /// The machine before the window-creation message: nothing cached yet.
    pub fn new() -> (s: MachineState)
        ensures
            s.restart_message is None,
            s.wf(),
    {
        MachineState { restart_message: None }
    }

    /// Caches the taskbar-restart message number once resolved. Re-resolving
    /// on a repeated creation message records it again, idempotently.
    pub fn record_restart_message(&mut self, id: u32)
        requires
            REGISTERED_MESSAGE_MIN <= id <= REGISTERED_MESSAGE_MAX,
        ensures
            final(self).restart_message == Some(id),
            final(self).wf(),
    {
        self.restart_message = Some(id);
    }

    /// Decides what one incoming message means for the tray. The machine
    /// itself never changes here; only `record_restart_message` does.
    pub fn handle_message(&self, msg: u32, sub_code: u32) -> (d: Directive)
        ensures
            d == spec_directive(*self, msg, sub_code),
            self.wf() ==> (d == Directive::Quit <==> msg == WM_DESTROY),
            self.wf() ==> (d == Directive::RegisterRestart <==> msg == WM_CREATE),
            self.wf() ==> (d == Directive::QueryCursor <==> msg == TRAY_CALLBACK_MESSAGE
                && recognized_sub_code(sub_code)),
            self.wf() ==> (d == Directive::ReaddIcon <==> (self.restart_message matches Some(id)
                && msg == id)),
    {
        if msg == WM_MENUCOMMAND {
            // reserved for menu-item dispatch; deliberately inert
            Directive::PassThrough
        } else if msg == TRAY_CALLBACK_MESSAGE && is_recognized_sub_code(sub_code) {
            Directive::QueryCursor
        } else if msg == WM_CREATE {
            Directive::RegisterRestart
        } else {
            let restart_hit: bool = match self.restart_message {
                Some(id) => msg == id,
                None => false,
            };
            if restart_hit {
                Directive::ReaddIcon
            } else if msg == WM_DESTROY {
                Directive::Quit
            } else {
                Directive::PassThrough
            }
        }
    }
}

/// Whether a sub-code is one of the eight the machine recognizes.
pub fn is_recognized_sub_code(sub_code: u32) -> (b: bool)
    ensures
        b == recognized_sub_code(sub_code),
{
    sub_code == WM_LBUTTONUP || sub_code == WM_LBUTTONDBLCLK || sub_code == WM_RBUTTONUP
        || sub_code == WM_RBUTTONDBLCLK || sub_code == WM_MBUTTONUP || sub_code == WM_MBUTTONDBLCLK
        || sub_code == WM_XBUTTONUP || sub_code == WM_XBUTTONDBLCLK
}

/// Classifies a mouse sub-code into its click, if it is one of the eight.
pub fn classify_click(sub_code: u32) -> (r: Option<Click>)
    ensures
        r == spec_classify_click(sub_code),
        r is Some <==> recognized_sub_code(sub_code),
{
    if sub_code == WM_LBUTTONUP {
        Some(Click::Single(Button::Left))
    } else if sub_code == WM_RBUTTONUP {
        Some(Click::Single(Button::Right))
    } else if sub_code == WM_MBUTTONUP {
        Some(Click::Single(Button::Middle))
    } else if sub_code == WM_XBUTTONUP {
        Some(Click::Single(Button::Forward))
    } else if sub_code == WM_LBUTTONDBLCLK {
        Some(Click::Double(Button::Left))
    } else if sub_code == WM_RBUTTONDBLCLK {
        Some(Click::Double(Button::Right))
    } else if sub_code == WM_MBUTTONDBLCLK {
        Some(Click::Double(Button::Middle))
    } else if sub_code == WM_XBUTTONDBLCLK {
        Some(Click::Double(Button::Forward))
    } else {
        None
    }
}

/// Interprets the platform's answer to the global cursor query: a zero
/// status means the position could not be read and surfaces
/// `CursorQueryFailed`; any other status makes `(x, y)` the sampled point.
pub fn cursor_query_outcome(status: i32, x: i32, y: i32) -> (r: Result<(i32, i32), TrayError>)
    ensures
        status != 0 <==> r is Ok,
        status != 0 ==> r == Ok::<(i32, i32), TrayError>((x, y)),
        status == 0 ==> r == Err::<(i32, i32), TrayError>(TrayError::CursorQueryFailed),
{
    if status != 0 {
        Ok((x, y))
    } else {
        Err(TrayError::CursorQueryFailed)
    }
}

/// Finishes a recognized mouse notification once the cursor was sampled:
/// a failed read suppresses the event (the message counts as handled), a
/// successful one yields the tray event to hand to the embedder.
pub fn on_cursor(sub_code: u32, cursor: Option<(i32, i32)>) -> (r: ClickResponse)
    requires
        recognized_sub_code(sub_code),
    ensures
        cursor is None ==> r == ClickResponse::Suppress,
        cursor matches Some(p) ==> r == ClickResponse::Notify(spec_tray_event(sub_code, p)),
{
    match cursor {
        None => ClickResponse::Suppress,
        Some(p) => match classify_click(sub_code) {
            Some(click) => ClickResponse::Notify(TrayEvent { mouse: click, position: p }),
            None => vstd::pervasive::unreached(),
        },
    }
}

/// The message loop driver's exit test: the loop stops exactly when the
/// quit message is observed.
pub fn loop_should_exit(msg: u32) -> (b: bool)
    ensures
        b <==> msg == WM_QUIT,
{
    msg == WM_QUIT
}

/// A destroy message, and only a destroy message, makes the machine order
/// the loop's termination; a create message orders the restart-number
/// registration instead, never termination.
pub proof fn lemma_destroy_alone_terminates(state: MachineState, msg: u32, sub_code: u32)
    requires
        state.wf(),
    ensures
        spec_directive(state, msg, sub_code) == Directive::Quit <==> msg == WM_DESTROY,
        spec_directive(state, WM_CREATE, sub_code) == Directive::RegisterRestart,
{
}

/// Each of the eight recognized mouse sub-codes maps to its documented
/// click variant and button; every other sub-code under the
/// tray-notification message passes through, with no event and no state
/// change.
pub proof fn lemma_click_classification(state: MachineState, sub_code: u32)
    requires
        state.wf(),
    ensures
        spec_classify_click(WM_LBUTTONUP) == Some(Click::Single(Button::Left)),
        spec_classify_click(WM_RBUTTONUP) == Some(Click::Single(Button::Right)),
        spec_classify_click(WM_MBUTTONUP) == Some(Click::Single(Button::Middle)),
        spec_classify_click(WM_XBUTTONUP) == Some(Click::Single(Button::Forward)),
        spec_classify_click(WM_LBUTTONDBLCLK) == Some(Click::Double(Button::Left)),
        spec_classify_click(WM_RBUTTONDBLCLK) == Some(Click::Double(Button::Right)),
        spec_classify_click(WM_MBUTTONDBLCLK) == Some(Click::Double(Button::Middle)),
        spec_classify_click(WM_XBUTTONDBLCLK) == Some(Click::Double(Button::Forward)),
        recognized_sub_code(sub_code) <==> spec_classify_click(sub_code) is Some,
        !recognized_sub_code(sub_code) ==> spec_directive(
            state,
            TRAY_CALLBACK_MESSAGE,
            sub_code,
        ) == Directive::PassThrough,
{
}

} // verus!
