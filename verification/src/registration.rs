//! The tray registration handle: the bookkeeping of the one
//! notification-area slot this library owns — its creation, icon and
//! tooltip updates, and the re-registration forced by a taskbar restart.
//! The platform calls themselves happen outside; each function here takes
//! the shell's answer and says exactly what the registration becomes for
//! either answer.

use vstd::prelude::*;

use crate::error::TrayError;
use crate::icon::IconHandle;
use crate::text::to_wstring;
use crate::text::utf16_of;

verus! {

/// The numeric icon identifier of this library's single notification-area
/// slot: the registration is keyed by the pair (window, this constant).
pub const ICON_ID: u32 = 1;

/// The tooltip's capacity in UTF-16 code units, terminator included: the
/// size of the fixed buffer the platform exposes for it.
pub const TOOLTIP_CAPACITY: usize = 128;

/// A non-owning reference to the hidden host window. The raw value 0 is
/// the platform's "no window" and never refers to a live one.
#[derive(Clone, Copy, Debug, PartialEq, Eq, Structural)]
pub struct WindowRef {
    pub raw: isize,
}

impl WindowRef {
    /// A reference names a live window exactly when it is non-zero.
    pub open spec fn valid(&self) -> bool {
        self.raw != 0
    }
}

/// One notification-area slot, keyed by (window, `ICON_ID`): the owning
/// window, the icon currently attached, and the current tooltip — encoded
/// UTF-16 with its terminator, empty while none was ever set, last write
/// wins.
#[derive(Clone, Debug, PartialEq, Eq)]
pub struct TrayRegistration {
    pub window: WindowRef,
    pub icon: IconHandle,
    pub tooltip: Vec<u16>,
}

impl TrayRegistration {
    /// What every registration satisfies from creation on: a live window, a
    /// live icon, and a tooltip that fits the platform's buffer.
    pub open spec fn wf(&self) -> bool {
        &&& self.window.valid()
        &&& self.icon.valid()
        &&& self.tooltip@.len() <= TOOLTIP_CAPACITY
    }
}

/// Concludes the creation sequence for the one tray slot. The window was
/// created and the default icon chosen before this; `add_ok` is the shell's
/// answer to the ADD call that attaches icon id `ICON_ID` and subscribes
/// the window to the tray's notification message. A rejected add is
/// terminal for the whole creation: no partial-success state is left, the
/// caller must treat the error as "no icon exists".
pub fn create_registration(window: WindowRef, icon: IconHandle, add_ok: bool) -> (r: Result<
    TrayRegistration,
    TrayError,
>)
    requires
        window.valid(),
        icon.valid(),
    ensures
        add_ok <==> r is Ok,
        r matches Ok(reg) ==> reg.window == window && reg.icon == icon && reg.tooltip@
            == Seq::<u16>::empty() && reg.wf(),
        !add_ok ==> r == Err::<TrayRegistration, TrayError>(TrayError::SetupFailed),
{
    if add_ok {
        Ok(TrayRegistration { window, icon, tooltip: Vec::new() })
    } else {
        Err(TrayError::SetupFailed)
    }
}

/// Applies the shell's answer to a MODIFY call that replaces the icon:
/// acceptance installs the new icon and touches nothing else, rejection
/// leaves the registration exactly as it was and surfaces `UpdateFailed`.
pub fn apply_icon_update(reg: &mut TrayRegistration, icon: IconHandle, modify_ok: bool) -> (r:
    Result<(), TrayError>)
    requires
        old(reg).wf(),
        icon.valid(),
    ensures
        final(reg).wf(),
        final(reg).window == old(reg).window,
        final(reg).tooltip@ == old(reg).tooltip@,
        modify_ok ==> r is Ok && final(reg).icon == icon,
        !modify_ok ==> r == Err::<(), TrayError>(TrayError::UpdateFailed) && final(reg).icon == old(
            reg,
        ).icon,
{
    if modify_ok {
        reg.icon = icon;
        Ok(())
    } else {
        Err(TrayError::UpdateFailed)
    }
}

/// Validates and encodes tooltip text, before any platform call. Text whose
/// UTF-16 encoding, terminator included, exceeds the platform's fixed
/// 128-unit buffer is rejected here with `TooltipTooLong` and never reaches
/// the platform; accepted text comes back encoded, terminator included.
pub fn prepare_tooltip(text: &str) -> (r: Result<Vec<u16>, TrayError>)
    ensures
        utf16_of(text@).len() + 1 <= TOOLTIP_CAPACITY <==> r is Ok,
        r matches Ok(wide) ==> wide@ == utf16_of(text@).push(0u16),
        r is Err ==> r == Err::<Vec<u16>, TrayError>(TrayError::TooltipTooLong),
{
    let wide = to_wstring(text);
    if wide.len() > TOOLTIP_CAPACITY {
        Err(TrayError::TooltipTooLong)
    } else {
        Ok(wide)
    }
}

/// Applies the shell's answer to a MODIFY call that replaces the tooltip:
/// acceptance makes `wide` the current tooltip (last write wins), rejection
/// leaves the registration exactly as it was and surfaces `UpdateFailed`.
pub fn apply_tooltip_update(reg: &mut TrayRegistration, wide: Vec<u16>, modify_ok: bool) -> (r:
    Result<(), TrayError>)
    requires
        old(reg).wf(),
        wide@.len() <= TOOLTIP_CAPACITY,
    ensures
        final(reg).wf(),
        final(reg).window == old(reg).window,
        final(reg).icon == old(reg).icon,
        modify_ok ==> r is Ok && final(reg).tooltip@ == wide@,
        !modify_ok ==> r == Err::<(), TrayError>(TrayError::UpdateFailed) && final(reg).tooltip@
            == old(reg).tooltip@,
{
    if modify_ok {
        reg.tooltip = wide;
        Ok(())
    } else {
        Err(TrayError::UpdateFailed)
    }
}

/// How the recovery after a taskbar restart ended.
#[derive(Clone, Copy, Debug, PartialEq, Eq, Structural)]
pub enum RestartOutcome {
    /// The default icon loaded and the shell accepted the ADD call: the
    /// single registration stands again, under the same key.
    Reestablished,
    /// Icon loading or the ADD call failed: the process is to post its own
    /// termination — the deliberate fail-fast policy, since a tray-only
    /// application cannot usefully continue without its tray presence.
    FailFast,
}

/// Re-runs the bookkeeping of the icon-attach sequence after the shell
/// announced a taskbar restart: `icon` is the outcome of reloading the
/// default icon (fallback already applied), `add_ok` the shell's answer to
/// the repeated ADD call. Success re-establishes the same slot — same
/// window, same icon id, tooltip kept; any failure orders fail-fast
/// termination and changes nothing.
pub fn apply_taskbar_restart(
    reg: &mut TrayRegistration,
    icon: Option<IconHandle>,
    add_ok: bool,
) -> (r: RestartOutcome)
    requires
        old(reg).wf(),
        icon matches Some(h) ==> h.valid(),
    ensures
        final(reg).wf(),
        final(reg).window == old(reg).window,
        final(reg).tooltip@ == old(reg).tooltip@,
        (icon is Some && add_ok) <==> r == RestartOutcome::Reestablished,
        r == RestartOutcome::Reestablished ==> final(reg).icon == icon->Some_0,
        r == RestartOutcome::FailFast ==> final(reg).icon == old(reg).icon,
{
    match icon {
        Some(h) => {
            if add_ok {
                reg.icon = h;
                RestartOutcome::Reestablished
            } else {
                RestartOutcome::FailFast
            }
        },
        None => RestartOutcome::FailFast,
    }
}

/// The shell's notification-area registry after an ADD call for `window`'s
/// tray slot, modelled as the set of (window, icon id) keys it holds: the
/// shell keeps one entry per key.
pub open spec fn shell_after_add(slots: Set<(isize, u32)>, window: WindowRef) -> Set<(isize, u32)> {
    slots.insert((window.raw, ICON_ID))
}

/// Running the taskbar-restart path twice in succession, against a shell
/// that accepts repeated ADD calls, leaves the registry exactly as one run
/// leaves it: the slot keyed (window, `ICON_ID`) is present, and present
/// once — a second run adds no duplicate icon.
pub proof fn lemma_taskbar_restart_idempotent(slots: Set<(isize, u32)>, window: WindowRef)
    ensures
        shell_after_add(shell_after_add(slots, window), window) == shell_after_add(slots, window),
        shell_after_add(slots, window).contains((window.raw, ICON_ID)),
        shell_after_add(Set::empty(), window).len() == 1,
{
    assert(shell_after_add(shell_after_add(slots, window), window) =~= shell_after_add(
        slots,
        window,
    ));
}

} // verus!
