//! The error kinds that the library's operations surface.

use vstd::prelude::*;

verus! {

/// Every failure of the library is one of these kinds.
///
/// `SetupFailed` is fatal to startup (window registration, default icon
/// loading or the first shell add failed); `IconCreationFailed` and
/// `UpdateFailed` are recoverable and leave the current registration as it
/// was; `TooltipTooLong` is detected locally before any platform call;
/// `CursorQueryFailed` stands for a cursor read that failed, after which the
/// message is treated as handled and the event suppressed.
#[derive(Clone, Copy, Debug, PartialEq, Eq, Structural)]
pub enum TrayError {
    SetupFailed,
    IconCreationFailed,
    UpdateFailed,
    TooltipTooLong,
    CursorQueryFailed,
}

} // verus!
