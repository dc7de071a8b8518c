//! A single-icon system-tray library for the desktop shell's notification
//! area: an icon image adapter that turns RGBA rasters into the platform's
//! color/AND mask pair, a registration handle that tracks the one
//! notification-area slot, and the window-message state machine that
//! classifies incoming window messages into tray events and lifecycle
//! directives.

pub mod error;
pub mod icon;
pub mod registration;
pub mod text;
pub mod window;

pub use error::TrayError;
pub use icon::IconHandle;
pub use icon::IconImage;
pub use icon::Pixel;
pub use registration::TrayRegistration;
pub use registration::WindowRef;
pub use text::to_wstring;
pub use window::Click;
pub use window::ClickResponse;
pub use window::Directive;
pub use window::MachineState;
pub use window::TrayEvent;
