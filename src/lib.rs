//! Raw mode for terminal devices.
//!
//! In raw mode a terminal hands input over byte by byte, does not echo it,
//! generates no signals from control characters and passes output through
//! unchanged. A [`TtyModeGuard`] captures a device's attributes once; every
//! mode switch is derived from that capture, and restoring puts it back
//! exactly. A [`TtyWithGuard`] couples a resource with such a guard so that
//! the resource can be used as before, and releases the guard before the
//! resource.
pub mod attr;
pub mod convert;
pub mod device;
pub mod error;
pub mod guard;
pub mod wrapper;

pub use attr::{derive_raw, raw_terminal_attr, Termios};
pub use convert::{GuardMode, IntoRawMode, RawReader};
pub use device::{get_terminal_attr, set_terminal_attr, MemoryTty, TtyDevice};
pub use error::{convert_to_result, IsMinusOne, OsError};
pub use guard::TtyModeGuard;
pub use wrapper::TtyWithGuard;
