//! POSIX signals by name and number, and a registry that routes each delivered
//! signal to the handler installed for it.

pub mod order;
pub mod outcome;
pub mod registration;
pub mod registry;
pub mod signal;
pub mod trampoline;

pub use registry::{null_handler, set_handler, Registry};
pub use signal::Signal;
pub use trampoline::rust_signal_handler;
