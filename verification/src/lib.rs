//! Decision logic for keeping application windows out of screen captures.
//!
//! The crate holds no window and makes no system call. A host program owns
//! the windows, performs the platform calls and the waiting, and asks this
//! crate what to do next and what to answer.

pub mod capture;
pub mod label;
pub mod preference;
pub mod reactor;
pub mod reactor_laws;

pub use preference::ProtectionState;
