//! Build orchestration for Switch homebrew projects: picking the package to
//! build, driving the compiler, reading its event stream and planning the
//! NRO or NSP packaging of each produced executable.

pub mod args;
pub mod paths;
pub mod resolve;
pub mod driver;
pub mod events;
