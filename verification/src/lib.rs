//! Orchestration core for a desktop weighing-scale application.
//!
//! The crate sequences three collaborators that live outside it: a scale
//! driver, a file-backed list of device records, and a remote configuration
//! service. Every decision about *when* one of them may be used, and what
//! the shared state looks like afterwards, is taken here and proved.
//! The collaborators themselves are driven by the surrounding application,
//! which hands their results to this crate as plain values.

pub mod device;
pub mod error;
pub mod protocol;
pub mod provision;
pub mod state;
pub mod store;

use vstd::prelude::*;

verus! {

/// Location of the device list, relative to the user's home directory.
pub const CONFIG_PATH: &'static str = ".config/libra/config.toml";

/// Environment variable that names the user's home directory.
pub const HOME_VARIABLE: &'static str = "HOME";

/// Environment variable that supplies the credential of the remote service.
pub const AUTH_TOKEN_VARIABLE: &'static str = "AUTH_TOKEN";

} // verus!
