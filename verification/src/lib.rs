//! Startup core of a desktop application that runs its service logic in a
//! sidecar process.
//!
//! The launcher picks a free local TCP port, works out where the bundled
//! tool binaries live, prepares the command that starts the sidecar on that
//! port, and keeps the port available for the user interface to query.
//! Everything here works on plain values; creating the process, touching the
//! process environment and talking to the window system are left to the host.

pub mod decimal;
pub mod error;
pub mod lifecycle;
pub mod port;
pub mod resources;
pub mod sidecar;

pub use error::{FailureKind, StartupError};
pub use lifecycle::{allocate_port, run, Action, Event, Phase, Startup};
pub use port::{find_free_port, get_api_port, port_from_probe, ApiPort};
pub use resources::{resolve_binaries, ResourceBundle, Target, Tool};
pub use sidecar::{sidecar_command, spawn_sidecar, SidecarCommand};
