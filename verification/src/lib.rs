//! Headless engine for exercising a host's filesystem, network and clipboard
//! through one command interface, with probes, scripted scenarios and the
//! request protocol of the local daemon.

pub mod assets;
pub mod cli;
pub mod clock;
pub mod commands;
pub mod context;
pub mod daemon;
pub mod doctor;
pub mod global_config;
pub mod host;
pub mod json;
pub mod logging;
pub mod paths;
pub mod platform;
pub mod probes;
pub mod scenario;
pub mod text;
pub mod traits;
pub mod types;
pub mod wire;

pub use commands::CommandRegistry;
pub use context::AppContext;
pub use types::{CommandResult, ErrorCode, ErrorInfo, Status};
