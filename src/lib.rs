//! Mode control for a laptop's thermal profiles: the fixed table of firmware
//! calls and CPU governors behind each profile, a step machine that drives one
//! profile change against the platform, and the state kept by the tray monitor.

pub mod mode;
pub mod platform;
pub mod run;
pub mod cli;
pub mod tray;

pub use mode::{
    mode_writes, set_balanced, set_performance, set_quiet, toggle_gmode, FanMode, Governor, Op,
    Payload,
};
pub use platform::{
    contains_marker, governor_outcome, is_gmode_on, is_policy_entry, GovernorError, PolicyWrite,
};
pub use run::{apply_mode, ApplyError, Event, ModeRun, Step};
pub use cli::{parse_command, CliCommand};
pub use tray::FanTray;
