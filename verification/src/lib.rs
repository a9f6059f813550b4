//! Verified core of a port-process inspection tool: discovery records for
//! listening ports, a filtering pipeline over them, a two-stage process
//! termination protocol, and the interactive session state that drives both.

pub mod commands;
pub mod error;
pub mod killer;
pub mod kubernetes;
pub mod port_filter;
pub mod port_info;
pub mod scanner;
pub mod session;
pub mod text;

pub use commands::WatchAddPlan;
pub use commands::find_port;
pub use commands::plan_watch_add;
pub use error::Error;
pub use session::App;
pub use kubernetes::KubectlError;
pub use scanner::LinuxScanner;
pub use scanner::WindowsScanner;
pub use killer::ProcessKiller;
pub use killer::SignalKind;
pub use killer::SignalOutcome;
pub use port_filter::PortFilter;
pub use port_filter::ProcessTypeSet;
pub use port_filter::all_process_types;
pub use port_filter::filter_ports;
pub use port_info::PortInfo;
pub use port_info::ProcessType;
pub use port_info::WatchedPort;
pub use text::is_substring_of;
