pub mod error_log;
pub mod tui;
pub mod decimal;
pub mod config;
pub mod cli;
pub mod er;
pub mod patch;
pub mod ds2;
pub mod address;
pub mod utils_object;
pub mod core_object;
pub mod object;
pub mod event_log;
pub mod attached;
pub mod game_version;
pub mod aob_scanner;
pub mod slice_ops;
