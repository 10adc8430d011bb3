use vstd::prelude::*;

pub mod clock;
pub mod text;
pub mod cli_args;
pub mod discovery;
pub mod html;
pub mod latency;
pub mod project_config;
pub mod suite_report;
pub mod mobile_select;
pub mod json_text;
pub mod mobile_session;
pub mod platform;
pub mod mobile_setup;
pub mod runner;
pub mod vision;
pub mod driver;
pub mod demo_cli;
pub mod cli_commands;
pub mod session_logic;
pub mod archive;
pub mod scenario;

verus! {
} // verus!
