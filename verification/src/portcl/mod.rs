//! PortCL, the Portage continual-learning agent: its errors, actions, safety and
//! rollback, configuration, monitoring parsers and service status rules.
pub mod error;
pub mod utils;
pub mod actions;
pub mod config;
pub mod monitor;
pub mod service;
pub mod rl_engine;
