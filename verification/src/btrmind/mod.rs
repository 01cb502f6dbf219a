//! BtrMind: the storage agent that watches a BTRFS filesystem and frees space.
pub mod actions;
pub mod btrfs;
pub mod config;
pub mod learning;
pub mod fragmentation_model;
pub mod agent;
pub mod model_command;
