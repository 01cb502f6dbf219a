//! PortCL's configuration and its checks.
pub mod settings;
pub mod validation;
