//! Verified core of the RegicideOS AI agents: the BtrMind storage agent, the PortCL
//! Portage agent and the Candle inference server.
use vstd::prelude::*;

pub mod binary64;
pub mod btrmind;
pub mod candle_server;
pub mod platform;
pub mod portcl;
pub mod text;
