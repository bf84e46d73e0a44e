//! Verified core of the Sigma Racer vehicle daemon.

pub mod can;
pub mod can_log;
pub mod env;
pub mod fanout;
pub mod liveness;
pub mod rpmsg;
pub mod schedule;
pub mod source;
pub mod text;
