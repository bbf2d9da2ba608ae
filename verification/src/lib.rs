//! Decision core of a replicated message server.

pub mod boot;
pub mod dispatch;
pub mod offset_recovery;
pub mod partition_helpers;
pub mod shell;
pub mod time;
