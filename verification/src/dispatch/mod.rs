//! Request dispatch: the per-client queues, the request funnel, and the decisions
//! of the session and partition planes behind it.

pub mod auto_commit;
pub mod body;
pub mod forward;
pub mod funnel;
pub mod login;
pub mod partition;
pub mod poll;
pub mod queues;
pub mod request;
pub mod segments;
pub mod session;
pub mod status;
