//! The entities of the remote service and the actions on them.

pub mod board;
pub mod request;
pub mod task;
pub mod user;
