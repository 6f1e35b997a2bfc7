//! Building blocks shared by the state engine.

pub mod functions;
pub mod input;
pub mod stateful_list;
pub mod terminal;
