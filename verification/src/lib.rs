//! Client-side state engine of a terminal task board: selection lists, the
//! modal input form, the optimistic entity store and the decisions taken on
//! each key press. Every function carries a contract that Verus proves.

use vstd::prelude::*;

pub mod api;
pub mod app;
pub mod handler;
pub mod helper;
pub mod ui;

verus! {

/// Root of every address of the remote service.
pub const API_URL: &'static str = "https://quicktick-api.fly.dev";

} // verus!
