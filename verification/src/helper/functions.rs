//! Fresh identities for the entities that the client creates, and the
//! refresh of the local state from the stored session.

use crate::api::request::Request;
use crate::api::user::{restore_request, restore_view};
use vstd::prelude::*;

verus! {

/// `Uuid::new_v4` of `uuid`, written out by `to_string`: a random identity
/// in the hyphenated notation, which takes 36 characters. Nothing else is
/// known of it, and two calls give two identities.
#[verifier::external_body]
pub(crate) fn fresh_id() -> (id: String)
    ensures
        id@.len() == 36,
{
    uuid::Uuid::new_v4().to_string()
}

/// Begins a refresh of the local state: with a stored session token the
/// request that restores that session, without one nothing.
pub fn refetch_data(cookie: Option<String>) -> (request: Option<Request>)
    ensures
        match cookie {
            Some(token) => request.is_some() && request.unwrap()@ == restore_view(Some(token@)),
            None => request.is_none(),
        },
{
    match cookie {
        Some(token) => Some(restore_request(Some(token))),
        None => None,
    }
}

} // verus!
