//! The Helix users endpoint: which user the access token belongs to.

use vstd::prelude::*;
use crate::http::{is_client_error, is_client_error_status};

verus! {

/// The answer of the users endpoint.
pub struct HelixData {
    pub data: Vec<HelixArray>,
}

/// One user.
pub struct HelixArray {
    pub id: String,
    pub login: String,
}

/// Whether a users reply means the token must be refreshed and the request
/// sent again: it does on a client error.
pub fn users_reply_needs_fresh_token(status: u16) -> (retry: bool)
    ensures
        retry == is_client_error_status(status),
{
    is_client_error(status)
}

/// The broadcaster's id: that of the first user of the answer, if any.
pub fn broadcaster_id(answer: &HelixData) -> (id: Option<String>)
    ensures
        match id {
            Some(i) => answer.data@.len() > 0 && i@ == answer.data@[0].id@,
            None => answer.data@.len() == 0,
        },
{
    if answer.data.len() == 0 {
        None
    } else {
        Some(answer.data[0].id.clone())
    }
}

} // verus!
