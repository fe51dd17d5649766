//! Domain logic of a self-destructing encrypted message service: messages and
//! attachments, their storage records, the HTTP request/response objects, and
//! the decision logic of the repository and of the request handlers.

pub mod id;
pub mod time;
pub mod attachment;
pub mod consume;
pub mod dto;
pub mod env;
pub mod handler;
pub mod message;
pub mod model;
pub mod repo;

use vstd::prelude::*;

verus! {

/// A result whose success value is taken by its view.
pub open spec fn view_result<T: View, E>(r: Result<T, E>) -> Result<T::V, E> {
    match r {
        Ok(v) => Ok(v@),
        Err(e) => Err(e),
    }
}

} // verus!
