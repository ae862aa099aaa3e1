//! What the endpoints decide, apart from the transport that carries them.

pub mod account;
pub mod auth;
pub mod middleware;
pub mod news;

use vstd::prelude::*;
use vstd::std_specs::convert::FromSpecImpl;

verus! {

/// The answer to a deletion.
#[derive(Clone, Copy, Debug, PartialEq, Eq, Structural)]
pub struct DeletionResponse {
    pub deleted: bool,
}

impl From<bool> for DeletionResponse {
    fn from(value: bool) -> (r: Self) {
        Self { deleted: value }
    }
}

impl FromSpecImpl<bool> for DeletionResponse {
    open spec fn obeys_from_spec() -> bool {
        true
    }

    open spec fn from_spec(value: bool) -> Self {
        DeletionResponse { deleted: value }
    }
}

/// The answer to a creation.
#[derive(Clone, Copy, Debug, PartialEq, Eq, Structural)]
pub struct CreationResponse {
    pub created: bool,
}

impl From<bool> for CreationResponse {
    fn from(value: bool) -> (r: Self) {
        Self { created: value }
    }
}

impl FromSpecImpl<bool> for CreationResponse {
    open spec fn obeys_from_spec() -> bool {
        true
    }

    open spec fn from_spec(value: bool) -> Self {
        CreationResponse { created: value }
    }
}

} // verus!
