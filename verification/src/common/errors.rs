use vstd::prelude::*;

use crate::binder::error::BindError;

verus! {

/// The errors of the database: a binding error, or a message.
#[derive(Debug)]
pub enum BustubError {
    BindError(BindError),
    Message(String),
}

impl From<BindError> for BustubError {
    fn from(e: BindError) -> (r: Self) {
        BustubError::BindError(e)
    }
}

impl vstd::std_specs::convert::FromSpecImpl<BindError> for BustubError {
    open spec fn obeys_from_spec() -> bool {
        true
    }

    open spec fn from_spec(e: BindError) -> Self {
        BustubError::BindError(e)
    }
}

impl From<String> for BustubError {
    fn from(e: String) -> (r: Self) {
        BustubError::Message(e)
    }
}

impl vstd::std_specs::convert::FromSpecImpl<String> for BustubError {
    open spec fn obeys_from_spec() -> bool {
        true
    }

    open spec fn from_spec(e: String) -> Self {
        BustubError::Message(e)
    }
}

} // verus!
