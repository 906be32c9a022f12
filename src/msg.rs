use vstd::prelude::*;

verus! {

/// Reply of the viewing-key service.
#[derive(Debug, Clone, Copy, PartialEq, Eq, Structural)]
pub enum AuthQueryAnswer {
    ValidateViewingKey { is_valid: bool },
}

#[derive(Debug, Clone, Copy, PartialEq, Eq, Structural)]
pub enum ResponseStatus {
    Success,
    Failure,
}

} // verus!
