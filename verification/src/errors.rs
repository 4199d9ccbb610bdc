use vstd::prelude::*;

verus! {

/// Failure taxonomy of the query and mutation pipeline.
#[derive(Clone, Debug)]
pub enum ApiError {
    /// The store was unreachable or rejected a statement; carries the
    /// store's own description. Never retried by the library.
    Storage(String),
    /// A by-id lookup found no row: user-visible, distinct from a
    /// storage failure.
    NotFound,
    /// A mutation referenced a related entity that does not exist: a
    /// validation failure, not a server fault.
    Reference,
}

impl ApiError {
    /// The user-visible description of the failure.
    pub fn message(&self) -> (r: String)
        ensures
            self matches ApiError::Storage(m) ==> r@ == m@,
            self matches ApiError::NotFound ==> r@ == "Post not found"@,
            self matches ApiError::Reference ==> r@ == "User not found"@,
    {
        match self {
            ApiError::Storage(m) => m.clone(),
            ApiError::NotFound => String::from_str("Post not found"),
            ApiError::Reference => String::from_str("User not found"),
        }
    }
}

} // verus!
