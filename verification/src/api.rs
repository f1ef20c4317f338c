//! The envelope of every API answer, and the paging of list queries.

use vstd::prelude::*;

verus! {

/// An API answer: either data, or an error message.
#[derive(Debug, Clone)]
pub struct ApiResponse<T> {
    pub success: bool,
    pub data: Option<T>,
    pub error: Option<String>,
}

impl<T> ApiResponse<T> {
    /// A well-formed answer: it succeeded exactly when it carries data, and
    /// carries an error message exactly when it failed.
    pub open spec fn well_formed(&self) -> bool {
        &&& self.success <==> self.data.is_some()
        &&& self.success <==> self.error.is_none()
    }

    /// A successful answer carrying `data`.
    pub fn ok(data: T) -> (response: Self)
        ensures
            response.well_formed(),
            response.success,
            response.data == Some(data),
            response.error.is_none(),
    {
        ApiResponse { success: true, data: Some(data), error: None }
    }

    /// A failed answer carrying the error message `message`.
    pub fn err(message: String) -> (response: Self)
        ensures
            response.well_formed(),
            !response.success,
            response.data.is_none(),
            response.error == Some(message),
    {
        ApiResponse { success: false, data: None, error: Some(message) }
    }
}

/// Paging of a list query: the most entries to return, if given.
#[derive(Debug, Clone, Copy)]
pub struct Pagination {
    pub limit: Option<usize>,
}

} // verus!
