//! The body the upstream sends when it rejects a query.

use vstd::prelude::*;
use vstd::std_specs::cmp::PartialEqSpecImpl;

verus! {

/// The structured body of a failed query, kept as the upstream sent it.
#[derive(Debug)]
pub struct ErrorResponse {
    /// The status the upstream reported.
    pub status: String,
    /// The reason the upstream gave.
    pub message: String,
    /// The query the upstream echoed back.
    pub query: String,
}

/// The text of the three fields of an [`ErrorResponse`].
pub struct ErrorResponseView {
    pub status: Seq<char>,
    pub message: Seq<char>,
    pub query: Seq<char>,
}

impl View for ErrorResponse {
    type V = ErrorResponseView;

    open spec fn view(&self) -> ErrorResponseView {
        ErrorResponseView { status: self.status@, message: self.message@, query: self.query@ }
    }
}

impl PartialEq for ErrorResponse {
    /// Two bodies are equal when their three fields hold the same text.
    fn eq(&self, other: &ErrorResponse) -> (same: bool) {
        self.status == other.status && self.message == other.message && self.query == other.query
    }
}

impl PartialEqSpecImpl for ErrorResponse {
    open spec fn obeys_eq_spec() -> bool {
        true
    }

    open spec fn eq_spec(&self, other: &ErrorResponse) -> bool {
        self@ == other@
    }
}

} // verus!
