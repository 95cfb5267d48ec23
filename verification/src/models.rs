//! The two bodies that the identity service answers with.

use vstd::prelude::*;

verus! {

/// The body of a rejection: what the service says went wrong.
#[derive(Debug, Clone, PartialEq, Eq)]
pub struct RoleErrorResponse {
    pub error: String,
}

/// The body of a successful answer: the roles the service asserts for a
/// user, each written as a role identifier.
#[derive(Debug, Clone, PartialEq, Eq)]
pub struct RoleSuccessResponse {
    pub roles: Vec<String>,
}

impl View for RoleErrorResponse {
    type V = Seq<char>;

    open spec fn view(&self) -> Seq<char> {
        self.error@
    }
}

impl View for RoleSuccessResponse {
    type V = Seq<Seq<char>>;

    open spec fn view(&self) -> Seq<Seq<char>> {
        self.roles.deep_view()
    }
}

} // verus!
