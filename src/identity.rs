use vstd::prelude::*;

verus! {

/// The identity resolved for one request: who is asking, and whether they
/// administer the server.
#[derive(Clone, Copy, Debug, PartialEq, Eq)]
pub struct CurrentUser {
    /// The user identification number.
    pub user_id: i32,
    /// Whether the user is an administrator.
    pub is_admin: bool,
}

} // verus!
