//! Roles of signed-in users, and the guard that admits a role.
use vstd::prelude::*;
use crate::error::Error;

verus! {

/// What a user may do.
#[derive(Clone, Copy, Debug, PartialEq, Eq, Structural)]
pub enum Role {
    User,
    Admin,
}

/// What a signed-in session carries about its user.
#[derive(Clone, Debug)]
pub struct Claims {
    pub exp: usize,
    pub email: String,
    pub id: String,
    pub roles: Vec<Role>,
}

/// Admits callers that hold one given role.
#[derive(Clone, Copy, Debug, PartialEq, Eq, Structural)]
pub struct RoleGuard {
    pub role: Role,
}

impl RoleGuard {
    /// A guard for `role`.
    pub fn new(role: Role) -> (r: Self)
        ensures
            r.role == role,
    {
        Self { role }
    }

    /// Admits a caller whose roles include the guard's role; refuses any
    /// other as forbidden.
    pub fn check(&self, roles: &Vec<Role>) -> (r: Result<(), Error>)
        ensures
            r is Ok <==> roles@.contains(self.role),
            r matches Err(e) ==> e is Forbidden,
    {
        let mut i: usize = 0;
        while i < roles.len()
            invariant
                i <= roles@.len(),
                forall|k: int| 0 <= k < i ==> roles@[k] != self.role,
            decreases roles@.len() - i,
        {
            if roles[i] == self.role {
                return Ok(());
            }
            i = i + 1;
        }
        Err(Error::Forbidden)
    }
}

} // verus!
