//! The roles a token can carry, and the names they travel under.

use vstd::prelude::*;

verus! {

/// The closed set of roles. A token carries exactly one of them.
#[allow(non_camel_case_types)]
#[derive(Debug, Clone, Copy, PartialEq, Eq, Structural)]
pub enum UserRole {
    ADMIN,
    MANAGER,
    STUDENT,
    TEACHER,
}

impl UserRole {
    /// The name under which the role stands in a token payload: the
    /// variant's name, in upper case.
    pub open spec fn wire_name(self) -> Seq<char> {
        match self {
            UserRole::ADMIN => "ADMIN"@,
            UserRole::MANAGER => "MANAGER"@,
            UserRole::STUDENT => "STUDENT"@,
            UserRole::TEACHER => "TEACHER"@,
        }
    }

    /// The role that a name in a payload stands for. Only the four upper-case
    /// names stand for a role; any other text stands for none.
    pub open spec fn of_wire_name(name: Seq<char>) -> Option<UserRole> {
        if name == "ADMIN"@ {
            Some(UserRole::ADMIN)
        } else if name == "MANAGER"@ {
            Some(UserRole::MANAGER)
        } else if name == "STUDENT"@ {
            Some(UserRole::STUDENT)
        } else if name == "TEACHER"@ {
            Some(UserRole::TEACHER)
        } else {
            None
        }
    }

    /// The role's name in a token payload.
    pub fn name(&self) -> (text: &'static str)
        ensures
            text@ == self.wire_name(),
    {
        match self {
            UserRole::ADMIN => "ADMIN",
            UserRole::MANAGER => "MANAGER",
            UserRole::STUDENT => "STUDENT",
            UserRole::TEACHER => "TEACHER",
        }
    }

    /// Reads a role from its name in a token payload.
    pub fn from_name(name: &str) -> (role: Option<UserRole>)
        ensures
            role == UserRole::of_wire_name(name@),
    {
        let given = name.to_owned();
        if given == "ADMIN".to_owned() {
            Some(UserRole::ADMIN)
        } else if given == "MANAGER".to_owned() {
            Some(UserRole::MANAGER)
        } else if given == "STUDENT".to_owned() {
            Some(UserRole::STUDENT)
        } else if given == "TEACHER".to_owned() {
            Some(UserRole::TEACHER)
        } else {
            None
        }
    }

    /// Whether the role is one of `allowed`.
    pub fn is_one_of(&self, allowed: &[UserRole]) -> (found: bool)
        ensures
            found == allowed@.contains(*self),
    {
        let mut i: usize = 0;
        while i < allowed.len()
            invariant
                i <= allowed@.len(),
                forall|j: int| 0 <= j < i ==> allowed@[j] != *self,
            decreases allowed@.len() - i,
        {
            if allowed[i] == *self {
                return true;
            }
            i += 1;
        }
        false
    }
}

} // verus!
