//! The identity and target a run works with.

use vstd::prelude::*;

verus! {

/// Who runs the collectors and against which machine: the current user and
/// the local machine where a part is absent.
pub struct Runtime {
    pub computer_name: Option<String>,
    pub username: Option<String>,
    pub password: Option<String>,
}

impl Runtime {
    pub fn new(username: Option<String>, password: Option<String>, computer_name: Option<String>) -> (r: Runtime)
        ensures
            r.username == username,
            r.password == password,
            r.computer_name == computer_name,
    {
        Runtime { computer_name, username, password }
    }

    /// Whether a remote machine is the target.
    pub fn is_remote(&self) -> (r: bool)
        ensures
            r == self.computer_name is Some,
    {
        self.computer_name.is_some()
    }

    /// The user name and password to connect with; an absent part is empty,
    /// which means the current user.
    pub fn credentials(&self) -> (r: (String, String))
        ensures
            r.0@ == match self.username {
                Some(u) => u@,
                None => Seq::<char>::empty(),
            },
            r.1@ == match self.password {
                Some(p) => p@,
                None => Seq::<char>::empty(),
            },
    {
        let user = match &self.username {
            Some(u) => u.clone(),
            None => String::new(),
        };
        let password = match &self.password {
            Some(p) => p.clone(),
            None => String::new(),
        };
        (user, password)
    }
}

} // verus!
