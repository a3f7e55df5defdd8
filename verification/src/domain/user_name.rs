//! A user's name, carried as it was given.

use vstd::prelude::*;

verus! {

/// A user's name. No rule for names is checked: every name is carried as given.
#[derive(Debug)]
pub struct UserName(String);

impl UserName {
    /// The name.
    pub closed spec fn view(&self) -> Seq<char> {
        self.0@
    }

    /// The name `s`.
    pub fn new(s: &str) -> (res: UserName)
        ensures
            res@ == s@,
    {
        UserName(s.to_owned())
    }

    /// The name as text.
    pub fn as_str(&self) -> (res: &str)
        ensures
            res@ == self@,
    {
        self.0.as_str()
    }
}

impl AsRef<str> for UserName {
    fn as_ref(&self) -> (res: &str)
        ensures
            res@ == self@,
    {
        self.0.as_str()
    }
}

} // verus!
