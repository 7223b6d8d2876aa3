//! A named user with an age.

use vstd::prelude::*;

verus! {

pub struct User {
    pub name: String,
    pub age: u32,
}

impl User {
    /// The default user.
    pub fn new() -> (user: User)
        ensures
            user.name@ == "artizon"@,
            user.age == 20,
    {
        User { name: String::from_str("artizon"), age: 20 }
    }
}

} // verus!
