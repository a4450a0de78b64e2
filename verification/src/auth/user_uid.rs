//! The identifier of a user.

use vstd::prelude::*;

verus! {

/// A user's identifier, kept as its text.
pub struct UserUid {
    uid: String,
}

impl View for UserUid {
    type V = Seq<char>;

    closed spec fn view(&self) -> Seq<char> {
        self.uid@
    }
}

impl UserUid {
    pub fn new(uid: &str) -> (user_uid: Self)
        ensures
            user_uid@ == uid@,
    {
        UserUid { uid: uid.to_owned() }
    }

    pub fn as_str(&self) -> (uid: &str)
        ensures
            uid@ == self@,
    {
        self.uid.as_str()
    }
}

} // verus!
