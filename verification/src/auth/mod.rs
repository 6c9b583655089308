//! Local identity: the user's uid and the ids persisted in user preferences.

pub mod anonymous_id;

use vstd::prelude::*;

verus! {

/// The id of a user, by its printed form.
#[derive(Clone, Debug)]
pub struct UserUid {
    uid: String,
}

impl View for UserUid {
    type V = Seq<char>;

    closed spec fn view(&self) -> Seq<char> {
        self.uid@
    }
}

impl UserUid {
    /// The uid whose printed form is `uid`.
    pub fn new(uid: &str) -> (r: UserUid)
        ensures
            r@ == uid@,
    {
        UserUid { uid: String::from_str(uid) }
    }

    /// The printed form of the uid.
    pub fn as_str(&self) -> (r: &str)
        ensures
            r@ == self@,
    {
        self.uid.as_str()
    }
}

} // verus!
