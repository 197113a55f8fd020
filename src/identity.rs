//! The identity records: a stored user and a request to create one.

use vstd::prelude::*;
use crate::access_key::{generate_user_access_key, is_access_key};

verus! {

/// A stored identity: the store-assigned id and the access key it was created with.
#[derive(Clone, Debug)]
pub struct User {
    pub id: i64,
    pub access_key: String,
}

impl PartialEq for User {
    fn eq(&self, o: &User) -> (r: bool) {
        self.id == o.id && self.access_key == o.access_key
    }
}

impl vstd::std_specs::cmp::PartialEqSpecImpl for User {
    open spec fn obeys_eq_spec() -> bool {
        true
    }

    open spec fn eq_spec(&self, o: &User) -> bool {
        self.id == o.id && self.access_key@ == o.access_key@
    }
}

/// A request to create an identity: the fields a caller may set.
#[derive(Debug)]
pub struct NewUser {
    access_key: String,
}

impl View for NewUser {
    type V = Seq<char>;

    /// The access key the identity is to be created with.
    closed spec fn view(&self) -> Seq<char> {
        self.access_key@
    }
}

impl NewUser {
    /// A request with an access key chosen by the caller.
    pub fn with_access_key(access_key: String) -> (r: NewUser)
        ensures
            r@ == access_key@,
    {
        NewUser { access_key }
    }

    /// The access key the identity is to be created with.
    pub fn access_key(&self) -> (r: &str)
        ensures
            r@ == self@,
    {
        self.access_key.as_str()
    }
}

impl Default for NewUser {
    /// A request carrying a freshly generated access key.
    fn default() -> (r: NewUser)
        ensures
            is_access_key(r@),
    {
        NewUser { access_key: generate_user_access_key() }
    }
}

} // verus!
