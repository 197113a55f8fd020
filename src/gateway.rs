//! What the identity operations return, decided from what the store answered.
//!
//! The store runs the queries: an insert that returns the stored row, and
//! single-row selects by access key and by id. It hands the answer here as a
//! plain value: the row (or none), or the store's failure message.

use vstd::prelude::*;
use crate::identity::User;

verus! {

/// Why an identity operation failed.
#[derive(Debug)]
pub enum IdentityError {
    /// No stored identity matched the lookup.
    NotFound,
    /// The store failed: connectivity, a constraint such as a duplicate
    /// access key, a malformed query. Its message is passed on unchanged.
    Store(String),
}

impl PartialEq for IdentityError {
    fn eq(&self, o: &IdentityError) -> (r: bool) {
        match self {
            IdentityError::NotFound => matches!(o, IdentityError::NotFound),
            IdentityError::Store(a) => match o {
                IdentityError::Store(b) => a.eq(b),
                IdentityError::NotFound => false,
            },
        }
    }
}

impl vstd::std_specs::cmp::PartialEqSpecImpl for IdentityError {
    open spec fn obeys_eq_spec() -> bool {
        true
    }

    open spec fn eq_spec(&self, o: &IdentityError) -> bool {
        match (self, o) {
            (IdentityError::NotFound, IdentityError::NotFound) => true,
            (IdentityError::Store(a), IdentityError::Store(b)) => a@ == b@,
            _ => false,
        }
    }
}

/// The result of a creation, from the store's answer to the insert: the
/// stored row, or the store's failure passed on as `Store`.
pub fn created(answer: Result<User, String>) -> (r: Result<User, IdentityError>)
    ensures
        answer matches Ok(u) ==> r == Ok::<User, IdentityError>(u),
        answer matches Err(m) ==> r == Err::<User, IdentityError>(IdentityError::Store(m)),
{
    match answer {
        Ok(u) => Ok(u),
        Err(m) => Err(IdentityError::Store(m)),
    }
}

/// The result of a lookup by access key, from the store's answer to the
/// select. The match is exact and case-sensitive: a row whose key differs
/// from `access_key` in any character, letter case included, is no match.
pub fn found_by_access_key(access_key: &str, answer: Result<Option<User>, String>) -> (r: Result<
    User,
    IdentityError,
>)
    ensures
        answer matches Err(m) ==> r == Err::<User, IdentityError>(IdentityError::Store(m)),
        answer matches Ok(None) ==> r == Err::<User, IdentityError>(IdentityError::NotFound),
        answer matches Ok(Some(u)) ==> if u.access_key@ == access_key@ {
            r == Ok::<User, IdentityError>(u)
        } else {
            r == Err::<User, IdentityError>(IdentityError::NotFound)
        },
        r matches Ok(u) ==> u.access_key@ == access_key@,
{
    match answer {
        Err(m) => Err(IdentityError::Store(m)),
        Ok(None) => Err(IdentityError::NotFound),
        Ok(Some(u)) => {
            let wanted = access_key.to_owned();
            if u.access_key == wanted {
                Ok(u)
            } else {
                Err(IdentityError::NotFound)
            }
        },
    }
}

/// The result of a lookup by id, from the store's answer to the select: the
/// row only if it carries that id.
pub fn found_by_id(id: i64, answer: Result<Option<User>, String>) -> (r: Result<User, IdentityError>)
    ensures
        answer matches Err(m) ==> r == Err::<User, IdentityError>(IdentityError::Store(m)),
        answer matches Ok(None) ==> r == Err::<User, IdentityError>(IdentityError::NotFound),
        answer matches Ok(Some(u)) ==> if u.id == id {
            r == Ok::<User, IdentityError>(u)
        } else {
            r == Err::<User, IdentityError>(IdentityError::NotFound)
        },
        r matches Ok(u) ==> u.id == id,
{
    match answer {
        Err(m) => Err(IdentityError::Store(m)),
        Ok(None) => Err(IdentityError::NotFound),
        Ok(Some(u)) => {
            if u.id == id {
                Ok(u)
            } else {
                Err(IdentityError::NotFound)
            }
        },
    }
}

} // verus!
