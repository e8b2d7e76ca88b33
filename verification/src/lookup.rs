//! The keys by which an account is looked up.

use vstd::prelude::*;
use crate::ids::{LocalUserId, PersonId};
use crate::local_user::{LocalUser, LocalUserModel};
use crate::pattern::{chars_of, ilike, ilike_str};
use crate::person::{Person, PersonModel};

verus! {

/// A lookup key: what a caller knows of the account it asks for.
#[derive(Clone, Copy, Debug)]
pub enum Lookup<'a> {
    /// The account's own identity.
    LocalUser(LocalUserId),
    /// The identity of the account's profile.
    Person(PersonId),
    /// The profile's name, exactly.
    Name(&'a str),
    /// A pattern that the profile's name or the account's email must match,
    /// letters compared without regard to ASCII case.
    EmailOrName(&'a str),
    /// The account's email, exactly.
    Email(&'a str),
}

/// What a [`Lookup`] holds.
pub enum LookupModel {
    LocalUser(LocalUserId),
    Person(PersonId),
    Name(Seq<char>),
    EmailOrName(Seq<char>),
    Email(Seq<char>),
}

impl LookupModel {
    /// Whether an account, joined with its profile, satisfies the key.
    pub open spec fn accepts(self, account: LocalUserModel, profile: PersonModel) -> bool {
        match self {
            LookupModel::LocalUser(id) => account.id == id,
            LookupModel::Person(id) => profile.id == id,
            LookupModel::Name(name) => profile.name == name,
            LookupModel::EmailOrName(pattern) => ilike(profile.name, pattern) || (
            account.email is Some && ilike(account.email->0, pattern)),
            LookupModel::Email(email) => account.email == Some(email),
        }
    }
}

impl<'a> View for Lookup<'a> {
    type V = LookupModel;

    open spec fn view(&self) -> LookupModel {
        match *self {
            Lookup::LocalUser(id) => LookupModel::LocalUser(id),
            Lookup::Person(id) => LookupModel::Person(id),
            Lookup::Name(name) => LookupModel::Name(name@),
            Lookup::EmailOrName(pattern) => LookupModel::EmailOrName(pattern@),
            Lookup::Email(email) => LookupModel::Email(email@),
        }
    }
}

/// Whether two strings hold the same characters.
fn same_str(a: &str, b: &str) -> (r: bool)
    ensures
        r == (a@ == b@),
{
    let x = chars_of(a);
    let y = chars_of(b);
    if x.len() != y.len() {
        return false;
    }
    let mut k: usize = 0;
    while k < x.len()
        invariant
            k <= x.len(),
            x.len() == y.len(),
            x@ == a@,
            y@ == b@,
            forall|q: int| 0 <= q < k ==> x[q] == y[q],
        decreases x.len() - k,
    {
        if x[k] != y[k] {
            return false;
        }
        k = k + 1;
    }
    assert(x@ =~= y@);
    true
}

impl<'a> Lookup<'a> {
    /// Decides whether an account, joined with its profile, satisfies the
    /// key.
    pub fn accepts(&self, account: &LocalUser, profile: &Person) -> (r: bool)
        ensures
            r == self@.accepts(account@, profile@),
    {
        match *self {
            Lookup::LocalUser(id) => account.id == id,
            Lookup::Person(id) => profile.id == id,
            Lookup::Name(name) => same_str(profile.name.as_str(), name),
            Lookup::EmailOrName(pattern) => {
                if ilike_str(profile.name.as_str(), pattern) {
                    true
                } else {
                    match &account.email {
                        Some(email) => ilike_str(email.as_str(), pattern),
                        None => false,
                    }
                }
            },
            Lookup::Email(email) => match &account.email {
                Some(own) => same_str(own.as_str(), email),
                None => false,
            },
        }
    }
}

} // verus!
