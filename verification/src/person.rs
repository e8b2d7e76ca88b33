//! The profile relation: one row per person, and its projection to the
//! fields that anyone may see.

use vstd::prelude::*;
use crate::ids::{copy_text, text_of, PersonId};

verus! {

/// One profile, complete: the public identity of a person and the key pair
/// that signs for it.
#[derive(Debug, PartialEq, Eq)]
pub struct Person {
    pub id: PersonId,
    pub name: String,
    pub display_name: Option<String>,
    pub avatar: Option<String>,
    pub banned: bool,
    pub actor_id: String,
    pub bio: Option<String>,
    pub local: bool,
    pub private_key: Option<String>,
    pub public_key: Option<String>,
    pub deleted: bool,
    pub admin: bool,
}

/// A profile without its key pair.
#[derive(Debug, PartialEq, Eq)]
pub struct PersonSafe {
    pub id: PersonId,
    pub name: String,
    pub display_name: Option<String>,
    pub avatar: Option<String>,
    pub banned: bool,
    pub actor_id: String,
    pub bio: Option<String>,
    pub local: bool,
    pub deleted: bool,
    pub admin: bool,
}

/// What a [`Person`] holds.
pub struct PersonModel {
    pub id: PersonId,
    pub name: Seq<char>,
    pub display_name: Option<Seq<char>>,
    pub avatar: Option<Seq<char>>,
    pub banned: bool,
    pub actor_id: Seq<char>,
    pub bio: Option<Seq<char>>,
    pub local: bool,
    pub private_key: Option<Seq<char>>,
    pub public_key: Option<Seq<char>>,
    pub deleted: bool,
    pub admin: bool,
}

/// What a [`PersonSafe`] holds.
pub struct PersonSafeModel {
    pub id: PersonId,
    pub name: Seq<char>,
    pub display_name: Option<Seq<char>>,
    pub avatar: Option<Seq<char>>,
    pub banned: bool,
    pub actor_id: Seq<char>,
    pub bio: Option<Seq<char>>,
    pub local: bool,
    pub deleted: bool,
    pub admin: bool,
}

impl PersonModel {
    /// The profile with the key pair left out.
    pub open spec fn safe(self) -> PersonSafeModel {
        PersonSafeModel {
            id: self.id,
            name: self.name,
            display_name: self.display_name,
            avatar: self.avatar,
            banned: self.banned,
            actor_id: self.actor_id,
            bio: self.bio,
            local: self.local,
            deleted: self.deleted,
            admin: self.admin,
        }
    }

    /// Two profiles that differ in nothing but the key pair.
    pub open spec fn same_safe(self, other: PersonModel) -> bool {
        other == (PersonModel {
            private_key: other.private_key,
            public_key: other.public_key,
            ..self
        })
    }
}

impl View for Person {
    type V = PersonModel;

    open spec fn view(&self) -> PersonModel {
        PersonModel {
            id: self.id,
            name: self.name@,
            display_name: text_of(self.display_name),
            avatar: text_of(self.avatar),
            banned: self.banned,
            actor_id: self.actor_id@,
            bio: text_of(self.bio),
            local: self.local,
            private_key: text_of(self.private_key),
            public_key: text_of(self.public_key),
            deleted: self.deleted,
            admin: self.admin,
        }
    }
}

impl View for PersonSafe {
    type V = PersonSafeModel;

    open spec fn view(&self) -> PersonSafeModel {
        PersonSafeModel {
            id: self.id,
            name: self.name@,
            display_name: text_of(self.display_name),
            avatar: text_of(self.avatar),
            banned: self.banned,
            actor_id: self.actor_id@,
            bio: text_of(self.bio),
            local: self.local,
            deleted: self.deleted,
            admin: self.admin,
        }
    }
}

impl Clone for Person {
    fn clone(&self) -> (r: Self)
        ensures
            r@ == self@,
    {
        Person {
            id: self.id,
            name: self.name.clone(),
            display_name: copy_text(&self.display_name),
            avatar: copy_text(&self.avatar),
            banned: self.banned,
            actor_id: self.actor_id.clone(),
            bio: copy_text(&self.bio),
            local: self.local,
            private_key: copy_text(&self.private_key),
            public_key: copy_text(&self.public_key),
            deleted: self.deleted,
            admin: self.admin,
        }
    }
}

impl Clone for PersonSafe {
    fn clone(&self) -> (r: Self)
        ensures
            r@ == self@,
    {
        PersonSafe {
            id: self.id,
            name: self.name.clone(),
            display_name: copy_text(&self.display_name),
            avatar: copy_text(&self.avatar),
            banned: self.banned,
            actor_id: self.actor_id.clone(),
            bio: copy_text(&self.bio),
            local: self.local,
            deleted: self.deleted,
            admin: self.admin,
        }
    }
}

impl Person {
    /// Gives up the key pair and keeps the rest.
    pub fn into_safe(self) -> (r: PersonSafe)
        ensures
            r@ == self@.safe(),
    {
        PersonSafe {
            id: self.id,
            name: self.name,
            display_name: self.display_name,
            avatar: self.avatar,
            banned: self.banned,
            actor_id: self.actor_id,
            bio: self.bio,
            local: self.local,
            deleted: self.deleted,
            admin: self.admin,
        }
    }
}

} // verus!
