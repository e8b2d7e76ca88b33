//! The two views of a local user, and the lookups that compose them.
//!
//! Every lookup joins the same way. An account counts only together with
//! its profile; among the accounts that satisfy the key the one with the
//! lowest identity is taken; its profile's statistics must be there; and
//! its language preferences, however many, become one sequence.

use vstd::prelude::*;
use crate::aggregates::PersonAggregates;
use crate::error::ViewError;
use crate::ids::{LocalUserId, PersonId, PrimaryLanguageTag};
use crate::local_user::{LocalUser, LocalUserModel, LocalUserSettings, LocalUserSettingsModel};
use crate::lookup::{Lookup, LookupModel};
use crate::person::{Person, PersonModel, PersonSafe, PersonSafeModel};
use crate::store::{tags, Store, StoreModel};

verus! {

/// A local user in full: the account, its profile, the profile's
/// statistics and the account's preferred languages.
#[derive(Debug)]
pub struct LocalUserView {
    pub local_user: LocalUser,
    pub person: Person,
    pub counts: PersonAggregates,
    pub languages: Vec<PrimaryLanguageTag>,
}

/// A local user as a settings screen may show it: the account without its
/// login secret, the profile without its key pair, the statistics and the
/// preferred languages.
#[derive(Debug)]
pub struct LocalUserSettingsView {
    pub local_user: LocalUserSettings,
    pub person: PersonSafe,
    pub counts: PersonAggregates,
    pub languages: Vec<PrimaryLanguageTag>,
}

/// What a [`LocalUserView`] holds.
pub struct LocalUserViewModel {
    pub local_user: LocalUserModel,
    pub person: PersonModel,
    pub counts: PersonAggregates,
    pub languages: Seq<Seq<char>>,
}

/// What a [`LocalUserSettingsView`] holds.
pub struct LocalUserSettingsViewModel {
    pub local_user: LocalUserSettingsModel,
    pub person: PersonSafeModel,
    pub counts: PersonAggregates,
    pub languages: Seq<Seq<char>>,
}

impl View for LocalUserView {
    type V = LocalUserViewModel;

    open spec fn view(&self) -> LocalUserViewModel {
        LocalUserViewModel {
            local_user: self.local_user@,
            person: self.person@,
            counts: self.counts,
            languages: tags(self.languages@),
        }
    }
}

impl View for LocalUserSettingsView {
    type V = LocalUserSettingsViewModel;

    open spec fn view(&self) -> LocalUserSettingsViewModel {
        LocalUserSettingsViewModel {
            local_user: self.local_user@,
            person: self.person@,
            counts: self.counts,
            languages: tags(self.languages@),
        }
    }
}

/// Copies a sequence of language tags.
fn copy_tags(languages: &Vec<PrimaryLanguageTag>) -> (r: Vec<PrimaryLanguageTag>)
    ensures
        tags(r@) == tags(languages@),
{
    let mut copy: Vec<PrimaryLanguageTag> = Vec::new();
    let mut k: usize = 0;
    while k < languages.len()
        invariant
            k <= languages.len(),
            copy.len() == k,
            forall|q: int| 0 <= q < k ==> copy[q]@ == languages[q]@,
        decreases languages.len() - k,
    {
        copy.push(languages[k].clone());
        k = k + 1;
    }
    assert(tags(copy@) =~= tags(languages@));
    copy
}

impl Clone for LocalUserView {
    fn clone(&self) -> (r: Self)
        ensures
            r@ == self@,
    {
        LocalUserView {
            local_user: self.local_user.clone(),
            person: self.person.clone(),
            counts: self.counts,
            languages: copy_tags(&self.languages),
        }
    }
}

impl Clone for LocalUserSettingsView {
    fn clone(&self) -> (r: Self)
        ensures
            r@ == self@,
    {
        LocalUserSettingsView {
            local_user: self.local_user.clone(),
            person: self.person.clone(),
            counts: self.counts,
            languages: copy_tags(&self.languages),
        }
    }
}

impl LocalUserViewModel {
    /// The view with the login secret and the key pair left out.
    pub open spec fn settings(self) -> LocalUserSettingsViewModel {
        LocalUserSettingsViewModel {
            local_user: self.local_user.settings(),
            person: self.person.safe(),
            counts: self.counts,
            languages: self.languages,
        }
    }
}

impl StoreModel {
    /// What a lookup by `key` gives: the full view of the account that the
    /// key settles on, `NotFound` where it settles on none, and
    /// `IntegrityFault` where that account's profile has no statistics.
    /// The account that a key settles on was admitted with its profile, so
    /// the profile is there.
    pub open spec fn lookup(self, key: LookupModel) -> Result<LocalUserViewModel, ViewError> {
        match self.select(key) {
            None => Err(ViewError::NotFound),
            Some(account) => match self.profile_of(account.person_id) {
                None => Err(ViewError::NotFound),
                Some(profile) => match self.statistics_of(profile.id) {
                    None => Err(ViewError::IntegrityFault),
                    Some(counts) => Ok(
                        LocalUserViewModel {
                            local_user: account,
                            person: profile,
                            counts,
                            languages: self.languages_of(account.id),
                        },
                    ),
                },
            },
        }
    }

    /// What a lookup by `key` gives to a caller that may see the settings
    /// only.
    pub open spec fn lookup_settings(self, key: LookupModel) -> Result<
        LocalUserSettingsViewModel,
        ViewError,
    > {
        match self.lookup(key) {
            Ok(view) => Ok(view.settings()),
            Err(e) => Err(e),
        }
    }
}

/// The outcome of a lookup, with the view taken for what it holds.
pub open spec fn outcome(r: Result<LocalUserView, ViewError>) -> Result<
    LocalUserViewModel,
    ViewError,
> {
    match r {
        Ok(view) => Ok(view@),
        Err(e) => Err(e),
    }
}

/// The outcome of a settings lookup, with the view taken for what it holds.
pub open spec fn settings_outcome(r: Result<LocalUserSettingsView, ViewError>) -> Result<
    LocalUserSettingsViewModel,
    ViewError,
> {
    match r {
        Ok(view) => Ok(view@),
        Err(e) => Err(e),
    }
}

impl LocalUserView {
    /// Looks an account up by any key and composes its full view. Where
    /// several accounts satisfy the key, the one with the lowest identity is
    /// taken, whatever the order of the rows.
    pub fn lookup(store: &Store, key: &Lookup) -> (r: Result<LocalUserView, ViewError>)
        ensures
            outcome(r) == store@.lookup(key@),
    {
        match store.select(key) {
            None => Err(ViewError::NotFound),
            Some((account, profile)) => match store.find_aggregates(profile.id) {
                None => Err(ViewError::IntegrityFault),
                Some(counts) => Ok(
                    LocalUserView {
                        local_user: account.clone(),
                        person: profile.clone(),
                        counts,
                        languages: store.languages_of(account.id),
                    },
                ),
            },
        }
    }

    /// Looks an account up by its own identity.
    pub fn read(store: &Store, local_user_id: LocalUserId) -> (r: Result<LocalUserView, ViewError>)
        ensures
            outcome(r) == store@.lookup(LookupModel::LocalUser(local_user_id)),
    {
        Self::lookup(store, &Lookup::LocalUser(local_user_id))
    }

    /// Looks an account up by the identity of its profile.
    pub fn read_person(store: &Store, person_id: PersonId) -> (r: Result<LocalUserView, ViewError>)
        ensures
            outcome(r) == store@.lookup(LookupModel::Person(person_id)),
    {
        Self::lookup(store, &Lookup::Person(person_id))
    }

    /// Looks an account up by the exact name of its profile. Where several
    /// profiles have the name, the account with the lowest identity is
    /// taken.
    pub fn read_from_name(store: &Store, name: &str) -> (r: Result<LocalUserView, ViewError>)
        ensures
            outcome(r) == store@.lookup(LookupModel::Name(name@)),
    {
        Self::lookup(store, &Lookup::Name(name))
    }

    /// Looks an account up by a pattern that its profile's name or its
    /// email matches, letters compared without regard to ASCII case. Where
    /// the pattern matches several accounts, by name or by email, the one
    /// with the lowest identity is taken.
    pub fn find_by_email_or_name(store: &Store, name_or_email: &str) -> (r: Result<
        LocalUserView,
        ViewError,
    >)
        ensures
            outcome(r) == store@.lookup(LookupModel::EmailOrName(name_or_email@)),
    {
        Self::lookup(store, &Lookup::EmailOrName(name_or_email))
    }

    /// Looks an account up by its exact email. Where several accounts have
    /// the email, the one with the lowest identity is taken.
    pub fn find_by_email(store: &Store, from_email: &str) -> (r: Result<LocalUserView, ViewError>)
        ensures
            outcome(r) == store@.lookup(LookupModel::Email(from_email@)),
    {
        Self::lookup(store, &Lookup::Email(from_email))
    }

    /// Gives up the login secret and the key pair and keeps the rest.
    pub fn into_settings(self) -> (r: LocalUserSettingsView)
        ensures
            r@ == self@.settings(),
    {
        LocalUserSettingsView {
            local_user: self.local_user.into_settings(),
            person: self.person.into_safe(),
            counts: self.counts,
            languages: self.languages,
        }
    }
}

impl LocalUserSettingsView {
    /// Looks an account up by its own identity and composes the view that a
    /// settings screen may show. The join is that of [`LocalUserView::read`].
    pub fn read(store: &Store, local_user_id: LocalUserId) -> (r: Result<
        LocalUserSettingsView,
        ViewError,
    >)
        ensures
            settings_outcome(r) == store@.lookup_settings(LookupModel::LocalUser(local_user_id)),
    {
        match LocalUserView::read(store, local_user_id) {
            Ok(view) => Ok(view.into_settings()),
            Err(e) => Err(e),
        }
    }
}

} // verus!
