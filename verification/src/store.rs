//! A snapshot of the four relations, and the joins between them.
//!
//! Every account points at one profile, every statistics row at one profile
//! and every language preference at one account. A snapshot keeps the keys
//! of these relations apart: no two accounts share an identity or a profile,
//! no two profiles share an identity, no two statistics rows share a profile.

use vstd::prelude::*;
use crate::aggregates::PersonAggregates;
use crate::ids::{LocalUserId, PersonId, PrimaryLanguageTag};
use crate::language::{UserLanguage, UserLanguageModel};
use crate::local_user::{LocalUser, LocalUserModel};
use crate::lookup::{Lookup, LookupModel};
use crate::person::{Person, PersonModel};

verus! {

/// What a [`Store`] holds: the rows of each relation, in table order.
pub struct StoreModel {
    pub local_users: Seq<LocalUserModel>,
    pub persons: Seq<PersonModel>,
    pub person_aggregates: Seq<PersonAggregates>,
    pub user_languages: Seq<UserLanguageModel>,
}

/// The language of a preference row that belongs to the account `id`.
pub open spec fn language_for(id: LocalUserId) -> spec_fn(UserLanguageModel) -> Option<Seq<char>> {
    |row: UserLanguageModel|
        if row.local_user_id == id {
            Some(row.language)
        } else {
            None
        }
}

/// Whether a preference row belongs to the account `id`.
pub open spec fn belongs_to(id: LocalUserId) -> spec_fn(UserLanguageModel) -> bool {
    |row: UserLanguageModel| row.local_user_id == id
}

impl StoreModel {
    /// No two accounts share an identity.
    pub open spec fn account_ids_distinct(self) -> bool {
        forall|i: int, j: int|
            0 <= i < j < self.local_users.len()
                ==> (#[trigger] self.local_users[i]).id != (#[trigger] self.local_users[j]).id
    }

    /// No two accounts share a profile.
    pub open spec fn account_profiles_distinct(self) -> bool {
        forall|i: int, j: int|
            0 <= i < j < self.local_users.len()
                ==> (#[trigger] self.local_users[i]).person_id
                != (#[trigger] self.local_users[j]).person_id
    }

    /// No two profiles share an identity.
    pub open spec fn profile_ids_distinct(self) -> bool {
        forall|i: int, j: int|
            0 <= i < j < self.persons.len()
                ==> (#[trigger] self.persons[i]).id != (#[trigger] self.persons[j]).id
    }

    /// No two statistics rows share a profile.
    pub open spec fn statistics_profiles_distinct(self) -> bool {
        forall|i: int, j: int|
            0 <= i < j < self.person_aggregates.len()
                ==> (#[trigger] self.person_aggregates[i]).person_id
                != (#[trigger] self.person_aggregates[j]).person_id
    }

    /// The keys of the relations are kept apart.
    pub open spec fn wf(self) -> bool {
        &&& self.account_ids_distinct()
        &&& self.account_profiles_distinct()
        &&& self.profile_ids_distinct()
        &&& self.statistics_profiles_distinct()
    }

    /// Whether the row at `j` of the profile relation has the identity `id`.
    pub open spec fn is_profile(self, id: PersonId, j: int) -> bool {
        0 <= j < self.persons.len() && self.persons[j].id == id
    }

    /// The profile with the identity `id`, if the snapshot has one.
    pub open spec fn profile_of(self, id: PersonId) -> Option<PersonModel> {
        if exists|j: int| self.is_profile(id, j) {
            Some(self.persons[choose|j: int| self.is_profile(id, j)])
        } else {
            None
        }
    }

    /// Whether the row at `j` of the statistics relation is that of the
    /// profile `id`.
    pub open spec fn is_statistics(self, id: PersonId, j: int) -> bool {
        0 <= j < self.person_aggregates.len() && self.person_aggregates[j].person_id == id
    }

    /// The statistics of the profile `id`, if the snapshot has them.
    pub open spec fn statistics_of(self, id: PersonId) -> Option<PersonAggregates> {
        if exists|j: int| self.is_statistics(id, j) {
            Some(self.person_aggregates[choose|j: int| self.is_statistics(id, j)])
        } else {
            None
        }
    }

    /// The languages that the account `id` prefers, one for each of its
    /// preference rows, in table order.
    pub open spec fn languages_of(self, id: LocalUserId) -> Seq<Seq<char>> {
        self.user_languages.filter_map(language_for(id))
    }

    /// Whether an account has a profile and, joined with it, satisfies the
    /// key.
    pub open spec fn admits(self, key: LookupModel, account: LocalUserModel) -> bool {
        match self.profile_of(account.person_id) {
            Some(profile) => key.accepts(account, profile),
            None => false,
        }
    }

    /// Whether the account at `i` is the one that a lookup by `key` settles
    /// on: it is admitted, and no admitted account has a lower identity.
    pub open spec fn is_selected(self, key: LookupModel, i: int) -> bool {
        &&& 0 <= i < self.local_users.len()
        &&& self.admits(key, self.local_users[i])
        &&& forall|j: int|
            0 <= j < self.local_users.len() && self.admits(key, #[trigger] self.local_users[j])
                ==> self.local_users[i].id.0 <= self.local_users[j].id.0
    }

    /// The account that a lookup by `key` settles on, if any account is
    /// admitted.
    pub open spec fn select(self, key: LookupModel) -> Option<LocalUserModel> {
        if exists|i: int| self.is_selected(key, i) {
            Some(self.local_users[choose|i: int| self.is_selected(key, i)])
        } else {
            None
        }
    }
}

/// The snapshot made of four tables as they are.
pub open spec fn tables(
    local_users: Seq<LocalUser>,
    persons: Seq<Person>,
    person_aggregates: Seq<PersonAggregates>,
    user_languages: Seq<UserLanguage>,
) -> StoreModel {
    StoreModel {
        local_users: local_users.map_values(|row: LocalUser| row@),
        persons: persons.map_values(|row: Person| row@),
        person_aggregates,
        user_languages: user_languages.map_values(|row: UserLanguage| row@),
    }
}

/// What a vector of language tags holds.
pub open spec fn tags(languages: Seq<PrimaryLanguageTag>) -> Seq<Seq<char>> {
    languages.map_values(|tag: PrimaryLanguageTag| tag@)
}

/// No two keys are equal.
pub open spec fn distinct(keys: Seq<i32>) -> bool {
    forall|i: int, j: int| 0 <= i < j < keys.len() ==> keys[i] != keys[j]
}

/// Decides whether no two keys are equal.
fn all_distinct(keys: &Vec<i32>) -> (r: bool)
    ensures
        r == distinct(keys@),
{
    let mut j: usize = 0;
    while j < keys.len()
        invariant
            j <= keys.len(),
            forall|a: int, b: int| 0 <= a < b < j ==> keys[a] != keys[b],
        decreases keys.len() - j,
    {
        let mut i: usize = 0;
        while i < j
            invariant
                i <= j < keys.len(),
                forall|a: int| 0 <= a < i ==> keys[a] != keys[j as int],
            decreases j - i,
        {
            if keys[i] == keys[j] {
                return false;
            }
            i = i + 1;
        }
        j = j + 1;
    }
    true
}

/// A snapshot of the account, profile, statistics and language-preference
/// relations, with the keys of the relations kept apart.
#[derive(Debug)]
pub struct Store {
    local_users: Vec<LocalUser>,
    persons: Vec<Person>,
    person_aggregates: Vec<PersonAggregates>,
    user_languages: Vec<UserLanguage>,
}

impl View for Store {
    type V = StoreModel;

    closed spec fn view(&self) -> StoreModel {
        tables(self.local_users@, self.persons@, self.person_aggregates@, self.user_languages@)
    }
}

impl Store {
    /// Every snapshot keeps the keys of its relations apart.
    #[verifier::type_invariant]
    pub closed spec fn inv(&self) -> bool {
        self@.wf()
    }

    /// Makes a snapshot of four tables. There is none where two rows share
    /// a key that the relations keep apart.
    pub fn new(
        local_users: Vec<LocalUser>,
        persons: Vec<Person>,
        person_aggregates: Vec<PersonAggregates>,
        user_languages: Vec<UserLanguage>,
    ) -> (r: Option<Store>)
        ensures
            r is Some <==> tables(local_users@, persons@, person_aggregates@, user_languages@).wf(),
            r matches Some(store) ==> store@ == tables(
                local_users@,
                persons@,
                person_aggregates@,
                user_languages@,
            ),
    {
        let ghost model = tables(local_users@, persons@, person_aggregates@, user_languages@);
        let mut account_ids: Vec<i32> = Vec::new();
        let mut account_profiles: Vec<i32> = Vec::new();
        let mut k: usize = 0;
        while k < local_users.len()
            invariant
                k <= local_users.len(),
                account_ids.len() == k,
                account_profiles.len() == k,
                forall|q: int| 0 <= q < k ==> account_ids[q] == local_users[q].id.0,
                forall|q: int| 0 <= q < k ==> account_profiles[q] == local_users[q].person_id.0,
            decreases local_users.len() - k,
        {
            account_ids.push(local_users[k].id.0);
            account_profiles.push(local_users[k].person_id.0);
            k = k + 1;
        }
        let mut profile_ids: Vec<i32> = Vec::new();
        let mut k: usize = 0;
        while k < persons.len()
            invariant
                k <= persons.len(),
                profile_ids.len() == k,
                forall|q: int| 0 <= q < k ==> profile_ids[q] == persons[q].id.0,
            decreases persons.len() - k,
        {
            profile_ids.push(persons[k].id.0);
            k = k + 1;
        }
        let mut statistics_profiles: Vec<i32> = Vec::new();
        let mut k: usize = 0;
        while k < person_aggregates.len()
            invariant
                k <= person_aggregates.len(),
                statistics_profiles.len() == k,
                forall|q: int|
                    0 <= q < k ==> statistics_profiles[q] == person_aggregates[q].person_id.0,
            decreases person_aggregates.len() - k,
        {
            statistics_profiles.push(person_aggregates[k].person_id.0);
            k = k + 1;
        }
        let a = all_distinct(&account_ids);
        let b = all_distinct(&account_profiles);
        let c = all_distinct(&profile_ids);
        let d = all_distinct(&statistics_profiles);
        proof {
            assert(a == model.account_ids_distinct()) by {
                if a {
                    assert forall|i: int, j: int| 0 <= i < j < model.local_users.len() implies
                        (#[trigger] model.local_users[i]).id
                        != (#[trigger] model.local_users[j]).id by {
                        assert(account_ids[i] != account_ids[j]);
                    }
                } else {
                    let (i, j) = choose|i: int, j: int|
                        0 <= i < j < account_ids.len() && account_ids[i] == account_ids[j];
                    assert(model.local_users[i].id == model.local_users[j].id);
                }
            }
            assert(b == model.account_profiles_distinct()) by {
                if b {
                    assert forall|i: int, j: int| 0 <= i < j < model.local_users.len() implies
                        (#[trigger] model.local_users[i]).person_id
                        != (#[trigger] model.local_users[j]).person_id by {
                        assert(account_profiles[i] != account_profiles[j]);
                    }
                } else {
                    let (i, j) = choose|i: int, j: int|
                        0 <= i < j < account_profiles.len() && account_profiles[i]
                            == account_profiles[j];
                    assert(model.local_users[i].person_id == model.local_users[j].person_id);
                }
            }
            assert(c == model.profile_ids_distinct()) by {
                if c {
                    assert forall|i: int, j: int| 0 <= i < j < model.persons.len() implies
                        (#[trigger] model.persons[i]).id != (#[trigger] model.persons[j]).id by {
                        assert(profile_ids[i] != profile_ids[j]);
                    }
                } else {
                    let (i, j) = choose|i: int, j: int|
                        0 <= i < j < profile_ids.len() && profile_ids[i] == profile_ids[j];
                    assert(model.persons[i].id == model.persons[j].id);
                }
            }
            assert(d == model.statistics_profiles_distinct()) by {
                if d {
                    assert forall|i: int, j: int|
                        0 <= i < j < model.person_aggregates.len() implies
                        (#[trigger] model.person_aggregates[i]).person_id
                        != (#[trigger] model.person_aggregates[j]).person_id by {
                        assert(statistics_profiles[i] != statistics_profiles[j]);
                    }
                } else {
                    let (i, j) = choose|i: int, j: int|
                        0 <= i < j < statistics_profiles.len() && statistics_profiles[i]
                            == statistics_profiles[j];
                    assert(model.person_aggregates[i].person_id
                        == model.person_aggregates[j].person_id);
                }
            }
        }
        if a && b && c && d {
            Some(Store { local_users, persons, person_aggregates, user_languages })
        } else {
            None
        }
    }

    /// Finds the profile with the identity `id`.
    pub fn find_person(&self, id: PersonId) -> (r: Option<&Person>)
        ensures
            r matches Some(profile) ==> self@.profile_of(id) == Some(profile@),
            r is None ==> self@.profile_of(id) is None,
    {
        proof {
            use_type_invariant(self);
        }
        let mut j: usize = 0;
        while j < self.persons.len()
            invariant
                j <= self.persons.len(),
                self@.wf(),
                forall|q: int| 0 <= q < j ==> !self@.is_profile(id, q),
            decreases self.persons.len() - j,
        {
            if self.persons[j].id == id {
                proof {
                    assert(self@.is_profile(id, j as int));
                    let q = choose|q: int| self@.is_profile(id, q);
                    assert(q == j) by {
                        if q != j {
                            assert(self@.persons[q].id == self@.persons[j as int].id);
                        }
                    }
                }
                return Some(&self.persons[j]);
            }
            j = j + 1;
        }
        None
    }

    /// Finds the statistics of the profile `id`.
    pub fn find_aggregates(&self, id: PersonId) -> (r: Option<PersonAggregates>)
        ensures
            r == self@.statistics_of(id),
    {
        proof {
            use_type_invariant(self);
        }
        let mut j: usize = 0;
        while j < self.person_aggregates.len()
            invariant
                j <= self.person_aggregates.len(),
                self@.wf(),
                forall|q: int| 0 <= q < j ==> !self@.is_statistics(id, q),
            decreases self.person_aggregates.len() - j,
        {
            if self.person_aggregates[j].person_id == id {
                proof {
                    assert(self@.is_statistics(id, j as int));
                    let q = choose|q: int| self@.is_statistics(id, q);
                    assert(q == j) by {
                        if q != j {
                            assert(self@.person_aggregates[q].person_id
                                == self@.person_aggregates[j as int].person_id);
                        }
                    }
                }
                return Some(self.person_aggregates[j]);
            }
            j = j + 1;
        }
        None
    }

    /// Collects the languages that the account `id` prefers, in table order.
    pub fn languages_of(&self, id: LocalUserId) -> (r: Vec<PrimaryLanguageTag>)
        ensures
            tags(r@) == self@.languages_of(id),
    {
        let mut found: Vec<PrimaryLanguageTag> = Vec::new();
        let mut j: usize = 0;
        while j < self.user_languages.len()
            invariant
                j <= self.user_languages.len(),
                tags(found@) == self@.user_languages.take(j as int).filter_map(language_for(id)),
            decreases self.user_languages.len() - j,
        {
            proof {
                self@.user_languages.lemma_filter_map_take_succ(language_for(id), j as int);
            }
            if self.user_languages[j].local_user_id == id {
                let ghost before = found@;
                found.push(self.user_languages[j].language.clone());
                assert(tags(found@) =~= tags(before) + seq![self@.user_languages[j as int].language]);
            }
            j = j + 1;
        }
        assert(self@.user_languages.take(j as int) =~= self@.user_languages);
        found
    }

    /// Settles on the account that a lookup by `key` asks for: among the
    /// accounts that have a profile and satisfy the key with it, the one
    /// with the lowest identity. The account comes with its profile.
    pub fn select(&self, key: &Lookup) -> (r: Option<(&LocalUser, &Person)>)
        ensures
            r matches Some((account, profile)) ==> self@.select(key@) == Some(account@)
                && self@.profile_of(account@.person_id) == Some(profile@),
            r is None ==> self@.select(key@) is None,
    {
        proof {
            use_type_invariant(self);
        }
        let mut best: Option<(usize, &Person)> = None;
        let mut i: usize = 0;
        while i < self.local_users.len()
            invariant
                i <= self.local_users.len(),
                best matches Some((b, profile)) ==> b < i && self@.profile_of(
                    self@.local_users[b as int].person_id,
                ) == Some(profile@) && self@.admits(key@, self@.local_users[b as int])
                    && forall|j: int|
                    0 <= j < i && self@.admits(key@, #[trigger] self@.local_users[j])
                        ==> self@.local_users[b as int].id.0 <= self@.local_users[j].id.0,
                best is None ==> forall|j: int|
                    0 <= j < i ==> !self@.admits(key@, #[trigger] self@.local_users[j]),
            decreases self.local_users.len() - i,
        {
            let account = &self.local_users[i];
            match self.find_person(account.person_id) {
                Some(profile) => {
                    if key.accepts(account, profile) {
                        let better = match best {
                            Some((b, _)) => account.id.0 < self.local_users[b].id.0,
                            None => true,
                        };
                        if better {
                            best = Some((i, profile));
                        }
                    }
                },
                None => {},
            }
            i = i + 1;
        }
        match best {
            Some((b, profile)) => {
                proof {
                    assert(self@.is_selected(key@, b as int));
                    let q = choose|q: int| self@.is_selected(key@, q);
                    assert(q == b) by {
                        if q != b {
                            assert(self@.local_users[q].id == self@.local_users[b as int].id);
                        }
                    }
                }
                Some((&self.local_users[b], profile))
            },
            None => {
                proof {
                    assert forall|q: int| !self@.is_selected(key@, q) by {
                        if 0 <= q < self@.local_users.len() {
                            assert(!self@.admits(key@, self@.local_users[q]));
                        }
                    }
                }
                None
            },
        }
    }
}

} // verus!
