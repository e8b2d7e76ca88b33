//! What holds of every lookup on every snapshot.

use vstd::prelude::*;
use crate::error::ViewError;
use crate::ids::{LocalUserId, PersonId};
use crate::language::UserLanguageModel;
use crate::local_user::LocalUserModel;
use crate::local_user_view::{LocalUserSettingsViewModel, LocalUserViewModel};
use crate::lookup::LookupModel;
use crate::pattern::{is_plain, lemma_ilike_ignores_case, lemma_plain_pattern, same_text};
use crate::store::{belongs_to, language_for, StoreModel};

verus! {

/// The language that a preference row names.
pub open spec fn language_of() -> spec_fn(UserLanguageModel) -> Seq<char> {
    |row: UserLanguageModel| row.language
}

impl StoreModel {
    /// Whether the snapshot has an account at `i` and that account's
    /// profile.
    pub open spec fn has_profile(self, i: int) -> bool {
        0 <= i < self.local_users.len() && self.profile_of(self.local_users[i].person_id) is Some
    }

    /// Whether the snapshot has an account at `i`, that account's profile
    /// and the profile's statistics.
    pub open spec fn has_statistics(self, i: int) -> bool {
        self.has_profile(i) && self.statistics_of(self.local_users[i].person_id) is Some
    }

    /// The preference rows of the account `id`, in table order.
    pub open spec fn preferences_of(self, id: LocalUserId) -> Seq<UserLanguageModel> {
        self.user_languages.filter(belongs_to(id))
    }
}

/// A profile that is found under an identity has that identity.
pub proof fn lemma_profile_of(store: StoreModel, account: LocalUserModel)
    ensures
        store.profile_of(account.person_id) matches Some(profile)
            ==> profile.id == account.person_id,
{
    if exists|j: int| store.is_profile(account.person_id, j) {
        let j = choose|j: int| store.is_profile(account.person_id, j);
        assert(store.is_profile(account.person_id, j));
    }
}

/// The account that satisfies a key and has the lowest identity among those
/// that do is the one that the key settles on.
pub proof fn lemma_selected(store: StoreModel, key: LookupModel, i: int)
    requires
        store.wf(),
        store.is_selected(key, i),
    ensures
        store.select(key) == Some(store.local_users[i]),
{
    let q = choose|q: int| store.is_selected(key, q);
    assert(store.is_selected(key, q));
    if q != i {
        assert(store.local_users[q].id.0 <= store.local_users[i].id.0);
        assert(store.local_users[i].id.0 <= store.local_users[q].id.0);
        assert(store.local_users[q].id == store.local_users[i].id);
    }
}

/// A key settles on no account exactly when no account is admitted.
pub proof fn lemma_select_none(store: StoreModel, key: LookupModel)
    ensures
        store.select(key) is None <==> forall|j: int|
            0 <= j < store.local_users.len() ==> !store.admits(key, #[trigger] store.local_users[j]),
{
    if exists|j: int|
        0 <= j < store.local_users.len() && store.admits(key, #[trigger] store.local_users[j]) {
        let j = choose|j: int|
            0 <= j < store.local_users.len() && store.admits(key, #[trigger] store.local_users[j]);
        let m = lowest_admitted(store, key, store.local_users.len() as int);
        lemma_lowest_admitted(store, key, store.local_users.len() as int, j);
        assert(store.is_selected(key, m));
    } else {
        assert forall|q: int| !store.is_selected(key, q) by {
            if 0 <= q < store.local_users.len() {
                assert(!store.admits(key, store.local_users[q]));
            }
        }
    }
}

/// Among the first `n` accounts, the place of an admitted one with the
/// lowest identity; `-1` where none of them is admitted.
spec fn lowest_admitted(store: StoreModel, key: LookupModel, n: int) -> int
    decreases n,
{
    if n <= 0 {
        -1
    } else {
        let rest = lowest_admitted(store, key, n - 1);
        if !store.admits(key, store.local_users[n - 1]) {
            rest
        } else if rest < 0 || store.local_users[n - 1].id.0 < store.local_users[rest].id.0 {
            n - 1
        } else {
            rest
        }
    }
}

/// `lowest_admitted` finds an admitted account wherever there is one, and
/// none of the accounts it has looked at has a lower identity.
proof fn lemma_lowest_admitted(store: StoreModel, key: LookupModel, n: int, j: int)
    requires
        0 <= j < n <= store.local_users.len(),
        store.admits(key, store.local_users[j]),
    ensures
        0 <= lowest_admitted(store, key, n) < n,
        store.admits(key, store.local_users[lowest_admitted(store, key, n)]),
        forall|q: int|
            0 <= q < n && store.admits(key, #[trigger] store.local_users[q])
                ==> store.local_users[lowest_admitted(store, key, n)].id.0
                <= store.local_users[q].id.0,
    decreases n,
{
    if exists|q: int| 0 <= q < n - 1 && store.admits(key, #[trigger] store.local_users[q]) {
        let q = choose|q: int| 0 <= q < n - 1 && store.admits(key, #[trigger] store.local_users[q]);
        lemma_lowest_admitted(store, key, n - 1, q);
    } else {
        lemma_none_admitted(store, key, n - 1);
    }
}

/// Where none of the first `n` accounts is admitted, `lowest_admitted`
/// finds none.
proof fn lemma_none_admitted(store: StoreModel, key: LookupModel, n: int)
    requires
        n <= store.local_users.len(),
        forall|q: int| 0 <= q < n ==> !store.admits(key, #[trigger] store.local_users[q]),
    ensures
        lowest_admitted(store, key, n) == -1,
    decreases n,
{
    if n > 0 {
        lemma_none_admitted(store, key, n - 1);
    }
}

/// A lookup by identity settles on the account with that identity, as soon
/// as the account has a profile.
pub proof fn lemma_identity_selects(store: StoreModel, i: int)
    requires
        store.wf(),
        store.has_profile(i),
    ensures
        store.select(LookupModel::LocalUser(store.local_users[i].id)) == Some(store.local_users[i]),
{
    let key = LookupModel::LocalUser(store.local_users[i].id);
    assert(store.is_selected(key, i));
    lemma_selected(store, key, i);
}

/// The languages that a lookup collects are those of the account's
/// preference rows, row by row.
pub proof fn lemma_languages_of(rows: Seq<UserLanguageModel>, id: LocalUserId)
    ensures
        rows.filter_map(language_for(id)) == rows.filter(belongs_to(id)).map_values(language_of()),
    decreases rows.len(),
{
    reveal(Seq::filter);
    if rows.len() > 0 {
        lemma_languages_of(rows.drop_last(), id);
    }
    assert(rows.filter_map(language_for(id)) =~= rows.filter(belongs_to(id)).map_values(
        language_of(),
    ));
}

/// An account that has a profile and statistics but no preference row is
/// found by its identity, and the view's languages are the empty sequence.
pub proof fn law_no_preference_no_language(store: StoreModel, i: int)
    requires
        store.wf(),
        store.has_statistics(i),
        forall|j: int|
            0 <= j < store.user_languages.len()
                ==> (#[trigger] store.user_languages[j]).local_user_id != store.local_users[i].id,
    ensures
        store.lookup(LookupModel::LocalUser(store.local_users[i].id)) matches Ok(view)
            && view.local_user == store.local_users[i]
            && view.languages == Seq::<Seq<char>>::empty(),
{
    let id = store.local_users[i].id;
    law_preferences_coalesce(store, i);
    let kept = store.preferences_of(id);
    if kept.len() > 0 {
        store.user_languages.lemma_filter_contains_rev(belongs_to(id), kept[0]);
    }
    assert(kept.map_values(language_of()) =~= Seq::<Seq<char>>::empty());
}

/// An account that has a profile and statistics is found by its identity
/// as one view, whatever the number of its preference rows: the view's
/// languages are the languages of those rows, one entry for each, in table
/// order.
pub proof fn law_preferences_coalesce(store: StoreModel, i: int)
    requires
        store.wf(),
        store.has_statistics(i),
    ensures
        store.lookup(LookupModel::LocalUser(store.local_users[i].id)) matches Ok(view)
            && view.local_user == store.local_users[i]
            && view.languages
                == store.preferences_of(store.local_users[i].id).map_values(language_of())
            && view.languages.len() == store.preferences_of(store.local_users[i].id).len(),
{
    lemma_identity_selects(store, i);
    lemma_profile_of(store, store.local_users[i]);
    lemma_languages_of(store.user_languages, store.local_users[i].id);
}

/// A lookup by an account's identity and a lookup by the identity of that
/// account's profile give the same outcome.
pub proof fn law_identity_and_profile_agree(store: StoreModel, i: int)
    requires
        store.wf(),
        0 <= i < store.local_users.len(),
    ensures
        store.lookup(LookupModel::LocalUser(store.local_users[i].id)) == store.lookup(
            LookupModel::Person(store.local_users[i].person_id),
        ),
{
    let account = store.local_users[i];
    let by_id = LookupModel::LocalUser(account.id);
    let by_profile = LookupModel::Person(account.person_id);
    lemma_profile_of(store, account);
    if store.has_profile(i) {
        lemma_identity_selects(store, i);
        assert(store.is_selected(by_profile, i)) by {
            assert forall|j: int|
                0 <= j < store.local_users.len() && store.admits(
                    by_profile,
                    #[trigger] store.local_users[j],
                ) implies account.id.0 <= store.local_users[j].id.0 by {
                lemma_profile_of(store, store.local_users[j]);
                assert(store.local_users[j].person_id == account.person_id);
            }
        }
        lemma_selected(store, by_profile, i);
    } else {
        lemma_select_none(store, by_id);
        lemma_select_none(store, by_profile);
        assert forall|j: int| 0 <= j < store.local_users.len() implies !store.admits(
            by_id,
            #[trigger] store.local_users[j],
        ) by {
            if store.admits(by_id, store.local_users[j]) {
                assert(store.local_users[j].id == account.id);
            }
        }
        assert forall|j: int| 0 <= j < store.local_users.len() implies !store.admits(
            by_profile,
            #[trigger] store.local_users[j],
        ) by {
            if store.admits(by_profile, store.local_users[j]) {
                lemma_profile_of(store, store.local_users[j]);
                assert(store.local_users[j].person_id == account.person_id);
            }
        }
    }
}

/// A lookup by a name that no profile has ends in `NotFound`.
pub proof fn law_unknown_name_not_found(store: StoreModel, name: Seq<char>)
    requires
        forall|j: int| 0 <= j < store.persons.len() ==> (#[trigger] store.persons[j]).name != name,
    ensures
        store.lookup(LookupModel::Name(name))
            == Err::<LocalUserViewModel, ViewError>(ViewError::NotFound),
{
    let key = LookupModel::Name(name);
    lemma_select_none(store, key);
    assert forall|j: int| 0 <= j < store.local_users.len() implies !store.admits(
        key,
        #[trigger] store.local_users[j],
    ) by {
        let pid = store.local_users[j].person_id;
        if exists|q: int| store.is_profile(pid, q) {
            let q = choose|q: int| store.is_profile(pid, q);
            assert(store.persons[q].name != name);
        }
    }
}

/// A lookup by email compares exactly: the account it finds has that very
/// email, and where no account has it the lookup ends in `NotFound`.
pub proof fn law_email_is_exact(store: StoreModel, email: Seq<char>)
    ensures
        store.lookup(LookupModel::Email(email)) matches Ok(view)
            ==> view.local_user.email == Some(email),
        (forall|j: int|
            0 <= j < store.local_users.len()
                ==> (#[trigger] store.local_users[j]).email != Some(email))
            ==> store.lookup(LookupModel::Email(email))
                == Err::<LocalUserViewModel, ViewError>(ViewError::NotFound),
{
    let key = LookupModel::Email(email);
    lemma_select_none(store, key);
    if exists|q: int| store.is_selected(key, q) {
        let q = choose|q: int| store.is_selected(key, q);
        assert(store.is_selected(key, q));
    }
}

/// A lookup by name or email compares letters without regard to ASCII case.
/// An account that has a profile is admitted by a pattern of plain
/// characters exactly when the pattern is, up to case, the profile's name
/// or the account's email; and a lookup by a pattern that admits an account
/// does not end in `NotFound`.
pub proof fn law_name_or_email_ignores_case(store: StoreModel, pattern: Seq<char>, i: int)
    requires
        store.has_profile(i),
        forall|k: int| 0 <= k < pattern.len() ==> is_plain(#[trigger] pattern[k]),
    ensures
        store.admits(LookupModel::EmailOrName(pattern), store.local_users[i]) <==> same_text(
            store.profile_of(store.local_users[i].person_id)->0.name,
            pattern,
        ) || (store.local_users[i].email matches Some(email) && same_text(email, pattern)),
        store.admits(LookupModel::EmailOrName(pattern), store.local_users[i]) ==> store.lookup(
            LookupModel::EmailOrName(pattern),
        ) != Err::<LocalUserViewModel, ViewError>(ViewError::NotFound),
{
    let account = store.local_users[i];
    let profile = store.profile_of(account.person_id)->0;
    lemma_plain_pattern(profile.name, pattern);
    if account.email is Some {
        lemma_plain_pattern(account.email->0, pattern);
    }
    lemma_select_none(store, LookupModel::EmailOrName(pattern));
    if store.select(LookupModel::EmailOrName(pattern)) is Some {
        let q = choose|q: int| store.is_selected(LookupModel::EmailOrName(pattern), q);
        assert(store.is_selected(LookupModel::EmailOrName(pattern), q));
    }
}

/// A lookup by name or email does not look at the case of the ASCII letters
/// in its key: two patterns that are equal up to case give the same outcome.
pub proof fn law_pattern_case_does_not_matter(
    store: StoreModel,
    pattern: Seq<char>,
    other: Seq<char>,
)
    requires
        store.wf(),
        same_text(pattern, other),
    ensures
        store.lookup(LookupModel::EmailOrName(pattern)) == store.lookup(
            LookupModel::EmailOrName(other),
        ),
{
    let key = LookupModel::EmailOrName(pattern);
    let other_key = LookupModel::EmailOrName(other);
    assert forall|j: int| 0 <= j < store.local_users.len() implies store.admits(
        key,
        #[trigger] store.local_users[j],
    ) == store.admits(other_key, store.local_users[j]) by {
        let account = store.local_users[j];
        if store.profile_of(account.person_id) is Some {
            let name = store.profile_of(account.person_id)->0.name;
            lemma_ilike_ignores_case(name, name, pattern, other);
            if account.email is Some {
                let email = account.email->0;
                lemma_ilike_ignores_case(email, email, pattern, other);
            }
        }
    }
    lemma_select_none(store, key);
    lemma_select_none(store, other_key);
    if store.select(key) is Some {
        let i = choose|i: int| store.is_selected(key, i);
        assert(store.is_selected(key, i));
        assert(store.is_selected(other_key, i));
        lemma_selected(store, other_key, i);
    }
}

/// Two full views that differ in nothing but the login secret and the key
/// pair have the same settings view: nothing of what is left out shows.
pub proof fn law_settings_hide_secrets(a: LocalUserViewModel, b: LocalUserViewModel)
    requires
        a.local_user.same_settings(b.local_user),
        a.person.same_safe(b.person),
        a.counts == b.counts,
        a.languages == b.languages,
    ensures
        a.settings() == b.settings(),
{
}

/// Two snapshots that differ in nothing but login secrets and key pairs.
pub open spec fn same_but_secrets(a: StoreModel, b: StoreModel) -> bool {
    &&& a.local_users.len() == b.local_users.len()
    &&& forall|i: int|
        0 <= i < a.local_users.len() ==> (#[trigger] a.local_users[i]).same_settings(
            b.local_users[i],
        )
    &&& a.persons.len() == b.persons.len()
    &&& forall|j: int| 0 <= j < a.persons.len() ==> (#[trigger] a.persons[j]).same_safe(b.persons[j])
    &&& a.person_aggregates == b.person_aggregates
    &&& a.user_languages == b.user_languages
}

/// In two snapshots that differ in nothing but secrets, the profile found
/// under an identity stands at the same place.
proof fn lemma_same_profile(a: StoreModel, b: StoreModel, id: PersonId)
    requires
        a.wf(),
        same_but_secrets(a, b),
    ensures
        a.profile_of(id) is Some <==> b.profile_of(id) is Some,
        a.profile_of(id) matches Some(p) ==> p.same_safe(b.profile_of(id)->0),
{
    if exists|j: int| a.is_profile(id, j) {
        let j = choose|j: int| a.is_profile(id, j);
        assert(a.is_profile(id, j));
        assert(a.persons[j].same_safe(b.persons[j]));
        assert(b.is_profile(id, j));
        let q = choose|q: int| b.is_profile(id, q);
        assert(b.is_profile(id, q));
        assert(a.persons[q].same_safe(b.persons[q]));
        assert(a.is_profile(id, q));
        if q != j {
            assert(a.persons[q].id == a.persons[j].id);
        }
    } else {
        assert forall|q: int| !b.is_profile(id, q) by {
            if 0 <= q < b.persons.len() {
                assert(a.persons[q].same_safe(b.persons[q]));
                assert(!a.is_profile(id, q));
            }
        }
    }
}

/// In two snapshots that differ in nothing but secrets, a key admits the
/// same accounts.
proof fn lemma_same_admitted(a: StoreModel, b: StoreModel, key: LookupModel, i: int)
    requires
        a.wf(),
        same_but_secrets(a, b),
        0 <= i < a.local_users.len(),
    ensures
        a.admits(key, a.local_users[i]) == b.admits(key, b.local_users[i]),
        a.local_users[i].id == b.local_users[i].id,
        a.local_users[i].person_id == b.local_users[i].person_id,
{
    assert(a.local_users[i].same_settings(b.local_users[i]));
    lemma_same_profile(a, b, a.local_users[i].person_id);
}

/// A snapshot that differs from a well-formed one in nothing but secrets
/// is well-formed.
proof fn lemma_same_keys(a: StoreModel, b: StoreModel)
    requires
        a.wf(),
        same_but_secrets(a, b),
    ensures
        b.wf(),
{
    assert forall|i: int, j: int| 0 <= i < j < b.local_users.len() implies
        (#[trigger] b.local_users[i]).id != (#[trigger] b.local_users[j]).id
        && b.local_users[i].person_id != b.local_users[j].person_id by {
        assert(a.local_users[i].same_settings(b.local_users[i]));
        assert(a.local_users[j].same_settings(b.local_users[j]));
    }
    assert forall|i: int, j: int| 0 <= i < j < b.persons.len() implies
        (#[trigger] b.persons[i]).id != (#[trigger] b.persons[j]).id by {
        assert(a.persons[i].same_safe(b.persons[i]));
        assert(a.persons[j].same_safe(b.persons[j]));
    }
}

/// What a settings lookup gives does not depend on any login secret or key
/// pair in the snapshot: two snapshots that differ in nothing else give the
/// same outcome for every key.
pub proof fn law_settings_do_not_depend_on_secrets(a: StoreModel, b: StoreModel, key: LookupModel)
    requires
        a.wf(),
        same_but_secrets(a, b),
    ensures
        a.lookup_settings(key) == b.lookup_settings(key),
{
    lemma_same_keys(a, b);
    lemma_select_none(a, key);
    lemma_select_none(b, key);
    assert forall|i: int| 0 <= i < a.local_users.len() implies a.admits(
        key,
        #[trigger] a.local_users[i],
    ) == b.admits(key, b.local_users[i]) by {
        lemma_same_admitted(a, b, key, i);
    }
    if a.select(key) is Some {
        let i = choose|i: int| a.is_selected(key, i);
        assert(a.is_selected(key, i));
        assert(b.is_selected(key, i)) by {
            lemma_same_admitted(a, b, key, i);
            assert forall|j: int|
                0 <= j < b.local_users.len() && b.admits(
                    key,
                    #[trigger] b.local_users[j],
                ) implies b.local_users[i].id.0 <= b.local_users[j].id.0 by {
                lemma_same_admitted(a, b, key, j);
                assert(a.admits(key, a.local_users[j]));
            }
        }
        lemma_selected(b, key, i);
        let account = a.local_users[i];
        lemma_same_admitted(a, b, key, i);
        lemma_same_profile(a, b, account.person_id);
        lemma_profile_of(a, account);
        lemma_profile_of(b, b.local_users[i]);
        let pid = account.person_id;
        if exists|j: int| a.is_statistics(pid, j) {
            let j = choose|j: int| a.is_statistics(pid, j);
            assert(a.is_statistics(pid, j));
            assert(b.is_statistics(pid, j));
            let q = choose|q: int| b.is_statistics(pid, q);
            assert(b.is_statistics(pid, q));
            if q != j {
                assert(a.person_aggregates[q].person_id == a.person_aggregates[j].person_id);
            }
        } else {
            assert forall|q: int| !b.is_statistics(pid, q) by {
                assert(!a.is_statistics(pid, q));
            }
        }
    } else {
        assert forall|j: int| 0 <= j < b.local_users.len() implies !b.admits(
            key,
            #[trigger] b.local_users[j],
        ) by {
            lemma_same_admitted(a, b, key, j);
            assert(!a.admits(key, a.local_users[j]));
        }
    }
}

/// The settings lookup joins as the full lookup does: it fails where the
/// full lookup fails, with the same fault, and where the full lookup gives
/// a view it gives that view without the login secret and the key pair.
pub proof fn law_settings_follow_full(store: StoreModel, id: LocalUserId)
    ensures
        store.lookup_settings(LookupModel::LocalUser(id)) is Ok <==> store.lookup(
            LookupModel::LocalUser(id),
        ) is Ok,
        store.lookup(LookupModel::LocalUser(id)) matches Ok(view) ==> store.lookup_settings(
            LookupModel::LocalUser(id),
        ) == Ok::<_, ViewError>(view.settings()),
        store.lookup(LookupModel::LocalUser(id)) matches Err(e) ==> store.lookup_settings(
            LookupModel::LocalUser(id),
        ) == Err::<LocalUserSettingsViewModel, ViewError>(e),
{
}

/// Whatever the key, a lookup that settles on an account whose profile has
/// no statistics ends in `IntegrityFault`, for the full view and for the
/// settings view alike.
pub proof fn law_missing_statistics_is_a_fault(store: StoreModel, key: LookupModel)
    requires
        store.select(key) matches Some(account) && store.statistics_of(account.person_id) is None,
    ensures
        store.lookup(key) == Err::<LocalUserViewModel, ViewError>(ViewError::IntegrityFault),
        store.lookup_settings(key) == Err::<LocalUserSettingsViewModel, ViewError>(
            ViewError::IntegrityFault,
        ),
{
    let q = choose|q: int| store.is_selected(key, q);
    assert(store.is_selected(key, q));
    lemma_profile_of(store, store.local_users[q]);
}

/// An account whose profile has no statistics cannot be read: the lookup by
/// its identity and the lookup by its profile's identity end in
/// `IntegrityFault`.
pub proof fn law_account_without_statistics(store: StoreModel, i: int)
    requires
        store.wf(),
        store.has_profile(i),
        store.statistics_of(store.local_users[i].person_id) is None,
    ensures
        store.lookup(LookupModel::LocalUser(store.local_users[i].id))
            == Err::<LocalUserViewModel, ViewError>(ViewError::IntegrityFault),
        store.lookup(LookupModel::Person(store.local_users[i].person_id))
            == Err::<LocalUserViewModel, ViewError>(ViewError::IntegrityFault),
{
    lemma_identity_selects(store, i);
    law_missing_statistics_is_a_fault(store, LookupModel::LocalUser(store.local_users[i].id));
    law_identity_and_profile_agree(store, i);
}

/// A lookup is all or nothing. It gives a view exactly when the key settles
/// on an account whose profile has statistics, and then the view is joined
/// from rows of the snapshot: the profile is the account's, the statistics
/// are the profile's. It ends in `NotFound` exactly when no account with a
/// profile satisfies the key, and it never ends in a transport fault.
pub proof fn law_lookup_outcomes(store: StoreModel, key: LookupModel)
    ensures
        store.lookup(key) matches Ok(view) ==> store.select(key) == Some(view.local_user)
            && store.profile_of(view.local_user.person_id) == Some(view.person)
            && store.statistics_of(view.person.id) == Some(view.counts)
            && view.person.id == view.local_user.person_id
            && view.counts.person_id == view.person.id
            && view.languages == store.languages_of(view.local_user.id),
        store.lookup(key) matches Err(e) ==> e is NotFound || e is IntegrityFault,
        (store.lookup(key) matches Err(e) && e is NotFound) <==> forall|j: int|
            0 <= j < store.local_users.len() ==> !store.admits(key, #[trigger] store.local_users[j]),
{
    lemma_select_none(store, key);
    if store.select(key) is Some {
        let q = choose|q: int| store.is_selected(key, q);
        assert(store.is_selected(key, q));
        let account = store.local_users[q];
        lemma_profile_of(store, account);
        if exists|j: int| store.is_statistics(account.person_id, j) {
            let j = choose|j: int| store.is_statistics(account.person_id, j);
            assert(store.is_statistics(account.person_id, j));
        }
    }
}

} // verus!
