use db_views::aggregates::PersonAggregates;
use db_views::error::ViewError;
use db_views::ids::{LocalUserId, PersonId, PrimaryLanguageTag};
use db_views::language::UserLanguage;
use db_views::local_user::LocalUser;
use db_views::local_user_view::{LocalUserSettingsView, LocalUserView};
use db_views::lookup::Lookup;
use db_views::person::Person;
use db_views::store::Store;

fn account(id: i32, person_id: i32, email: Option<&str>) -> LocalUser {
    LocalUser {
        id: LocalUserId(id),
        person_id: PersonId(person_id),
        password_encrypted: format!("secret-{}", id),
        email: email.map(String::from),
        show_nsfw: id % 2 == 0,
        theme: String::from("darkly"),
        default_sort_type: 2,
        default_listing_type: 1,
        lang: String::from("browser"),
        show_avatars: true,
        send_notifications_to_email: false,
    }
}

fn profile(id: i32, name: &str) -> Person {
    Person {
        id: PersonId(id),
        name: String::from(name),
        display_name: Some(format!("The {}", name)),
        avatar: None,
        banned: false,
        actor_id: format!("https://example.org/u/{}", name),
        bio: Some(String::from("hello")),
        local: true,
        private_key: Some(format!("private-{}", id)),
        public_key: Some(format!("public-{}", id)),
        deleted: false,
        admin: id == 10,
    }
}

fn statistics(id: i32, person_id: i32) -> PersonAggregates {
    PersonAggregates {
        id,
        person_id: PersonId(person_id),
        post_count: 10 + i64::from(id),
        post_score: 20 + i64::from(id),
        comment_count: 30 + i64::from(id),
        comment_score: 40 + i64::from(id),
    }
}

fn preference(id: i32, local_user_id: i32, tag: &str) -> UserLanguage {
    UserLanguage {
        id,
        local_user_id: LocalUserId(local_user_id),
        language: PrimaryLanguageTag(String::from(tag)),
    }
}

// Alice (1/10) has statistics and three languages; Bob (2/20) has
// statistics and no language; Carol (3/30) has no statistics; the account 4
// points at a profile that is not there.
fn sample() -> Store {
    Store::new(
        vec![
            account(3, 30, Some("carol@x.com")),
            account(1, 10, Some("A@x.com")),
            account(4, 40, Some("dave@x.com")),
            account(2, 20, None),
        ],
        vec![profile(20, "bob"), profile(30, "carol"), profile(10, "alice")],
        vec![statistics(7, 20), statistics(8, 10)],
        vec![
            preference(1, 1, "en"),
            preference(2, 3, "es"),
            preference(3, 1, "de"),
            preference(4, 4, "it"),
            preference(5, 1, "fr"),
        ],
    )
        .unwrap()
}

fn tags(view: &LocalUserView) -> Vec<&str> {
    view.languages.iter().map(|t| t.0.as_str()).collect()
}

#[test]
fn read_gives_every_part_of_the_view() {
    let view = LocalUserView::read(&sample(), LocalUserId(1)).unwrap();
    assert_eq!(view.local_user, account(1, 10, Some("A@x.com")));
    assert_eq!(view.person, profile(10, "alice"));
    assert_eq!(view.counts, statistics(8, 10));
    assert_eq!(tags(&view), vec!["en", "de", "fr"]);
}

#[test]
fn read_without_preferences_gives_empty_languages() {
    let view = LocalUserView::read(&sample(), LocalUserId(2)).unwrap();
    assert_eq!(view.local_user.id, LocalUserId(2));
    assert_eq!(view.person.name, "bob");
    assert_eq!(view.counts, statistics(7, 20));
    assert!(view.languages.is_empty());
}

#[test]
fn read_with_many_preferences_gives_one_view_with_all_of_them() {
    let view = LocalUserView::read(&sample(), LocalUserId(1)).unwrap();
    assert_eq!(view.languages.len(), 3);
    assert_eq!(
        view.languages,
        vec![
            PrimaryLanguageTag(String::from("en")),
            PrimaryLanguageTag(String::from("de")),
            PrimaryLanguageTag(String::from("fr")),
        ]
    );
}

#[test]
fn read_of_an_unknown_identity_is_not_found() {
    assert!(matches!(LocalUserView::read(&sample(), LocalUserId(9)), Err(ViewError::NotFound)));
    assert!(matches!(LocalUserView::read(&sample(), LocalUserId(10)), Err(ViewError::NotFound)));
}

#[test]
fn read_of_an_account_without_profile_is_not_found() {
    assert!(matches!(LocalUserView::read(&sample(), LocalUserId(4)), Err(ViewError::NotFound)));
    assert!(matches!(
        LocalUserView::find_by_email(&sample(), "dave@x.com"),
        Err(ViewError::NotFound)
    ));
    assert!(matches!(
        LocalUserView::read_person(&sample(), PersonId(40)),
        Err(ViewError::NotFound)
    ));
}

#[test]
fn read_and_read_person_agree() {
    let store = sample();
    for (id, person_id) in [(1, 10), (2, 20)] {
        let by_id = LocalUserView::read(&store, LocalUserId(id)).unwrap();
        let by_profile = LocalUserView::read_person(&store, PersonId(person_id)).unwrap();
        assert_eq!(by_id.local_user, by_profile.local_user);
        assert_eq!(by_id.person, by_profile.person);
        assert_eq!(by_id.counts, by_profile.counts);
        assert_eq!(by_id.languages, by_profile.languages);
    }
}

#[test]
fn read_person_of_an_unknown_profile_is_not_found() {
    assert!(matches!(
        LocalUserView::read_person(&sample(), PersonId(1)),
        Err(ViewError::NotFound)
    ));
}

#[test]
fn read_from_name_finds_the_exact_name() {
    let view = LocalUserView::read_from_name(&sample(), "alice").unwrap();
    assert_eq!(view.local_user.id, LocalUserId(1));
    assert_eq!(view.person.id, PersonId(10));
    assert_eq!(tags(&view), vec!["en", "de", "fr"]);
}

#[test]
fn read_from_name_without_match_is_not_found() {
    let store = sample();
    assert!(matches!(LocalUserView::read_from_name(&store, "zoe"), Err(ViewError::NotFound)));
    assert!(matches!(LocalUserView::read_from_name(&store, "Alice"), Err(ViewError::NotFound)));
    assert!(matches!(LocalUserView::read_from_name(&store, "ali%"), Err(ViewError::NotFound)));
    assert!(matches!(LocalUserView::read_from_name(&store, ""), Err(ViewError::NotFound)));
}

#[test]
fn find_by_email_is_exact() {
    let store = sample();
    let view = LocalUserView::find_by_email(&store, "A@x.com").unwrap();
    assert_eq!(view.local_user.id, LocalUserId(1));
    assert!(matches!(LocalUserView::find_by_email(&store, "a@x.com"), Err(ViewError::NotFound)));
    assert!(matches!(LocalUserView::find_by_email(&store, "%@x.com"), Err(ViewError::NotFound)));
    assert!(matches!(LocalUserView::find_by_email(&store, ""), Err(ViewError::NotFound)));
}

#[test]
fn find_by_email_or_name_ignores_case_in_the_email() {
    let store = sample();
    let view = LocalUserView::find_by_email_or_name(&store, "a@x.com").unwrap();
    assert_eq!(view.local_user.id, LocalUserId(1));
    assert_eq!(view.local_user.email.as_deref(), Some("A@x.com"));
}

#[test]
fn find_by_email_or_name_ignores_case_in_the_name() {
    let view = LocalUserView::find_by_email_or_name(&sample(), "BoB").unwrap();
    assert_eq!(view.local_user.id, LocalUserId(2));
    assert_eq!(view.person.name, "bob");
}

#[test]
fn find_by_email_or_name_reads_wildcards() {
    let store = sample();
    let view = LocalUserView::find_by_email_or_name(&store, "b_b").unwrap();
    assert_eq!(view.local_user.id, LocalUserId(2));
    let view = LocalUserView::find_by_email_or_name(&store, "ali%").unwrap();
    assert_eq!(view.local_user.id, LocalUserId(1));
    assert!(matches!(
        LocalUserView::find_by_email_or_name(&store, "z%"),
        Err(ViewError::NotFound)
    ));
}

#[test]
fn find_by_email_or_name_settles_on_the_lowest_identity() {
    // `%` admits alice (1), bob (2) and carol (3); the account 4 has no
    // profile. The table order is 3, 1, 4, 2.
    let view = LocalUserView::find_by_email_or_name(&sample(), "%").unwrap();
    assert_eq!(view.local_user.id, LocalUserId(1));
    // One account matches by name, a lower one by email.
    let store = Store::new(
        vec![account(8, 80, Some("x@x.com")), account(6, 60, Some("robin"))],
        vec![profile(80, "robin"), profile(60, "sam")],
        vec![statistics(1, 80), statistics(2, 60)],
        vec![],
    )
        .unwrap();
    let view = LocalUserView::find_by_email_or_name(&store, "Robin").unwrap();
    assert_eq!(view.local_user.id, LocalUserId(6));
    assert_eq!(view.person.name, "sam");
}

#[test]
fn lookups_of_an_account_without_statistics_are_integrity_faults() {
    let store = sample();
    assert!(matches!(LocalUserView::read(&store, LocalUserId(3)), Err(ViewError::IntegrityFault)));
    assert!(matches!(
        LocalUserView::read_person(&store, PersonId(30)),
        Err(ViewError::IntegrityFault)
    ));
    assert!(matches!(
        LocalUserView::read_from_name(&store, "carol"),
        Err(ViewError::IntegrityFault)
    ));
    assert!(matches!(
        LocalUserView::find_by_email_or_name(&store, "CAROL@x.com"),
        Err(ViewError::IntegrityFault)
    ));
    assert!(matches!(
        LocalUserView::find_by_email(&store, "carol@x.com"),
        Err(ViewError::IntegrityFault)
    ));
    assert!(matches!(
        LocalUserSettingsView::read(&store, LocalUserId(3)),
        Err(ViewError::IntegrityFault)
    ));
}

#[test]
fn a_fault_is_not_passed_over_for_a_later_account() {
    // carol (3) has no statistics, erin (5) has; the pattern admits both
    // and settles on the lower identity.
    let store = Store::new(
        vec![account(5, 50, None), account(3, 30, None)],
        vec![profile(30, "carol"), profile(50, "caroline")],
        vec![statistics(1, 50)],
        vec![],
    )
        .unwrap();
    assert!(matches!(
        LocalUserView::find_by_email_or_name(&store, "carol%"),
        Err(ViewError::IntegrityFault)
    ));
}

#[test]
fn statistics_are_joined_by_profile_not_by_their_own_number() {
    // The statistics row numbered 10 belongs to profile 20.
    let store = Store::new(
        vec![account(1, 10, None)],
        vec![profile(10, "alice")],
        vec![statistics(10, 20)],
        vec![],
    )
        .unwrap();
    assert!(matches!(LocalUserView::read(&store, LocalUserId(1)), Err(ViewError::IntegrityFault)));
}

#[test]
fn lookup_takes_any_key() {
    let store = sample();
    let by_id = LocalUserView::lookup(&store, &Lookup::LocalUser(LocalUserId(2))).unwrap();
    let by_profile = LocalUserView::lookup(&store, &Lookup::Person(PersonId(20))).unwrap();
    let by_name = LocalUserView::lookup(&store, &Lookup::Name("bob")).unwrap();
    let by_pattern = LocalUserView::lookup(&store, &Lookup::EmailOrName("B%B")).unwrap();
    assert_eq!(by_id.local_user, by_profile.local_user);
    assert_eq!(by_id.local_user, by_name.local_user);
    assert_eq!(by_id.local_user, by_pattern.local_user);
    assert!(matches!(
        LocalUserView::lookup(&store, &Lookup::Email("bob")),
        Err(ViewError::NotFound)
    ));
}

#[test]
fn a_lookup_leaves_the_store_as_it_was() {
    let store = sample();
    let first = LocalUserView::read(&store, LocalUserId(1)).unwrap();
    let second = LocalUserView::read(&store, LocalUserId(1)).unwrap();
    assert_eq!(first.local_user, second.local_user);
    assert_eq!(first.person, second.person);
    assert_eq!(first.counts, second.counts);
    assert_eq!(first.languages, second.languages);
}

#[test]
fn an_empty_store_finds_no_one() {
    let store = Store::new(vec![], vec![], vec![], vec![]).unwrap();
    assert!(matches!(LocalUserView::read(&store, LocalUserId(1)), Err(ViewError::NotFound)));
    assert!(matches!(
        LocalUserView::find_by_email_or_name(&store, "%"),
        Err(ViewError::NotFound)
    ));
}

#[test]
fn a_cloned_view_holds_the_same() {
    let view = LocalUserView::read(&sample(), LocalUserId(1)).unwrap();
    let copy = view.clone();
    assert_eq!(copy.local_user, view.local_user);
    assert_eq!(copy.person, view.person);
    assert_eq!(copy.counts, view.counts);
    assert_eq!(copy.languages, view.languages);
}

#[test]
fn names_outside_ascii_are_compared_exactly() {
    let store = Store::new(
        vec![account(1, 10, Some("é@x.com")), account(2, 20, Some("É@x.com"))],
        vec![profile(10, "zoë"), profile(20, "ZOË")],
        vec![statistics(1, 10), statistics(2, 20)],
        vec![],
    )
        .unwrap();
    assert_eq!(LocalUserView::read_from_name(&store, "ZOË").unwrap().local_user.id, LocalUserId(2));
    // `Z` and `O` fold, `Ë` does not.
    assert_eq!(
        LocalUserView::find_by_email_or_name(&store, "zoË").unwrap().local_user.id,
        LocalUserId(2)
    );
    assert_eq!(
        LocalUserView::find_by_email_or_name(&store, "É@X.COM").unwrap().local_user.id,
        LocalUserId(2)
    );
}

#[test]
fn negative_identities_are_ordered_as_numbers() {
    let store = Store::new(
        vec![account(1, 10, None), account(-5, 20, None), account(i32::MIN, 30, None)],
        vec![profile(10, "a"), profile(20, "b"), profile(30, "c")],
        vec![statistics(1, 10), statistics(2, 20), statistics(3, 30)],
        vec![],
    )
        .unwrap();
    assert_eq!(
        LocalUserView::find_by_email_or_name(&store, "_").unwrap().local_user.id,
        LocalUserId(i32::MIN)
    );
}

#[test]
fn the_case_of_a_pattern_does_not_matter() {
    let store = sample();
    for (one, other) in [("ali%", "ALI%"), ("a@x.com", "A@X.COM"), ("%o%", "%O%"), ("zoe", "ZOE")] {
        let a = LocalUserView::find_by_email_or_name(&store, one);
        let b = LocalUserView::find_by_email_or_name(&store, other);
        match (a, b) {
            (Ok(a), Ok(b)) => {
                assert_eq!(a.local_user, b.local_user);
                assert_eq!(a.person, b.person);
                assert_eq!(a.counts, b.counts);
                assert_eq!(a.languages, b.languages);
            },
            (Err(ViewError::NotFound), Err(ViewError::NotFound)) => {},
            (Err(ViewError::IntegrityFault), Err(ViewError::IntegrityFault)) => {},
            (a, b) => panic!("{:?} and {:?} differ", a, b),
        }
    }
}
