use db_views::aggregates::PersonAggregates;
use db_views::error::ViewError;
use db_views::ids::{LocalUserId, PersonId, PrimaryLanguageTag};
use db_views::language::UserLanguage;
use db_views::local_user::{LocalUser, LocalUserSettings};
use db_views::local_user_view::{LocalUserSettingsView, LocalUserView};
use db_views::person::{Person, PersonSafe};
use db_views::store::Store;

fn account(id: i32, person_id: i32, password: &str) -> LocalUser {
    LocalUser {
        id: LocalUserId(id),
        person_id: PersonId(person_id),
        password_encrypted: String::from(password),
        email: Some(String::from("alice@x.com")),
        show_nsfw: true,
        theme: String::from("darkly"),
        default_sort_type: 3,
        default_listing_type: 2,
        lang: String::from("en"),
        show_avatars: false,
        send_notifications_to_email: true,
    }
}

fn profile(id: i32, private_key: Option<&str>, public_key: Option<&str>) -> Person {
    Person {
        id: PersonId(id),
        name: String::from("alice"),
        display_name: Some(String::from("Alice")),
        avatar: Some(String::from("https://example.org/a.png")),
        banned: false,
        actor_id: String::from("https://example.org/u/alice"),
        bio: Some(String::from("hello")),
        local: true,
        private_key: private_key.map(String::from),
        public_key: public_key.map(String::from),
        deleted: false,
        admin: true,
    }
}

fn statistics() -> PersonAggregates {
    PersonAggregates {
        id: 1,
        person_id: PersonId(10),
        post_count: 1,
        post_score: 2,
        comment_count: 3,
        comment_score: 4,
    }
}

fn store_with(password: &str, private_key: Option<&str>, public_key: Option<&str>) -> Store {
    Store::new(
        vec![account(1, 10, password)],
        vec![profile(10, private_key, public_key)],
        vec![statistics()],
        vec![
            UserLanguage {
                id: 1,
                local_user_id: LocalUserId(1),
                language: PrimaryLanguageTag(String::from("en")),
            },
            UserLanguage {
                id: 2,
                local_user_id: LocalUserId(1),
                language: PrimaryLanguageTag(String::from("pt")),
            },
        ],
    )
        .unwrap()
}

fn expected_account() -> LocalUserSettings {
    LocalUserSettings {
        id: LocalUserId(1),
        person_id: PersonId(10),
        email: Some(String::from("alice@x.com")),
        show_nsfw: true,
        theme: String::from("darkly"),
        default_sort_type: 3,
        default_listing_type: 2,
        lang: String::from("en"),
        show_avatars: false,
        send_notifications_to_email: true,
    }
}

fn expected_profile() -> PersonSafe {
    PersonSafe {
        id: PersonId(10),
        name: String::from("alice"),
        display_name: Some(String::from("Alice")),
        avatar: Some(String::from("https://example.org/a.png")),
        banned: false,
        actor_id: String::from("https://example.org/u/alice"),
        bio: Some(String::from("hello")),
        local: true,
        deleted: false,
        admin: true,
    }
}

#[test]
fn settings_read_gives_the_redacted_view() {
    let view = LocalUserSettingsView::read(&store_with("hash", Some("sk"), Some("pk")), LocalUserId(1))
        .unwrap();
    assert_eq!(view.local_user, expected_account());
    assert_eq!(view.person, expected_profile());
    assert_eq!(view.counts, statistics());
    assert_eq!(
        view.languages,
        vec![PrimaryLanguageTag(String::from("en")), PrimaryLanguageTag(String::from("pt"))]
    );
}

#[test]
fn settings_view_does_not_depend_on_the_secrets() {
    let one = LocalUserSettingsView::read(&store_with("hash", Some("sk"), Some("pk")), LocalUserId(1))
        .unwrap();
    let other = LocalUserSettingsView::read(&store_with("other hash", None, Some("pk2")), LocalUserId(1))
        .unwrap();
    assert_eq!(one.local_user, other.local_user);
    assert_eq!(one.person, other.person);
    assert_eq!(one.counts, other.counts);
    assert_eq!(one.languages, other.languages);
}

#[test]
fn settings_view_shows_nothing_of_the_secrets() {
    let view = LocalUserSettingsView::read(
        &store_with("hash-0451", Some("sk-7734"), Some("pk-9001")),
        LocalUserId(1),
    )
        .unwrap();
    let shown = format!("{:?}", view);
    assert!(!shown.contains("hash-0451"));
    assert!(!shown.contains("sk-7734"));
    assert!(!shown.contains("pk-9001"));
    let full = LocalUserView::read(
        &store_with("hash-0451", Some("sk-7734"), Some("pk-9001")),
        LocalUserId(1),
    )
        .unwrap();
    assert!(format!("{:?}", full).contains("hash-0451"));
}

#[test]
fn settings_read_fails_as_the_full_read_does() {
    let store = store_with("hash", None, None);
    assert!(matches!(
        LocalUserSettingsView::read(&store, LocalUserId(2)),
        Err(ViewError::NotFound)
    ));
    assert!(matches!(LocalUserView::read(&store, LocalUserId(2)), Err(ViewError::NotFound)));
}

#[test]
fn into_settings_keeps_all_but_the_secrets() {
    let full = LocalUserView::read(&store_with("hash", Some("sk"), Some("pk")), LocalUserId(1))
        .unwrap();
    let languages = full.languages.clone();
    let view = full.into_settings();
    assert_eq!(view.local_user, expected_account());
    assert_eq!(view.person, expected_profile());
    assert_eq!(view.counts, statistics());
    assert_eq!(view.languages, languages);
}

#[test]
fn row_projections_keep_all_but_the_secrets() {
    assert_eq!(account(1, 10, "hash").into_settings(), expected_account());
    assert_eq!(profile(10, Some("sk"), Some("pk")).into_safe(), expected_profile());
}

#[test]
fn a_cloned_settings_view_holds_the_same() {
    let view = LocalUserSettingsView::read(&store_with("hash", None, None), LocalUserId(1)).unwrap();
    let copy = view.clone();
    assert_eq!(copy.local_user, view.local_user);
    assert_eq!(copy.person, view.person);
    assert_eq!(copy.counts, view.counts);
    assert_eq!(copy.languages, view.languages);
}
