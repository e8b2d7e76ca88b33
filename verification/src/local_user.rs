//! The account relation: one row per local user, and its projection to the
//! fields that a settings screen may show.

use vstd::prelude::*;
use crate::ids::{copy_text, text_of, LocalUserId, PersonId};

verus! {

/// One account, complete: the login secret and the settings of a local user.
#[derive(Debug, PartialEq, Eq)]
pub struct LocalUser {
    pub id: LocalUserId,
    pub person_id: PersonId,
    pub password_encrypted: String,
    pub email: Option<String>,
    pub show_nsfw: bool,
    pub theme: String,
    pub default_sort_type: i16,
    pub default_listing_type: i16,
    pub lang: String,
    pub show_avatars: bool,
    pub send_notifications_to_email: bool,
}

/// An account without its login secret.
#[derive(Debug, PartialEq, Eq)]
pub struct LocalUserSettings {
    pub id: LocalUserId,
    pub person_id: PersonId,
    pub email: Option<String>,
    pub show_nsfw: bool,
    pub theme: String,
    pub default_sort_type: i16,
    pub default_listing_type: i16,
    pub lang: String,
    pub show_avatars: bool,
    pub send_notifications_to_email: bool,
}

/// What a [`LocalUser`] holds.
pub struct LocalUserModel {
    pub id: LocalUserId,
    pub person_id: PersonId,
    pub password_encrypted: Seq<char>,
    pub email: Option<Seq<char>>,
    pub show_nsfw: bool,
    pub theme: Seq<char>,
    pub default_sort_type: i16,
    pub default_listing_type: i16,
    pub lang: Seq<char>,
    pub show_avatars: bool,
    pub send_notifications_to_email: bool,
}

/// What a [`LocalUserSettings`] holds.
pub struct LocalUserSettingsModel {
    pub id: LocalUserId,
    pub person_id: PersonId,
    pub email: Option<Seq<char>>,
    pub show_nsfw: bool,
    pub theme: Seq<char>,
    pub default_sort_type: i16,
    pub default_listing_type: i16,
    pub lang: Seq<char>,
    pub show_avatars: bool,
    pub send_notifications_to_email: bool,
}

impl LocalUserModel {
    /// The account with the login secret left out.
    pub open spec fn settings(self) -> LocalUserSettingsModel {
        LocalUserSettingsModel {
            id: self.id,
            person_id: self.person_id,
            email: self.email,
            show_nsfw: self.show_nsfw,
            theme: self.theme,
            default_sort_type: self.default_sort_type,
            default_listing_type: self.default_listing_type,
            lang: self.lang,
            show_avatars: self.show_avatars,
            send_notifications_to_email: self.send_notifications_to_email,
        }
    }

    /// Two accounts that differ in nothing but the login secret.
    pub open spec fn same_settings(self, other: LocalUserModel) -> bool {
        other == (LocalUserModel { password_encrypted: other.password_encrypted, ..self })
    }
}

impl View for LocalUser {
    type V = LocalUserModel;

    open spec fn view(&self) -> LocalUserModel {
        LocalUserModel {
            id: self.id,
            person_id: self.person_id,
            password_encrypted: self.password_encrypted@,
            email: text_of(self.email),
            show_nsfw: self.show_nsfw,
            theme: self.theme@,
            default_sort_type: self.default_sort_type,
            default_listing_type: self.default_listing_type,
            lang: self.lang@,
            show_avatars: self.show_avatars,
            send_notifications_to_email: self.send_notifications_to_email,
        }
    }
}

impl View for LocalUserSettings {
    type V = LocalUserSettingsModel;

    open spec fn view(&self) -> LocalUserSettingsModel {
        LocalUserSettingsModel {
            id: self.id,
            person_id: self.person_id,
            email: text_of(self.email),
            show_nsfw: self.show_nsfw,
            theme: self.theme@,
            default_sort_type: self.default_sort_type,
            default_listing_type: self.default_listing_type,
            lang: self.lang@,
            show_avatars: self.show_avatars,
            send_notifications_to_email: self.send_notifications_to_email,
        }
    }
}

impl Clone for LocalUser {
    fn clone(&self) -> (r: Self)
        ensures
            r@ == self@,
    {
        LocalUser {
            id: self.id,
            person_id: self.person_id,
            password_encrypted: self.password_encrypted.clone(),
            email: copy_text(&self.email),
            show_nsfw: self.show_nsfw,
            theme: self.theme.clone(),
            default_sort_type: self.default_sort_type,
            default_listing_type: self.default_listing_type,
            lang: self.lang.clone(),
            show_avatars: self.show_avatars,
            send_notifications_to_email: self.send_notifications_to_email,
        }
    }
}

impl Clone for LocalUserSettings {
    fn clone(&self) -> (r: Self)
        ensures
            r@ == self@,
    {
        LocalUserSettings {
            id: self.id,
            person_id: self.person_id,
            email: copy_text(&self.email),
            show_nsfw: self.show_nsfw,
            theme: self.theme.clone(),
            default_sort_type: self.default_sort_type,
            default_listing_type: self.default_listing_type,
            lang: self.lang.clone(),
            show_avatars: self.show_avatars,
            send_notifications_to_email: self.send_notifications_to_email,
        }
    }
}

impl LocalUser {
    /// Gives up the login secret and keeps the rest.
    pub fn into_settings(self) -> (r: LocalUserSettings)
        ensures
            r@ == self@.settings(),
    {
        LocalUserSettings {
            id: self.id,
            person_id: self.person_id,
            email: self.email,
            show_nsfw: self.show_nsfw,
            theme: self.theme,
            default_sort_type: self.default_sort_type,
            default_listing_type: self.default_listing_type,
            lang: self.lang,
            show_avatars: self.show_avatars,
            send_notifications_to_email: self.send_notifications_to_email,
        }
    }
}

} // verus!
