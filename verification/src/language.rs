//! The language-preference relation: any number of rows per account.

use vstd::prelude::*;
use crate::ids::{LocalUserId, PrimaryLanguageTag};

verus! {

/// One preferred content language of one account.
#[derive(Debug, PartialEq, Eq)]
pub struct UserLanguage {
    pub id: i32,
    pub local_user_id: LocalUserId,
    pub language: PrimaryLanguageTag,
}

/// What a [`UserLanguage`] holds.
pub struct UserLanguageModel {
    pub id: i32,
    pub local_user_id: LocalUserId,
    pub language: Seq<char>,
}

impl View for UserLanguage {
    type V = UserLanguageModel;

    open spec fn view(&self) -> UserLanguageModel {
        UserLanguageModel {
            id: self.id,
            local_user_id: self.local_user_id,
            language: self.language@,
        }
    }
}

impl Clone for UserLanguage {
    fn clone(&self) -> (r: Self)
        ensures
            r@ == self@,
    {
        UserLanguage {
            id: self.id,
            local_user_id: self.local_user_id,
            language: self.language.clone(),
        }
    }
}

} // verus!
