//! Identities of the rows that the views are composed from.

use vstd::prelude::*;

verus! {

/// The identity of an account.
#[derive(Clone, Copy, Debug, PartialEq, Eq, Hash, Structural)]
pub struct LocalUserId(pub i32);

/// The identity of a profile.
#[derive(Clone, Copy, Debug, PartialEq, Eq, Hash, Structural)]
pub struct PersonId(pub i32);

/// The tag of one preferred content language, such as `en`.
#[derive(Debug, PartialEq, Eq, Hash)]
pub struct PrimaryLanguageTag(pub String);

impl View for PrimaryLanguageTag {
    type V = Seq<char>;

    open spec fn view(&self) -> Seq<char> {
        self.0@
    }
}

impl Clone for PrimaryLanguageTag {
    fn clone(&self) -> (r: Self)
        ensures
            r@ == self@,
    {
        PrimaryLanguageTag(self.0.clone())
    }
}

/// What an optional string holds, as an optional sequence of characters.
pub open spec fn text_of(o: Option<String>) -> Option<Seq<char>> {
    match o {
        Some(s) => Some(s@),
        None => None,
    }
}

/// Copies an optional string.
pub fn copy_text(o: &Option<String>) -> (r: Option<String>)
    ensures
        text_of(r) == text_of(*o),
{
    match o {
        Some(s) => Some(s.clone()),
        None => None,
    }
}

} // verus!
