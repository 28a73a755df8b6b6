//! The persisted entity (`Tweet`), the client payload, and the storage
//! error type.

use vstd::prelude::*;

use crate::timestamp::Timestamp;

verus! {

/// The mathematical value of a [`Tweet`]: its id as an unbounded integer,
/// its message as a sequence of characters, and its creation timestamp.
#[verifier::ext_equal]
pub struct TweetView {
    pub id: int,
    pub message: Seq<char>,
    pub created_at: Timestamp,
}

/// A persisted tweet: a unique storage-generated id, a text message, and a
/// creation timestamp set once at insert time.
#[derive(Debug)]
pub struct Tweet {
    pub id: i32,
    pub message: String,
    pub created_at: Timestamp,
}

impl View for Tweet {
    type V = TweetView;

    open spec fn view(&self) -> TweetView {
        TweetView { id: self.id as int, message: self.message@, created_at: self.created_at }
    }
}

impl Tweet {
    /// An exact copy, sharing nothing with the original.
    pub fn duplicate(&self) -> (r: Tweet)
        ensures
            r@ == self@,
    {
        Tweet { id: self.id, message: self.message.clone(), created_at: self.created_at }
    }
}

impl PartialEq for Tweet {
    fn eq(&self, other: &Tweet) -> (r: bool) {
        self.id == other.id && self.message == other.message && self.created_at
            == other.created_at
    }
}

impl vstd::std_specs::cmp::PartialEqSpecImpl for Tweet {
    open spec fn obeys_eq_spec() -> bool {
        true
    }

    open spec fn eq_spec(&self, other: &Tweet) -> bool {
        self@ == other@
    }
}

/// The client-supplied input for create and update: the message field alone.
pub struct TweetPayload {
    pub message: String,
}

impl View for TweetPayload {
    type V = Seq<char>;

    open spec fn view(&self) -> Seq<char> {
        self.message@
    }
}

/// The single storage failure class: a statement that could not complete.
/// Absence of a row on a lookup is not an error; absence on an update is.
#[derive(Clone, Copy, PartialEq, Eq, Structural, Debug)]
pub struct StorageError;

} // verus!
