//! The tweet table and its five operations, each specified by an exact
//! contract over the table's mathematical view.

use vstd::prelude::*;
use vstd::string::StringExecFns;

use crate::clock;
use crate::timestamp::Timestamp;
use crate::tweet::StorageError;
use crate::tweet::Tweet;
use crate::tweet::TweetView;

verus! {

/// The mathematical value of the table: its rows in storage order, and the
/// id the next insert will receive.
#[verifier::ext_equal]
pub struct StoreView {
    pub rows: Seq<TweetView>,
    pub next_id: int,
}

impl StoreView {
    /// Table well-formedness: ids are positive, unique, and below the next
    /// id to be handed out; every stored timestamp is calendar-valid.
    pub open spec fn wf(self) -> bool {
        &&& 1 <= self.next_id <= i32::MAX
        &&& forall|i: int|
            0 <= i < self.rows.len() ==> 1 <= (#[trigger] self.rows[i]).id < self.next_id
        &&& forall|i: int, j: int|
            0 <= i < j < self.rows.len() ==> (#[trigger] self.rows[i]).id != (
            #[trigger] self.rows[j]).id
        &&& forall|i: int|
            0 <= i < self.rows.len() ==> (#[trigger] self.rows[i]).created_at.wf()
    }

    /// Some row carries this id.
    pub open spec fn contains_id(self, id: int) -> bool {
        exists|i: int| 0 <= i < self.rows.len() && (#[trigger] self.rows[i]).id == id
    }

    /// Some row carries this message.
    pub open spec fn has_message(self, m: Seq<char>) -> bool {
        exists|i: int| 0 <= i < self.rows.len() && (#[trigger] self.rows[i]).message == m
    }
}

/// The row that a successful create appends: the next id, the given
/// message, the given timestamp.
pub open spec fn created_row(s: StoreView, message: Seq<char>, ts: Timestamp) -> TweetView {
    TweetView { id: s.next_id, message: message, created_at: ts }
}

/// The table after a successful create.
pub open spec fn create_result(s: StoreView, message: Seq<char>, ts: Timestamp) -> StoreView {
    StoreView { rows: s.rows.push(created_row(s, message, ts)), next_id: s.next_id + 1 }
}

/// A create can succeed as long as the id space is not exhausted.
pub open spec fn can_create(s: StoreView) -> bool {
    s.next_id < i32::MAX
}

/// The row at index `i` with its message overwritten; id and creation
/// timestamp are immutable.
pub open spec fn updated_row(s: StoreView, i: int, message: Seq<char>) -> TweetView {
    TweetView { id: s.rows[i].id, message: message, created_at: s.rows[i].created_at }
}

/// The table after a successful update of the row at index `i`.
pub open spec fn update_result(s: StoreView, i: int, message: Seq<char>) -> StoreView {
    StoreView { rows: s.rows.update(i, updated_row(s, i, message)), next_id: s.next_id }
}

/// The table after deleting the row at index `i`.
pub open spec fn delete_result(s: StoreView, i: int) -> StoreView {
    StoreView { rows: s.rows.remove(i), next_id: s.next_id }
}

/// The tweet table, with the id counter the storage engine would keep.
pub struct TweetStore {
    rows: Vec<Tweet>,
    next_id: i32,
}

impl View for TweetStore {
    type V = StoreView;

    closed spec fn view(&self) -> StoreView {
        StoreView {
            rows: Seq::new(self.rows@.len(), |i: int| self.rows@[i]@),
            next_id: self.next_id as int,
        }
    }
}

impl TweetStore {
    /// An empty table whose first insert will receive id 1.
    pub fn new() -> (r: TweetStore)
        ensures
            r@.wf(),
            r@.rows == Seq::<TweetView>::empty(),
            r@.next_id == 1,
    {
        let r = TweetStore { rows: Vec::new(), next_id: 1 };
        proof {
            assert(r@.rows =~= Seq::<TweetView>::empty());
        }
        r
    }

    /// Inserts a new row carrying the given message and timestamp; the row
    /// receives the next free id. Fails only when the id space is
    /// exhausted, and then leaves the table unchanged.
    pub fn create_at(&mut self, message: &str, ts: Timestamp) -> (r: Result<Tweet, StorageError>)
        requires
            old(self)@.wf(),
            ts.wf(),
        ensures
            final(self)@.wf(),
            r is Ok <==> can_create(old(self)@),
            match r {
                Ok(t) => t@ == created_row(old(self)@, message@, ts) && final(self)@
                    == create_result(old(self)@, message@, ts),
                Err(_) => final(self)@ == old(self)@,
            },
    {
        if self.next_id == i32::MAX {
            return Err(StorageError);
        }
        let t = Tweet { id: self.next_id, message: String::from_str(message), created_at: ts };
        let copy = t.duplicate();
        self.rows.push(t);
        self.next_id = self.next_id + 1;
        proof {
            assert(self@.rows =~= old(self)@.rows.push(created_row(old(self)@, message@, ts)));
            assert(self@ =~= create_result(old(self)@, message@, ts));
        }
        Ok(copy)
    }

    /// Inserts a new row carrying the given message and the current
    /// server-local time. The returned tweet reports the timestamp that was
    /// stored.
    pub fn create(&mut self, message: &str) -> (r: Result<Tweet, StorageError>)
        requires
            old(self)@.wf(),
        ensures
            final(self)@.wf(),
            r is Ok <==> can_create(old(self)@),
            match r {
                Ok(t) => t.created_at.wf() && t@ == created_row(
                    old(self)@,
                    message@,
                    t@.created_at,
                ) && final(self)@ == create_result(old(self)@, message@, t@.created_at),
                Err(_) => final(self)@ == old(self)@,
            },
    {
        let ts = clock::now_local();
        self.create_at(message, ts)
    }

    /// All rows, in storage order. Never fails; empty table gives an empty
    /// vector.
    pub fn list(&self) -> (r: Vec<Tweet>)
        ensures
            r@.len() == self@.rows.len(),
            forall|i: int| 0 <= i < r@.len() ==> (#[trigger] r@[i])@ == self@.rows[i],
    {
        let mut out: Vec<Tweet> = Vec::new();
        let mut i: usize = 0;
        while i < self.rows.len()
            invariant
                i <= self.rows.len(),
                out@.len() == i,
                forall|j: int| 0 <= j < i ==> (#[trigger] out@[j])@ == self@.rows[j],
            decreases self.rows.len() - i,
        {
            out.push(self.rows[i].duplicate());
            i = i + 1;
        }
        out
    }

    /// The row carrying this id, or nothing when no row does; absence is a
    /// normal outcome, not an error.
    pub fn get_by_id(&self, id: i32) -> (r: Option<Tweet>)
        requires
            self@.wf(),
        ensures
            r is Some <==> self@.contains_id(id as int),
            match r {
                Some(t) => t@.id == id as int && exists|i: int|
                    0 <= i < self@.rows.len() && (#[trigger] self@.rows[i]) == t@,
                None => true,
            },
    {
        let mut i: usize = 0;
        while i < self.rows.len()
            invariant
                i <= self.rows.len(),
                forall|j: int| 0 <= j < i ==> (#[trigger] self@.rows[j]).id != id as int,
            decreases self.rows.len() - i,
        {
            if self.rows[i].id == id {
                proof {
                    assert(self@.rows[i as int].id == id as int);
                }
                return Some(self.rows[i].duplicate());
            }
            i = i + 1;
        }
        None
    }

    /// Overwrites the message of the row carrying this id and returns the
    /// updated row; id and creation timestamp keep their values. Fails,
    /// leaving the table unchanged, exactly when no row carries the id.
    pub fn update(&mut self, id: i32, message: &str) -> (r: Result<Tweet, StorageError>)
        requires
            old(self)@.wf(),
        ensures
            final(self)@.wf(),
            r is Ok <==> old(self)@.contains_id(id as int),
            match r {
                Ok(t) => exists|i: int|
                    0 <= i < old(self)@.rows.len() && (#[trigger] old(self)@.rows[i]).id == id as int
                        && t@ == updated_row(old(self)@, i, message@) && final(self)@
                        == update_result(old(self)@, i, message@),
                Err(_) => final(self)@ == old(self)@,
            },
    {
        let ghost pre = self@;
        let mut i: usize = 0;
        while i < self.rows.len()
            invariant
                self@ == pre,
                pre == old(self)@,
                pre.wf(),
                i <= self.rows.len(),
                forall|j: int| 0 <= j < i ==> (#[trigger] self@.rows[j]).id != id as int,
            decreases self.rows.len() - i,
        {
            if self.rows[i].id == id {
                proof {
                    assert(pre.rows[i as int].id == id as int);
                }
                let t = Tweet {
                    id: self.rows[i].id,
                    message: String::from_str(message),
                    created_at: self.rows[i].created_at,
                };
                let copy = t.duplicate();
                self.rows.remove(i);
                self.rows.insert(i, t);
                proof {
                    let k = i as int;
                    assert(self@.rows =~= pre.rows.update(k, updated_row(pre, k, message@)));
                    assert(self@ =~= update_result(pre, k, message@));
                    assert(self@.rows.len() == pre.rows.len());
                    assert forall|a: int|
                        0 <= a < self@.rows.len() implies (#[trigger] self@.rows[a]).id
                        == pre.rows[a].id && self@.rows[a].created_at == pre.rows[a].created_at by {
                        if a == k {
                            assert(self@.rows[a] == updated_row(pre, k, message@));
                        } else {
                            assert(self@.rows[a] == pre.rows[a]);
                        }
                    }
                    assert forall|a: int|
                        0 <= a < self@.rows.len() implies 1 <= (#[trigger] self@.rows[a]).id
                        < self@.next_id && self@.rows[a].created_at.wf() by {
                        assert(1 <= pre.rows[a].id < pre.next_id);
                        assert(pre.rows[a].created_at.wf());
                    }
                    assert forall|a: int, b: int|
                        0 <= a < b < self@.rows.len() implies (#[trigger] self@.rows[a]).id != (
                    #[trigger] self@.rows[b]).id by {
                        assert(pre.rows[a].id != pre.rows[b].id);
                    }
                    assert(self@.wf());
                }
                return Ok(copy);
            }
            i = i + 1;
        }
        Err(StorageError)
    }

    /// Deletes the row carrying this id and reports how many rows went: 1
    /// when the row existed, 0 when it did not; absence is not an error.
    pub fn delete(&mut self, id: i32) -> (r: usize)
        requires
            old(self)@.wf(),
        ensures
            final(self)@.wf(),
            r <= 1,
            r == 1 <==> old(self)@.contains_id(id as int),
            r == 1 ==> exists|i: int|
                0 <= i < old(self)@.rows.len() && (#[trigger] old(self)@.rows[i]).id == id as int
                    && final(self)@ == delete_result(old(self)@, i),
            r == 0 ==> final(self)@ == old(self)@,
    {
        let ghost pre = self@;
        let mut i: usize = 0;
        while i < self.rows.len()
            invariant
                self@ == pre,
                pre == old(self)@,
                pre.wf(),
                i <= self.rows.len(),
                forall|j: int| 0 <= j < i ==> (#[trigger] self@.rows[j]).id != id as int,
            decreases self.rows.len() - i,
        {
            if self.rows[i].id == id {
                proof {
                    assert(pre.rows[i as int].id == id as int);
                }
                self.rows.remove(i);
                proof {
                    let k = i as int;
                    assert(self@.rows =~= pre.rows.remove(k));
                    assert(self@ =~= delete_result(pre, k));
                    assert(self@.rows.len() == pre.rows.len() - 1);
                    assert forall|a: int|
                        0 <= a < self@.rows.len() implies (#[trigger] self@.rows[a]) == pre.rows[
                        if a < k {
                            a
                        } else {
                            a + 1
                        }] by {}
                    assert forall|a: int|
                        0 <= a < self@.rows.len() implies 1 <= (#[trigger] self@.rows[a]).id
                        < self@.next_id && self@.rows[a].created_at.wf() by {
                        let a0 = if a < k {
                            a
                        } else {
                            a + 1
                        };
                        assert(1 <= pre.rows[a0].id < pre.next_id);
                        assert(pre.rows[a0].created_at.wf());
                    }
                    assert forall|a: int, b: int|
                        0 <= a < b < self@.rows.len() implies (#[trigger] self@.rows[a]).id != (
                    #[trigger] self@.rows[b]).id by {
                        let a0 = if a < k {
                            a
                        } else {
                            a + 1
                        };
                        let b0 = if b < k {
                            b
                        } else {
                            b + 1
                        };
                        assert(pre.rows[a0].id != pre.rows[b0].id);
                    }
                    assert(self@.wf());
                }
                return 1;
            }
            i = i + 1;
        }
        0
    }
}

} // verus!
