//! Laws that relate the table operations to one another, stated over the
//! spec-level transitions of [`crate::store`] and proved once for all
//! tables, ids and messages.

use vstd::prelude::*;

use crate::store::create_result;
use crate::store::created_row;
use crate::store::delete_result;
use crate::store::update_result;
use crate::store::updated_row;
use crate::store::StoreView;
use crate::timestamp::Timestamp;

verus! {

/// The table after a run of creates, one per message, with the matching
/// timestamps.
pub open spec fn apply_creates(s: StoreView, msgs: Seq<Seq<char>>, tss: Seq<Timestamp>) -> StoreView
    decreases msgs.len(),
{
    if msgs.len() == 0 {
        s
    } else {
        apply_creates(create_result(s, msgs[0], tss[0]), msgs.drop_first(), tss.drop_first())
    }
}

/// A create never removes a message: whatever message the table holds, it
/// still holds after any further run of creates.
pub proof fn lemma_creates_keep_messages(
    s: StoreView,
    msgs: Seq<Seq<char>>,
    tss: Seq<Timestamp>,
    m: Seq<char>,
)
    requires
        msgs.len() == tss.len(),
        s.has_message(m),
    ensures
        apply_creates(s, msgs, tss).has_message(m),
    decreases msgs.len(),
{
    if msgs.len() > 0 {
        let s1 = create_result(s, msgs[0], tss[0]);
        let i = choose|i: int| 0 <= i < s.rows.len() && (#[trigger] s.rows[i]).message == m;
        assert(s1.rows[i].message == m);
        lemma_creates_keep_messages(s1, msgs.drop_first(), tss.drop_first(), m);
    }
}

/// After a run of n successful creates the listing holds exactly n more
/// rows, and every created message is among them.
pub proof fn lemma_creates_accumulate(s: StoreView, msgs: Seq<Seq<char>>, tss: Seq<Timestamp>)
    requires
        msgs.len() == tss.len(),
    ensures
        apply_creates(s, msgs, tss).rows.len() == s.rows.len() + msgs.len(),
        forall|k: int|
            0 <= k < msgs.len() ==> apply_creates(s, msgs, tss).has_message(#[trigger] msgs[k]),
    decreases msgs.len(),
{
    if msgs.len() > 0 {
        let s1 = create_result(s, msgs[0], tss[0]);
        lemma_creates_accumulate(s1, msgs.drop_first(), tss.drop_first());
        assert(s1.rows[s.rows.len() as int].message == msgs[0]);
        assert(s1.has_message(msgs[0]));
        lemma_creates_keep_messages(s1, msgs.drop_first(), tss.drop_first(), msgs[0]);
        assert forall|k: int|
            0 <= k < msgs.len() implies apply_creates(s, msgs, tss).has_message(
            #[trigger] msgs[k],
        ) by {
            if k > 0 {
                assert(msgs.drop_first()[k - 1] == msgs[k]);
            }
        }
    }
}

/// A freshly created row is found again, exactly as created: in the table
/// after the create, the rows carrying the new id are all equal to the
/// created row.
pub proof fn lemma_create_then_get(s: StoreView, m: Seq<char>, ts: Timestamp)
    requires
        s.wf(),
    ensures
        create_result(s, m, ts).contains_id(created_row(s, m, ts).id),
        forall|i: int|
            0 <= i < create_result(s, m, ts).rows.len() && (#[trigger] create_result(
                s,
                m,
                ts,
            ).rows[i]).id == created_row(s, m, ts).id ==> create_result(s, m, ts).rows[i]
                == created_row(s, m, ts),
{
    let s2 = create_result(s, m, ts);
    let t = created_row(s, m, ts);
    assert(s2.rows[s.rows.len() as int] == t);
    assert forall|i: int|
        0 <= i < s2.rows.len() && (#[trigger] s2.rows[i]).id == t.id implies s2.rows[i] == t by {
        if i < s.rows.len() {
            assert(s.rows[i].id < s.next_id);
        }
    }
}

/// An update overwrites the message of the row it hits and of no other;
/// looking the id up afterwards yields the new message, and repeating the
/// same update leaves the table as it stands.
pub proof fn lemma_update_then_get(s: StoreView, i: int, m2: Seq<char>)
    requires
        s.wf(),
        0 <= i < s.rows.len(),
    ensures
        update_result(s, i, m2).contains_id(s.rows[i].id),
        forall|j: int|
            0 <= j < update_result(s, i, m2).rows.len() && (#[trigger] update_result(
                s,
                i,
                m2,
            ).rows[j]).id == s.rows[i].id ==> update_result(s, i, m2).rows[j].message == m2,
        update_result(update_result(s, i, m2), i, m2) == update_result(s, i, m2),
{
    let s2 = update_result(s, i, m2);
    assert(s2.rows[i] == updated_row(s, i, m2));
    assert(s2.contains_id(s.rows[i].id));
    assert forall|j: int|
        0 <= j < s2.rows.len() && (#[trigger] s2.rows[j]).id == s.rows[i].id implies s2.rows[j].message
        == m2 by {
        if j != i {
            assert(s.rows[j].id != s.rows[i].id);
        }
    }
    assert(updated_row(s2, i, m2) == updated_row(s, i, m2));
    assert(update_result(s2, i, m2).rows =~= s2.rows);
    assert(update_result(s2, i, m2) =~= s2);
}

/// A delete removes the last trace of the id it hits: the table shrinks by
/// one row and a following lookup of that id finds nothing.
pub proof fn lemma_delete_then_get(s: StoreView, i: int)
    requires
        s.wf(),
        0 <= i < s.rows.len(),
    ensures
        delete_result(s, i).rows.len() == s.rows.len() - 1,
        !delete_result(s, i).contains_id(s.rows[i].id),
{
    let s2 = delete_result(s, i);
    assert forall|j: int| 0 <= j < s2.rows.len() implies (#[trigger] s2.rows[j]).id != s.rows[i].id by {
        let j0 = if j < i {
            j
        } else {
            j + 1
        };
        assert(s2.rows[j] == s.rows[j0]);
        assert(s.rows[j0].id != s.rows[i].id);
    }
}

/// A created row is fully populated: a positive, hence non-null, id:
/// namely the table's next id, the given message, and the given timestamp;
/// the table grows by exactly that row and moves on to the next id.
pub proof fn lemma_create_populates_row(s: StoreView, m: Seq<char>, ts: Timestamp)
    requires
        s.wf(),
    ensures
        created_row(s, m, ts).id >= 1,
        created_row(s, m, ts).message == m,
        created_row(s, m, ts).created_at == ts,
        create_result(s, m, ts).rows == s.rows.push(created_row(s, m, ts)),
        create_result(s, m, ts).next_id == s.next_id + 1,
{
}

} // verus!
