//! What removing the done rows means, and why one pass with an adjusted index
//! does it.
//!
//! The pass walks the indices of the list as it stood at the start. A row that
//! stood at `i` stands at `i` less the number of rows removed so far, because
//! each removal moves every later row up by one.

use crate::model::Notice;
use crate::record::{decoded, RecordView};
use vstd::prelude::*;

verus! {

/// A row that carries an item which is done.
pub open spec fn is_done(record: RecordView) -> bool {
    decoded(record) matches Ok(item) && item.checked
}

/// A row that carries an item which is not done.
pub open spec fn is_open(record: RecordView) -> bool {
    decoded(record) matches Ok(item) && !item.checked
}

/// The rows that stay when the done ones are removed: the open items and the
/// rows that carry no item, in their order.
pub open spec fn pending(rows: Seq<RecordView>) -> Seq<RecordView> {
    rows.filter(|record: RecordView| !is_done(record))
}

/// The number of done rows among the first `i`.
pub open spec fn removed_before(rows: Seq<RecordView>, i: int) -> nat {
    rows.take(i).filter(|record: RecordView| is_done(record)).len()
}

/// Where the row that stood at `i` stands once the done rows before it are gone.
pub open spec fn adjusted_index(rows: Seq<RecordView>, i: int) -> int {
    i - removed_before(rows, i)
}

/// The list after the pass has dealt with the first `i` rows: of those the
/// done ones are gone, the rest is as it was.
pub open spec fn compacted_up_to(rows: Seq<RecordView>, i: int) -> Seq<RecordView> {
    pending(rows.take(i)) + rows.skip(i)
}

/// What the views are told while the pass deals with the first `i` rows: one
/// removal for each done row, at the adjusted index, in the order of the rows.
pub open spec fn removal_notices(rows: Seq<RecordView>, i: int) -> Seq<Notice>
    decreases i,
{
    if i <= 0 {
        Seq::empty()
    } else if is_done(rows[i - 1]) {
        removal_notices(rows, i - 1).push(
            Notice::RowRemoved { index: adjusted_index(rows, i - 1) as nat },
        )
    } else {
        removal_notices(rows, i - 1)
    }
}

/// Every row is either kept or counted as removed.
pub proof fn lemma_pending_len(rows: Seq<RecordView>)
    ensures
        pending(rows).len() + rows.filter(|record: RecordView| is_done(record)).len()
            == rows.len(),
    decreases rows.len(),
{
    reveal(Seq::filter);
    if rows.len() > 0 {
        lemma_pending_len(rows.drop_last());
    }
}

/// The views are told once for each row that is removed, and no more.
pub proof fn lemma_removal_notices_len(rows: Seq<RecordView>, i: int)
    requires
        0 <= i <= rows.len(),
    ensures
        removal_notices(rows, i).len() == removed_before(rows, i),
    decreases i,
{
    if i > 0 {
        lemma_removal_notices_len(rows, i - 1);
        lemma_step(rows, i - 1);
    } else {
        lemma_compacted_ends(rows);
    }
}

/// One step of the pass, in terms of the rows it has dealt with.
pub proof fn lemma_step(rows: Seq<RecordView>, i: int)
    requires
        0 <= i < rows.len(),
    ensures
        is_done(rows[i]) ==> pending(rows.take(i + 1)) == pending(rows.take(i))
            && removed_before(rows, i + 1) == removed_before(rows, i) + 1,
        !is_done(rows[i]) ==> pending(rows.take(i + 1)) == pending(rows.take(i)).push(rows[i])
            && removed_before(rows, i + 1) == removed_before(rows, i),
{
    assert(rows.take(i + 1) =~= rows.take(i).push(rows[i]));
    rows.take(i).lemma_filter_push(rows[i], |record: RecordView| !is_done(record));
    rows.take(i).lemma_filter_push(rows[i], |record: RecordView| is_done(record));
}

/// The adjusted index is in range when it is used, and the row found there is
/// the one that stood at `i` at the start.
pub proof fn lemma_adjusted_index_in_range(rows: Seq<RecordView>, i: int)
    requires
        0 <= i < rows.len(),
    ensures
        0 <= adjusted_index(rows, i) < compacted_up_to(rows, i).len(),
        compacted_up_to(rows, i)[adjusted_index(rows, i)] == rows[i],
        adjusted_index(rows, i) == pending(rows.take(i)).len(),
{
    lemma_pending_len(rows.take(i));
}

/// Dealing with the row at `i` leaves the list alone where the row is not
/// done, and removes the row at the adjusted index where it is.
pub proof fn lemma_compacted_step(rows: Seq<RecordView>, i: int)
    requires
        0 <= i < rows.len(),
    ensures
        compacted_up_to(rows, i + 1) == if is_done(rows[i]) {
            compacted_up_to(rows, i).remove(adjusted_index(rows, i))
        } else {
            compacted_up_to(rows, i)
        },
{
    lemma_step(rows, i);
    lemma_adjusted_index_in_range(rows, i);
    let before = compacted_up_to(rows, i);
    let after = compacted_up_to(rows, i + 1);
    if is_done(rows[i]) {
        assert(after =~= before.remove(adjusted_index(rows, i)));
    } else {
        assert(after =~= before);
    }
}

/// Before the pass the list is as it was and nothing is removed; after it the
/// done rows are gone.
pub proof fn lemma_compacted_ends(rows: Seq<RecordView>)
    ensures
        compacted_up_to(rows, 0) == rows,
        removed_before(rows, 0) == 0,
        compacted_up_to(rows, rows.len() as int) == pending(rows),
{
    reveal(Seq::filter);
    assert(rows.take(0) =~= Seq::<RecordView>::empty());
    assert(compacted_up_to(rows, 0) =~= rows);
    assert(rows.take(rows.len() as int) =~= rows);
    assert(compacted_up_to(rows, rows.len() as int) =~= pending(rows));
}

/// Removing the done rows leaves the open items, in the order they had.
pub proof fn lemma_pending_keeps_open_items(rows: Seq<RecordView>)
    ensures
        pending(rows).filter(|record: RecordView| is_open(record)) == rows.filter(
            |record: RecordView| is_open(record),
        ),
    decreases rows.len(),
{
    let open = |record: RecordView| is_open(record);
    let kept = |record: RecordView| !is_done(record);
    reveal(Seq::filter);
    if rows.len() > 0 {
        let front = rows.drop_last();
        lemma_pending_keeps_open_items(front);
        if kept(rows.last()) {
            front.filter(kept).lemma_filter_push(rows.last(), open);
        }
    }
}

/// Once the done rows are removed, no row that is left is done.
pub proof fn lemma_pending_has_no_done_row(rows: Seq<RecordView>)
    ensures
        forall|i: int| 0 <= i < pending(rows).len() ==> !is_done(#[trigger] pending(rows)[i]),
{
    let kept = |record: RecordView| !is_done(record);
    assert forall|i: int| 0 <= i < pending(rows).len() implies !is_done(
        #[trigger] pending(rows)[i],
    ) by {
        rows.lemma_filter_pred(kept, i);
    }
}

/// A list without a done row stays as it is.
pub proof fn lemma_pending_of_no_done_row(rows: Seq<RecordView>)
    requires
        forall|i: int| 0 <= i < rows.len() ==> !is_done(#[trigger] rows[i]),
    ensures
        pending(rows) == rows,
    decreases rows.len(),
{
    reveal(Seq::filter);
    if rows.len() > 0 {
        let front = rows.drop_last();
        assert forall|i: int| 0 <= i < front.len() implies !is_done(#[trigger] front[i]) by {
            assert(front[i] == rows[i]);
        }
        lemma_pending_of_no_done_row(front);
        assert(front.push(rows.last()) =~= rows);
    }
}

/// Of a list whose rows are all done, none is left.
pub proof fn lemma_pending_of_all_done(rows: Seq<RecordView>)
    requires
        forall|i: int| 0 <= i < rows.len() ==> is_done(#[trigger] rows[i]),
    ensures
        pending(rows) == Seq::<RecordView>::empty(),
    decreases rows.len(),
{
    reveal(Seq::filter);
    if rows.len() > 0 {
        let front = rows.drop_last();
        assert forall|i: int| 0 <= i < front.len() implies is_done(#[trigger] front[i]) by {
            assert(front[i] == rows[i]);
        }
        lemma_pending_of_all_done(front);
    }
}

/// Removing the done rows a second time changes nothing.
pub proof fn lemma_pending_idempotent(rows: Seq<RecordView>)
    ensures
        pending(pending(rows)) == pending(rows),
{
    lemma_pending_has_no_done_row(rows);
    lemma_pending_of_no_done_row(pending(rows));
}

} // verus!
