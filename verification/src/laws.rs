//! The repository's cross-operation guarantees, proved over the logical
//! table model: what a reload shows after a create, what a lookup finds
//! after an update or a delete, and the silent no-op policy of update and
//! delete on an unmatched id.

use vstd::prelude::*;

use crate::clickhouse_connection::{ClickhouseConnection, StoredProfile};
use crate::storage::{find_row, fresh_id, loaded_matches, not_carrying, removed_rows, updated_rows};

verus! {

/// A lookup finds nothing exactly when no stored row carries the id.
pub proof fn lemma_find_row_absent(rows: Seq<(int, StoredProfile)>, id: int)
    ensures
        (find_row(rows, id) is None) <==> (forall|i: int|
            0 <= i < rows.len() ==> (#[trigger] rows[i]).0 != id),
    decreases rows.len(),
{
    if rows.len() > 0 {
        let tail = rows.subrange(1, rows.len() as int);
        lemma_find_row_absent(tail, id);
        if find_row(rows, id) is None {
            assert forall|i: int| 0 <= i < rows.len() implies (#[trigger] rows[i]).0 != id by {
                if i >= 1 {
                    assert(rows[i] == tail[i - 1]);
                }
            }
        }
        if forall|i: int| 0 <= i < rows.len() ==> (#[trigger] rows[i]).0 != id {
            assert forall|i: int| 0 <= i < tail.len() implies (#[trigger] tail[i]).0 != id by {
                assert(tail[i] == rows[i + 1]);
            }
        }
    }
}

/// A profile created under a fresh id is found under that id: after
/// `create` appended `(nid, p)`, looking `nid` up returns exactly `p`.
pub proof fn lemma_create_then_get_by_id(
    rows: Seq<(int, StoredProfile)>,
    p: StoredProfile,
    nid: int,
)
    requires
        fresh_id(rows, nid),
    ensures
        find_row(rows.push((nid, p)), nid) == Some(p),
    decreases rows.len(),
{
    let rp = rows.push((nid, p));
    if rows.len() == 0 {
        assert(rp[0] == (nid, p));
    } else {
        assert(rp[0] == rows[0]);
        assert(rows[0].0 < nid);
        let tail = rows.subrange(1, rows.len() as int);
        assert(forall|i: int| 0 <= i < tail.len() ==> tail[i] == rows[i + 1]);
        lemma_create_then_get_by_id(tail, p, nid);
        assert(rp.subrange(1, rp.len() as int) =~= tail.push((nid, p)));
    }
}

/// After a successful `create` appended the profile under a fresh id, any
/// successful `get_all` reload lists exactly one more record, and its last
/// record carries the created fields unchanged and a populated, positive
/// id.
pub proof fn lemma_create_then_get_all(
    rows: Seq<(int, StoredProfile)>,
    p: StoredProfile,
    nid: int,
    loaded: Seq<ClickhouseConnection>,
)
    requires
        fresh_id(rows, nid),
        loaded_matches(loaded, rows.push((nid, p))),
    ensures
        loaded.len() == rows.len() + 1,
        loaded.last().stored() == p,
        loaded.last().id matches Some(n) && n as int == nid && n >= 1,
{
    assert(rows.push((nid, p))[rows.len() as int] == (nid, p));
}

/// The id that a `get_all` reload shows for the created record (its last
/// entry) is an id under which `get_by_id` finds exactly the created
/// fields.
pub proof fn lemma_reloaded_id_matches(
    rows: Seq<(int, StoredProfile)>,
    p: StoredProfile,
    nid: int,
    loaded: Seq<ClickhouseConnection>,
)
    requires
        fresh_id(rows, nid),
        loaded_matches(loaded, rows.push((nid, p))),
    ensures
        loaded.last().id matches Some(n) && find_row(rows.push((nid, p)), n as int) == Some(p),
{
    lemma_create_then_get_all(rows, p, nid, loaded);
    lemma_create_then_get_by_id(rows, p, nid);
}

/// An update keeps every id and the row count; only the fields of the
/// addressed rows change.
pub proof fn lemma_update_keeps_ids(rows: Seq<(int, StoredProfile)>, id: int, p: StoredProfile)
    ensures
        updated_rows(rows, id, p).len() == rows.len(),
        forall|i: int|
            0 <= i < rows.len() ==> (#[trigger] updated_rows(rows, id, p)[i]).0 == rows[i].0,
{
}

/// After `update(id, p)` on a table that stores a row at `id`, looking
/// `id` up returns exactly the new fields `p`.
pub proof fn lemma_update_then_get_by_id(rows: Seq<(int, StoredProfile)>, id: int, p: StoredProfile)
    requires
        find_row(rows, id) is Some,
    ensures
        find_row(updated_rows(rows, id, p), id) == Some(p),
    decreases rows.len(),
{
    let up = updated_rows(rows, id, p);
    if rows[0].0 == id {
        assert(up[0] == (id, p));
    } else {
        let tail = rows.subrange(1, rows.len() as int);
        lemma_update_then_get_by_id(tail, id, p);
        assert(up.subrange(1, up.len() as int) =~= updated_rows(tail, id, p));
    }
}

/// After `delete(id)` no row carries `id` any more, so a following
/// `get_by_id(id)` cannot succeed.
pub proof fn lemma_delete_then_get_by_id(rows: Seq<(int, StoredProfile)>, id: int)
    ensures
        find_row(removed_rows(rows, id), id) is None,
{
    let removed = removed_rows(rows, id);
    assert forall|i: int| 0 <= i < removed.len() implies (#[trigger] removed[i]).0 != id by {
        rows.lemma_filter_pred(not_carrying(id), i);
    }
    lemma_find_row_absent(removed, id);
}

/// `update` of an id that no row carries leaves the table unchanged.
pub proof fn lemma_update_unmatched_is_noop(
    rows: Seq<(int, StoredProfile)>,
    id: int,
    p: StoredProfile,
)
    requires
        find_row(rows, id) is None,
    ensures
        updated_rows(rows, id, p) == rows,
{
    lemma_find_row_absent(rows, id);
    assert(updated_rows(rows, id, p) =~= rows);
}

/// `delete` of an id that no row carries leaves the table unchanged.
pub proof fn lemma_delete_unmatched_is_noop(rows: Seq<(int, StoredProfile)>, id: int)
    requires
        find_row(rows, id) is None,
    ensures
        removed_rows(rows, id) == rows,
    decreases rows.len(),
{
    lemma_find_row_absent(rows, id);
    lemma_filter_all_keeps(rows, id);
}

/// A filter whose predicate holds of every element keeps the sequence as
/// it is.
proof fn lemma_filter_all_keeps(rows: Seq<(int, StoredProfile)>, id: int)
    requires
        forall|i: int| 0 <= i < rows.len() ==> (#[trigger] rows[i]).0 != id,
    ensures
        removed_rows(rows, id) == rows,
    decreases rows.len(),
{
    reveal(Seq::filter);
    if rows.len() > 0 {
        let prefix = rows.drop_last();
        assert(forall|i: int| 0 <= i < prefix.len() ==> prefix[i] == rows[i]);
        lemma_filter_all_keeps(prefix, id);
        assert(removed_rows(rows, id) =~= rows);
    } else {
        assert(removed_rows(rows, id) =~= rows);
    }
}

} // verus!
