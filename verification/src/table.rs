//! Mathematical model of the listings table and of what an upsert does to it.
//!
//! The table holds at most one row per identifier, so it is a map from
//! identifier to record. An upsert of a batch inserts or replaces the batch's
//! records one after the other, in the order of the batch.
//!
//! [`Table`] is that model as a value in memory: it does to its rows what
//! the statements of the module `store` ask the database to do to the table
//! on disk, and so serves to hold the one against the other.

use vstd::prelude::*;

use crate::listing::records_of;
use crate::listing::Id;
use crate::listing::Listing;
use crate::listing::Record;

verus! {

/// The table after one record is inserted, or replaces the row of its id.
pub open spec fn upsert_one(table: Map<Id, Record>, record: Record) -> Map<Id, Record> {
    table.insert(record.id, record)
}

/// The table after a batch is upserted: its records are applied from the
/// first to the last.
pub open spec fn upsert(table: Map<Id, Record>, batch: Seq<Record>) -> Map<Id, Record>
    decreases batch.len(),
{
    if batch.len() == 0 {
        table
    } else {
        upsert_one(upsert(table, batch.drop_last()), batch.last())
    }
}

/// The identifiers that occur in a batch.
pub open spec fn ids_of(batch: Seq<Record>) -> Set<Id> {
    Set::new(|id: Id| exists|i: int| 0 <= i < batch.len() && #[trigger] batch[i].id == id)
}

/// The record of `id` that stands last in the batch, if the batch has one.
pub open spec fn latest(batch: Seq<Record>, id: Id) -> Option<Record>
    decreases batch.len(),
{
    if batch.len() == 0 {
        None
    } else if batch.last().id == id {
        Some(batch.last())
    } else {
        latest(batch.drop_last(), id)
    }
}

/// What a sequence of task cycles has observed: the batches of the cycles
/// that produced one, joined in the order of the cycles. A cycle whose fetch
/// failed stands as `None` and contributes nothing.
pub open spec fn observed(cycles: Seq<Option<Seq<Record>>>) -> Seq<Record>
    decreases cycles.len(),
{
    if cycles.len() == 0 {
        Seq::empty()
    } else {
        match cycles.last() {
            Some(batch) => observed(cycles.drop_last()) + batch,
            None => observed(cycles.drop_last()),
        }
    }
}

/// The table after one cycle: upserted with the cycle's batch, or untouched
/// where the cycle produced none.
pub open spec fn after_cycle(table: Map<Id, Record>, cycle: Option<Seq<Record>>) -> Map<
    Id,
    Record,
> {
    match cycle {
        Some(batch) => upsert(table, batch),
        None => table,
    }
}

/// The table after a sequence of cycles, each applied to what the one before
/// left.
pub open spec fn after_cycles(table: Map<Id, Record>, cycles: Seq<Option<Seq<Record>>>) -> Map<
    Id,
    Record,
>
    decreases cycles.len(),
{
    if cycles.len() == 0 {
        table
    } else {
        after_cycle(after_cycles(table, cycles.drop_last()), cycles.last())
    }
}

/// No identifier stands in two rows.
spec fn distinct_ids(rows: Seq<Record>) -> bool {
    forall|i: int, j: int| 0 <= i < j < rows.len() ==> rows[i].id != rows[j].id
}

/// The table in memory: rows with pairwise distinct identifiers. Its view
/// is the map from each identifier to the record of its row.
pub struct Table {
    rows: Vec<Listing>,
}

impl View for Table {
    type V = Map<Id, Record>;

    closed spec fn view(&self) -> Map<Id, Record> {
        upsert(Map::empty(), records_of(self.rows@))
    }
}

impl Table {
    /// The table is well formed: no identifier stands in two rows. Every
    /// table made by [`Table::new`] and changed by the methods here is.
    pub closed spec fn wf(&self) -> bool {
        distinct_ids(records_of(self.rows@))
    }

    /// An empty table.
    pub fn new() -> (table: Table)
        ensures
            table.wf(),
            table@ == Map::<Id, Record>::empty(),
    {
        let table = Table { rows: Vec::new() };
        assert(records_of(table.rows@) =~= Seq::<Record>::empty());
        table
    }

    /// Inserts the listing, or replaces the row that has its identifier.
    pub fn upsert_one(&mut self, listing: Listing)
        requires
            old(self).wf(),
        ensures
            final(self).wf(),
            final(self)@ == upsert_one(old(self)@, listing@),
    {
        let ghost before = records_of(self.rows@);
        let mut i: usize = 0;
        while i < self.rows.len()
            invariant
                i <= self.rows.len(),
                *self == *old(self),
                before == records_of(self.rows@),
                distinct_ids(before),
                forall|k: int| 0 <= k < i ==> self.rows[k].id != listing.id,
            decreases self.rows.len() - i,
        {
            if self.rows[i].id == listing.id {
                self.rows[i] = listing;
                proof {
                    assert(records_of(self.rows@) =~= before.update(i as int, listing@));
                    lemma_replaced_row(before, i as int, listing@);
                }
                return ;
            }
            i += 1;
        }
        self.rows.push(listing);
        proof {
            let after = records_of(self.rows@);
            assert(after.drop_last() =~= before);
            assert(after.last() == listing@);
            assert forall|a: int, b: int| 0 <= a < b < after.len() implies after[a].id
                != after[b].id by {
                assert(after[a] == before[a]);
                if b < before.len() {
                    assert(after[b] == before[b]);
                }
            }
        }
    }

    /// Upserts a batch: each listing is inserted, or replaces the row that
    /// has its identifier, in the order of the batch.
    pub fn upsert(&mut self, listings: &Vec<Listing>)
        requires
            old(self).wf(),
        ensures
            final(self).wf(),
            final(self)@ == upsert(old(self)@, records_of(listings@)),
    {
        let mut i: usize = 0;
        assert(records_of(listings@).take(0) =~= Seq::<Record>::empty());
        while i < listings.len()
            invariant
                i <= listings.len(),
                self.wf(),
                self@ == upsert(old(self)@, records_of(listings@).take(i as int)),
            decreases listings.len() - i,
        {
            self.upsert_one(listings[i].clone());
            proof {
                let batch = records_of(listings@);
                assert(batch.take(i + 1).drop_last() =~= batch.take(i as int));
                assert(batch.take(i + 1).last() == listings[i as int]@);
            }
            i += 1;
        }
        assert(records_of(listings@).take(listings.len() as int) =~= records_of(listings@));
    }

    /// Every stored identifier, each once, in the order of the rows.
    pub fn ids(&self) -> (ids: Vec<Id>)
        requires
            self.wf(),
        ensures
            ids@.no_duplicates(),
            ids@.to_set() == self@.dom(),
    {
        let ghost rows = records_of(self.rows@);
        let mut ids: Vec<Id> = Vec::new();
        let mut i: usize = 0;
        while i < self.rows.len()
            invariant
                i <= self.rows.len(),
                ids@.len() == i,
                forall|k: int| 0 <= k < i ==> ids@[k] == self.rows[k].id,
            decreases self.rows.len() - i,
        {
            ids.push(self.rows[i].id);
            i += 1;
        }
        proof {
            assert forall|a: int, b: int| 0 <= a < ids@.len() && 0 <= b < ids@.len() && a
                != b implies ids@[a] != ids@[b] by {
                assert(rows[a].id == ids@[a]);
                assert(rows[b].id == ids@[b]);
            }
            lemma_upsert(Map::empty(), rows);
            assert forall|id: Id| ids@.to_set().contains(id) <==> ids_of(rows).contains(id) by {
                if ids@.to_set().contains(id) {
                    let k = choose|k: int| 0 <= k < ids@.len() && ids@[k] == id;
                    assert(rows[k].id == id);
                }
                if ids_of(rows).contains(id) {
                    let k = choose|k: int| 0 <= k < rows.len() && #[trigger] rows[k].id == id;
                    assert(ids@[k] == id);
                }
            }
            assert(ids@.to_set() =~= self@.dom());
        }
        ids
    }

    /// The row of an identifier, if the table has one.
    pub fn get(&self, id: Id) -> (row: Option<&Listing>)
        requires
            self.wf(),
        ensures
            row is Some <==> self@.contains_key(id),
            row matches Some(listing) ==> listing@ == self@[id],
    {
        let ghost rows = records_of(self.rows@);
        let mut i: usize = 0;
        while i < self.rows.len()
            invariant
                i <= self.rows.len(),
                rows == records_of(self.rows@),
                distinct_ids(rows),
                forall|k: int| 0 <= k < i ==> self.rows[k].id != id,
            decreases self.rows.len() - i,
        {
            if self.rows[i].id == id {
                proof {
                    assert(rows[i as int].id == id);
                    lemma_latest_of_distinct(rows, i as int);
                    lemma_upsert(Map::empty(), rows);
                }
                return Some(&self.rows[i]);
            }
            i += 1;
        }
        proof {
            lemma_upsert(Map::empty(), rows);
            if ids_of(rows).contains(id) {
                let k = choose|k: int| 0 <= k < rows.len() && #[trigger] rows[k].id == id;
                assert(self.rows[k].id == id);
            }
        }
        None
    }
}

/// Where no identifier stands twice, the record found last for the
/// identifier of a row is that row.
proof fn lemma_latest_of_distinct(rows: Seq<Record>, j: int)
    requires
        distinct_ids(rows),
        0 <= j < rows.len(),
    ensures
        ids_of(rows).contains(rows[j].id),
        latest(rows, rows[j].id) == Some(rows[j]),
{
    let id = rows[j].id;
    assert(rows[j].id == id);
    lemma_latest(rows, id);
    let i = choose|i: int|
        0 <= i < rows.len() && #[trigger] rows[i] == latest(rows, id)->0 && rows[i].id == id;
    if i < j {
        assert(rows[i].id != rows[j].id);
    } else if j < i {
        assert(rows[j].id != rows[i].id);
    }
}

/// Replacing a row by a record with the same identifier keeps the
/// identifiers distinct and is one upsert of that record.
proof fn lemma_replaced_row(rows: Seq<Record>, i: int, record: Record)
    requires
        distinct_ids(rows),
        0 <= i < rows.len(),
        rows[i].id == record.id,
    ensures
        distinct_ids(rows.update(i, record)),
        upsert(Map::empty(), rows.update(i, record)) == upsert_one(
            upsert(Map::empty(), rows),
            record,
        ),
{
    let after = rows.update(i, record);
    assert forall|a: int, b: int| 0 <= a < b < after.len() implies after[a].id
        != after[b].id by {
        assert(after[a].id == rows[a].id);
        assert(after[b].id == rows[b].id);
    }
    let empty = Map::<Id, Record>::empty();
    let left = upsert(empty, after);
    let right = upsert_one(upsert(empty, rows), record);
    lemma_upsert(empty, after);
    lemma_upsert(empty, rows);
    assert forall|id: Id| ids_of(after).contains(id) <==> ids_of(rows).contains(id) by {
        if ids_of(after).contains(id) {
            let k = choose|k: int| 0 <= k < after.len() && #[trigger] after[k].id == id;
            assert(rows[k].id == id);
        }
        if ids_of(rows).contains(id) {
            let k = choose|k: int| 0 <= k < rows.len() && #[trigger] rows[k].id == id;
            assert(after[k].id == id);
        }
    }
    assert(rows[i].id == record.id);
    assert(ids_of(rows).contains(record.id));
    assert(left.dom() =~= right.dom());
    assert forall|id: Id| left.contains_key(id) implies #[trigger] left[id] == right[id] by {
        assert(ids_of(after).contains(id));
        let k = choose|k: int| 0 <= k < after.len() && #[trigger] after[k].id == id;
        lemma_latest_of_distinct(after, k);
        if k == i {
        } else {
            assert(after[k] == rows[k]);
            lemma_latest_of_distinct(rows, k);
        }
    }
    assert(left =~= right);
}

/// `latest` finds a record exactly when the id occurs in the batch, and the
/// record it finds is the occurrence after which the id does not occur again.
pub proof fn lemma_latest(batch: Seq<Record>, id: Id)
    ensures
        latest(batch, id) is Some <==> ids_of(batch).contains(id),
        latest(batch, id) is Some ==> exists|i: int|
            0 <= i < batch.len() && #[trigger] batch[i] == latest(batch, id)->0 && batch[i].id == id
                && forall|j: int| i < j < batch.len() ==> (#[trigger] batch[j]).id != id,
    decreases batch.len(),
{
    if batch.len() == 0 {
    } else if batch.last().id == id {
        let i = batch.len() - 1;
        assert(batch[i].id == id);
        assert(batch[i] == latest(batch, id)->0);
    } else {
        let front = batch.drop_last();
        lemma_latest(front, id);
        if latest(front, id) is Some {
            let i = choose|i: int|
                0 <= i < front.len() && #[trigger] front[i] == latest(front, id)->0 && front[i].id
                    == id && forall|j: int| i < j < front.len() ==> (#[trigger] front[j]).id != id;
            assert(batch[i] == front[i]);
            assert forall|j: int| i < j < batch.len() implies (#[trigger] batch[j]).id != id by {
                if j < front.len() {
                    assert(batch[j] == front[j]);
                }
            }
            assert(batch[i].id == id);
        }
        if ids_of(batch).contains(id) {
            let k = choose|k: int| 0 <= k < batch.len() && #[trigger] batch[k].id == id;
            assert(k < front.len());
            assert(front[k].id == id);
        }
    }
}

/// After an upsert the table holds the ids it held before and those of the
/// batch, and no others. An id of the batch has the batch's last record
/// for it; every other row is as it was.
pub proof fn lemma_upsert(table: Map<Id, Record>, batch: Seq<Record>)
    ensures
        upsert(table, batch).dom() =~= table.dom().union(ids_of(batch)),
        forall|id: Id| #[trigger]
            ids_of(batch).contains(id) ==> upsert(table, batch)[id] == latest(batch, id)->0,
        forall|id: Id|
            !ids_of(batch).contains(id) ==> #[trigger] upsert(table, batch)[id] == table[id],
    decreases batch.len(),
{
    if batch.len() == 0 {
    } else {
        let front = batch.drop_last();
        let last = batch.last();
        lemma_upsert(table, front);
        assert forall|id: Id| #[trigger] ids_of(batch).contains(id) <==> (id == last.id || ids_of(
            front,
        ).contains(id)) by {
            if ids_of(batch).contains(id) {
                let k = choose|k: int| 0 <= k < batch.len() && #[trigger] batch[k].id == id;
                if k < front.len() {
                    assert(front[k].id == id);
                }
            }
            if id == last.id {
                assert(batch[batch.len() - 1].id == id);
            }
            if ids_of(front).contains(id) {
                let k = choose|k: int| 0 <= k < front.len() && #[trigger] front[k].id == id;
                assert(batch[k].id == id);
            }
        }
        assert forall|id: Id| #[trigger]
            ids_of(batch).contains(id) implies upsert(table, batch)[id] == latest(batch, id)->0 by {
            if id != last.id {
                assert(ids_of(front).contains(id));
            }
        }
    }
}

/// Upserting two batches one after the other is upserting them joined.
pub proof fn lemma_upsert_joined(table: Map<Id, Record>, first: Seq<Record>, second: Seq<Record>)
    ensures
        upsert(upsert(table, first), second) == upsert(table, first + second),
    decreases second.len(),
{
    if second.len() == 0 {
        assert(first + second =~= first);
    } else {
        lemma_upsert_joined(table, first, second.drop_last());
        assert((first + second).drop_last() =~= first + second.drop_last());
        assert((first + second).last() == second.last());
    }
}

/// A sequence of cycles leaves the table that one upsert of everything they
/// observed would leave.
pub proof fn lemma_cycles_are_one_upsert(table: Map<Id, Record>, cycles: Seq<Option<Seq<Record>>>)
    ensures
        after_cycles(table, cycles) == upsert(table, observed(cycles)),
    decreases cycles.len(),
{
    if cycles.len() > 0 {
        lemma_cycles_are_one_upsert(table, cycles.drop_last());
        match cycles.last() {
            Some(batch) => {
                lemma_upsert_joined(table, observed(cycles.drop_last()), batch);
            },
            None => {},
        }
    }
}

/// Upserting a record and then another with the same id leaves the table
/// that upserting the second alone would leave: one row for that id, holding
/// the second record, and every other row as it was.
pub proof fn law_upsert_replaces(table: Map<Id, Record>, earlier: Record, later: Record)
    requires
        earlier.id == later.id,
    ensures
        upsert(upsert(table, seq![earlier]), seq![later]) == upsert(table, seq![later]),
        upsert(upsert(table, seq![earlier]), seq![later]) == table.insert(later.id, later),
        upsert(upsert(table, seq![earlier]), seq![later])[later.id] == later,
        upsert(upsert(table, seq![earlier]), seq![later]).dom() == table.dom().insert(later.id),
{
    lemma_upsert_single(table, earlier);
    lemma_upsert_single(table.insert(earlier.id, earlier), later);
    lemma_upsert_single(table, later);
    assert(table.insert(earlier.id, earlier).insert(later.id, later) =~= table.insert(
        later.id,
        later,
    ));
}

/// Upserting the same batch a second time changes nothing.
pub proof fn law_upsert_idempotent(table: Map<Id, Record>, batch: Seq<Record>)
    ensures
        upsert(upsert(table, batch), batch) == upsert(table, batch),
{
    let once = upsert(table, batch);
    let twice = upsert(once, batch);
    lemma_upsert(table, batch);
    lemma_upsert(once, batch);
    assert forall|id: Id| twice.contains_key(id) implies #[trigger] twice[id] == once[id] by {
        if !ids_of(batch).contains(id) {
        }
    }
    assert(twice =~= once);
}

/// After any sequence of cycles on an empty table, the table holds exactly
/// the ids that the cycles observed, each with the record observed last for
/// it. Cycles that failed to fetch leave no trace.
pub proof fn law_convergence(cycles: Seq<Option<Seq<Record>>>)
    ensures
        after_cycles(Map::empty(), cycles).dom() == ids_of(observed(cycles)),
        forall|id: Id| #[trigger]
            ids_of(observed(cycles)).contains(id) ==> Some(
                after_cycles(Map::empty(), cycles)[id],
            ) == latest(observed(cycles), id),
{
    law_convergence_from(Map::empty(), cycles);
    assert(Map::<Id, Record>::empty().dom().union(ids_of(observed(cycles))) =~= ids_of(
        observed(cycles),
    ));
}

/// After any sequence of cycles on a table, the table holds the ids it held
/// before and those that the cycles observed. An observed id has the record
/// observed last for it; a row that no cycle observed is as it was.
pub proof fn law_convergence_from(table: Map<Id, Record>, cycles: Seq<Option<Seq<Record>>>)
    ensures
        after_cycles(table, cycles).dom() == table.dom().union(ids_of(observed(cycles))),
        forall|id: Id| #[trigger]
            ids_of(observed(cycles)).contains(id) ==> Some(after_cycles(table, cycles)[id])
                == latest(observed(cycles), id),
        forall|id: Id|
            !ids_of(observed(cycles)).contains(id) ==> #[trigger] after_cycles(table, cycles)[id]
                == table[id],
{
    lemma_cycles_are_one_upsert(table, cycles);
    lemma_upsert(table, observed(cycles));
    assert forall|id: Id| #[trigger] ids_of(observed(cycles)).contains(id) implies Some(
        after_cycles(table, cycles)[id],
    ) == latest(observed(cycles), id) by {
        lemma_latest(observed(cycles), id);
    }
}

/// Rows are never deleted: whatever the cycles observe, every identifier
/// that the table held before it still holds after.
pub proof fn law_rows_are_never_deleted(table: Map<Id, Record>, cycles: Seq<Option<Seq<Record>>>)
    ensures
        table.dom().subset_of(after_cycles(table, cycles).dom()),
{
    law_convergence_from(table, cycles);
}

/// A cycle that produced no batch leaves the table as it was.
pub proof fn law_failed_cycle_changes_nothing(table: Map<Id, Record>)
    ensures
        after_cycle(table, None) == table,
        after_cycles(table, seq![None]) == table,
{
    assert(seq![None::<Seq<Record>>].drop_last() =~= Seq::<Option<Seq<Record>>>::empty());
    assert(after_cycles(table, seq![None::<Seq<Record>>].drop_last()) == table);
}

/// Upserting a batch of one record inserts that record.
pub proof fn lemma_upsert_single(table: Map<Id, Record>, record: Record)
    ensures
        upsert(table, seq![record]) == table.insert(record.id, record),
{
    assert(seq![record].drop_last() =~= Seq::<Record>::empty());
    assert(upsert(table, seq![record].drop_last()) == table);
}

} // verus!
