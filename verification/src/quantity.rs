//! Scans by quantity, the average quantity, and the eviction of what has
//! expired.

use crate::expiration_status::is_expired;
use crate::food_item::{views, FoodItem};
use crate::food_item_manager::FoodStore;
use crate::laws::lemma_listing_below;
use crate::model::{expired_at, Criterion};
use crate::query::{select_food_items, sum_quantities, Query};
use vstd::prelude::*;

verus! {

/// An average as the exact quotient of a sum by a count. The count is never
/// zero: the average of nothing is zero over one.
#[derive(Debug, PartialEq, Eq, Clone, Copy)]
pub struct Average {
    pub total: u128,
    pub count: u64,
}

/// The records whose quantity is greater than `threshold`, by ascending
/// identifier.
pub fn get_food_items_above_quantity(store: &FoodStore, threshold: u32) -> (found: Vec<FoodItem>)
    requires
        store.wf(),
    ensures
        views(found@) == store@.selection(Criterion::Above(threshold)),
{
    select_food_items(store, &Query::Above(threshold))
}

/// The records whose quantity is less than `threshold`, by ascending
/// identifier.
pub fn get_food_items_below_quantity(store: &FoodStore, threshold: u32) -> (found: Vec<FoodItem>)
    requires
        store.wf(),
    ensures
        views(found@) == store@.selection(Criterion::Below(threshold)),
{
    select_food_items(store, &Query::Below(threshold))
}

/// The average quantity of all records: their sum over their number, and
/// zero over one where the store has no record.
pub fn get_average_food_quantity(store: &FoodStore) -> (average: Average)
    requires
        store.wf(),
    ensures
        (average.total as int, average.count as int) == store@.average_quantity(),
        average.count >= 1,
{
    let all = store.records();
    if all.len() == 0 {
        Average { total: 0, count: 1 }
    } else {
        Average { total: sum_quantities(&all), count: all.len() as u64 }
    }
}

/// Whether `id` is among the first `upto` of `ids`.
spec fn among(ids: Seq<u64>, upto: int, id: u64) -> bool {
    exists|m: int| 0 <= m < upto && ids[m] == id
}

/// Removes every record that has expired at `now`. The identifiers are
/// collected in one scan and the records removed afterwards, one by one.
pub fn clear_expired_food_items(store: &mut FoodStore, now: u64)
    requires
        old(store).wf(),
    ensures
        final(store).wf(),
        final(store)@ == old(store)@.after_eviction(now),
{
    let all = store.records();
    let ghost before = store@;
    proof {
        store.lemma_view_wf();
        lemma_listing_below(before.records, before.next_id as nat);
    }
    let mut expired: Vec<u64> = Vec::new();
    let mut i: usize = 0;
    while i < all.len()
        invariant
            i <= all.len(),
            before.wf(),
            views(all@) == before.listing(),
            forall|k: int|
                0 <= k < before.listing().len() ==> {
                    let record = #[trigger] before.listing()[k];
                    before.records.contains_key(record.id) && before.records[record.id] == record
                },
            forall|m: int|
                0 <= m < expired@.len() ==> before.records.contains_key(#[trigger] expired@[m])
                    && expired_at(before.records[expired@[m]], now),
            forall|k: int|
                0 <= k < i && expired_at(#[trigger] all@[k]@, now) ==> among(
                    expired@,
                    expired@.len() as int,
                    all@[k]@.id,
                ),
        decreases all.len() - i,
    {
        assert(all@[i as int]@ == before.listing()[i as int]);
        if is_expired(&all[i], now) {
            let ghost earlier = expired@;
            expired.push(all[i].id);
            proof {
                assert forall|k: int| 0 <= k < i + 1 && expired_at(#[trigger] all@[k]@, now) implies among(
                    expired@,
                    expired@.len() as int,
                    all@[k]@.id,
                ) by {
                    if k < i {
                        let m = choose|m: int| 0 <= m < earlier.len() && earlier[m] == all@[k]@.id;
                        assert(expired@[m] == all@[k]@.id);
                    } else {
                        assert(expired@[expired@.len() - 1] == all@[k]@.id);
                    }
                }
            }
        }
        i += 1;
    }
    let mut j: usize = 0;
    while j < expired.len()
        invariant
            j <= expired.len(),
            store.wf(),
            store@.next_id == before.next_id,
            store@.records == Map::new(
                |id: u64| before.records.contains_key(id) && !among(expired@, j as int, id),
                |id: u64| before.records[id],
            ),
        decreases expired.len() - j,
    {
        let ghost earlier = store@.records;
        store.remove(expired[j]);
        proof {
            assert forall|id: u64| among(expired@, j + 1, id) <==> among(expired@, j as int, id) || id
                == expired@[j as int] by {
                if among(expired@, j as int, id) {
                    let m = choose|m: int| 0 <= m < j && expired@[m] == id;
                    assert(0 <= m < j + 1 && expired@[m] == id);
                }
                if id == expired@[j as int] {
                    assert(0 <= j < j + 1 && expired@[j as int] == id);
                }
            }
            assert(store@.records =~= Map::new(
                |id: u64| before.records.contains_key(id) && !among(expired@, j + 1, id),
                |id: u64| before.records[id],
            ));
        }
        j += 1;
    }
    proof {
        assert forall|id: u64| before.records.contains_key(id) implies (among(
            expired@,
            expired@.len() as int,
            id,
        ) <==> expired_at(before.records[id], now)) by {
            if expired_at(before.records[id], now) {
                let k = choose|k: int|
                    0 <= k < before.listing().len() && before.listing()[k] == before.records[id];
                assert(all@[k]@ == before.records[id]);
            }
        }
        assert(store@.records =~= before.after_eviction(now).records);
    }
}

} // verus!
