//! Scans of the whole store.

use crate::food_item::{views, FoodItem, FoodItemView};
use crate::food_item_manager::FoodStore;
use crate::model::{admitted_by, sum_of_quantities, Criterion};
use crate::text::str_eq;
use vstd::prelude::*;
use vstd::string::*;

verus! {

/// What a scan asks of each record.
pub enum Query<'a> {
    /// The name is this one, character for character.
    Named(&'a str),
    /// The quantity is greater than this.
    Above(u32),
    /// The quantity is less than this.
    Below(u32),
}

impl<'a> View for Query<'a> {
    type V = Criterion;

    open spec fn view(&self) -> Criterion {
        match *self {
            Query::Named(name) => Criterion::Named(name@),
            Query::Above(threshold) => Criterion::Above(threshold),
            Query::Below(threshold) => Criterion::Below(threshold),
        }
    }
}

impl<'a> Query<'a> {
    /// Whether `record` is what the query asks for.
    pub fn admits(&self, record: &FoodItem) -> (yes: bool)
        ensures
            yes == self@.admits(record@),
    {
        match self {
            Query::Named(name) => str_eq(record.name.as_str(), name),
            Query::Above(threshold) => record.quantity > *threshold,
            Query::Below(threshold) => record.quantity < *threshold,
        }
    }
}

/// The records that `query` admits, by ascending identifier.
pub fn select_food_items(store: &FoodStore, query: &Query) -> (found: Vec<FoodItem>)
    requires
        store.wf(),
    ensures
        views(found@) == store@.selection(query@),
{
    let all = store.records();
    let mut found: Vec<FoodItem> = Vec::new();
    let mut i: usize = 0;
    assert(views(all@).take(0) =~= Seq::<FoodItemView>::empty());
    while i < all.len()
        invariant
            i <= all.len(),
            views(found@) == views(all@).take(i as int).filter(admitted_by(query@)),
        decreases all.len() - i,
    {
        proof {
            assert(views(all@).take(i + 1) =~= views(all@).take(i as int).push(all@[i as int]@));
            views(all@).take(i as int).lemma_filter_push(all@[i as int]@, admitted_by(query@));
        }
        if query.admits(&all[i]) {
            found.push(all[i].clone());
            assert(views(found@) =~= views(all@).take(i + 1).filter(admitted_by(query@)));
        }
        i += 1;
    }
    assert(views(all@).take(all@.len() as int) =~= views(all@));
    found
}

/// The sum of the quantities of `records`. It cannot overflow: a list has
/// fewer than 2^64 entries, and no quantity reaches 2^32.
pub fn sum_quantities(records: &Vec<FoodItem>) -> (total: u128)
    ensures
        total == sum_of_quantities(views(records@)),
{
    let mut total: u128 = 0;
    let mut i: usize = 0;
    assert(views(records@).take(0) =~= Seq::<FoodItemView>::empty());
    while i < records.len()
        invariant
            i <= records.len(),
            total == sum_of_quantities(views(records@).take(i as int)),
            total <= i * u32::MAX,
        decreases records.len() - i,
    {
        proof {
            let next = views(records@).take(i + 1);
            assert(next.drop_last() =~= views(records@).take(i as int));
            assert(next.last() == records@[i as int]@);
            assert((i + 1) * u32::MAX == i * u32::MAX + u32::MAX) by (nonlinear_arith);
            assert(i * u32::MAX <= usize::MAX * u32::MAX) by (nonlinear_arith)
                requires
                    i <= usize::MAX,
            ;
        }
        total = total + records[i].quantity as u128;
        i += 1;
    }
    assert(views(records@).take(records@.len() as int) =~= views(records@));
    total
}

} // verus!
