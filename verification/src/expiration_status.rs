//! Expiration of one record, and the scans that read every record.

use crate::food_item::{outcome_view, views, Error, FoodItem};
use crate::food_item_manager::FoodStore;
use crate::food_item_operations::{_get_food_item, read_missing_message};
use crate::model::{expired_at, Criterion};
use crate::query::{select_food_items, sum_quantities, Query};
use vstd::prelude::*;
use vstd::string::*;

verus! {

/// Whether `record` has expired at `now`. A record has not expired at the
/// very moment of its expiration timestamp, only after it.
pub fn is_expired(record: &FoodItem, now: u64) -> (expired: bool)
    ensures
        expired == expired_at(record@, now),
{
    now > record.expiration_date
}

/// Classifies the record under `id` at `now` as "Expired" or "Not Expired",
/// or reports that there is none.
pub fn check_expiration_status(store: &FoodStore, id: u64, now: u64) -> (outcome: Result<String, Error>)
    requires
        store.wf(),
    ensures
        outcome_view(outcome) == store@.classification(id, now),
{
    match _get_food_item(store, &id) {
        Some(food_item) => {
            if is_expired(&food_item, now) {
                Ok(String::from_str("Expired"))
            } else {
                Ok(String::from_str("Not Expired"))
            }
        },
        None => Err(Error::NotFound { msg: read_missing_message(id) }),
    }
}

/// Every record, by ascending identifier.
pub fn list_all_food_items(store: &FoodStore) -> (all: Vec<FoodItem>)
    requires
        store.wf(),
    ensures
        views(all@) == store@.listing(),
{
    store.records()
}

/// The records whose name is `name`, character for character, by ascending
/// identifier.
pub fn search_food_items_by_name(store: &FoodStore, name: String) -> (found: Vec<FoodItem>)
    requires
        store.wf(),
    ensures
        views(found@) == store@.selection(Criterion::Named(name@)),
{
    select_food_items(store, &Query::Named(name.as_str()))
}

/// The sum of the quantities of all records.
pub fn get_total_food_quantity(store: &FoodStore) -> (total: u128)
    requires
        store.wf(),
    ensures
        total == store@.total_quantity(),
{
    let all = store.records();
    sum_quantities(&all)
}

} // verus!
