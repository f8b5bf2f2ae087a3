//! Reading, creating, updating and deleting one record.

use crate::codec::{can_store, storable};
use crate::food_item::{outcome_view, Error, FoodItem, FoodItemPayload, SHELF_LIFE};
use crate::food_item_manager::{do_insert_food_item, get_food_item_from_storage, FoodStore};
use crate::gates::{check_owner, validate_payload};
use crate::model::{
    clock_in_range, delete_missing_text, read_missing_text, update_missing_text, valid_payload,
};
use crate::text::decimal_string;
use vstd::prelude::*;
use vstd::string::*;

verus! {

/// The message of a lookup that found nothing under `id`.
pub fn read_missing_message(id: u64) -> (msg: String)
    ensures
        msg@ == read_missing_text(id),
{
    String::from_str("a food item with id=").concat(decimal_string(id).as_str()).concat(" not found")
}

/// The message of an update that found nothing under `id`.
pub fn update_missing_message(id: u64) -> (msg: String)
    ensures
        msg@ == update_missing_text(id),
{
    String::from_str("couldn't update a food item with id=").concat(
        decimal_string(id).as_str(),
    ).concat(". item not found")
}

/// The message of a deletion that found nothing under `id`.
pub fn delete_missing_message(id: u64) -> (msg: String)
    ensures
        msg@ == delete_missing_text(id),
{
    String::from_str("couldn't delete a food item with id=").concat(
        decimal_string(id).as_str(),
    ).concat(". item not found.")
}

/// The record under `id`, if the store has one.
pub fn _get_food_item(store: &FoodStore, id: &u64) -> (found: Option<FoodItem>)
    requires
        store.wf(),
    ensures
        match found {
            Some(record) => store@.read(*id) == Some(record@),
            None => store@.read(*id) is None,
        },
{
    get_food_item_from_storage(store, *id)
}

/// Reads the record under `id`, or reports that there is none.
pub fn get_food_item(store: &FoodStore, id: u64) -> (outcome: Result<FoodItem, Error>)
    requires
        store.wf(),
    ensures
        outcome_view(outcome) == store@.get_result(id),
{
    match _get_food_item(store, &id) {
        Some(item) => Ok(item),
        None => Err(Error::NotFound { msg: read_missing_message(id) }),
    }
}

/// Finishes a creation once the counter has answered. With an identifier,
/// the record made of `item` for `caller` at `now` enters the store and is
/// returned; with the counter's failure, the failure is returned and the
/// store holds what it held.
pub fn store_new_food_item(
    store: &mut FoodStore,
    allocated: Result<u64, Error>,
    item: FoodItemPayload,
    caller: &str,
    now: u64,
) -> (outcome: Result<FoodItem, Error>)
    requires
        old(store).wf(),
        valid_payload(item@),
        allocated matches Ok(id) ==> {
            &&& id < old(store)@.next_id
            &&& clock_in_range(now)
            &&& storable(caller@, item@.name)
        },
    ensures
        final(store).wf(),
        outcome_view(outcome) == old(store)@.admission_result(outcome_view(allocated), item@, caller@, now),
        final(store)@ == old(store)@.after_admission(outcome_view(allocated), item@, caller@, now),
{
    match allocated {
        Ok(id) => {
            let record = FoodItem {
                id,
                owner: String::from_str(caller),
                name: item.name,
                quantity: item.quantity,
                created_date: now,
                expiration_date: now + SHELF_LIFE,
            };
            do_insert_food_item(store, &record);
            Ok(record)
        },
        Err(error) => Err(error),
    }
}

/// Whether a creation of `item` for `caller` at `now` asks nothing of the
/// store that it cannot do: a payload that passes the validation gate must
/// come with a clock reading that an expiration timestamp can follow, and
/// make a record that fits in one stored value.
pub fn can_add_food_item(item: &FoodItemPayload, caller: &str, now: u64) -> (yes: bool)
    ensures
        yes == (valid_payload(item@) ==> clock_in_range(now) && storable(caller@, item@.name)),
{
    match validate_payload(item) {
        Err(_) => true,
        Ok(_) => now <= u64::MAX - SHELF_LIFE && can_store(caller, item.name.as_str()),
    }
}

/// Whether an update of the record under `id` asks nothing of the store
/// that it cannot do: a request that passes the lookup and both gates must
/// come with a clock reading that an expiration timestamp can follow, and
/// make a record that fits in one stored value.
pub fn can_update_food_item(store: &FoodStore, id: u64, item: &FoodItemPayload, caller: &str, now: u64) -> (yes:
    bool)
    requires
        store.wf(),
    ensures
        yes == (store@.update_result(id, item@, caller@, now) is Ok ==> clock_in_range(now) && storable(
            caller@,
            item@.name,
        )),
{
    match get_food_item_from_storage(store, id) {
        None => true,
        Some(food_item) => match check_owner(&food_item, caller) {
            Err(_) => true,
            Ok(_) => can_add_food_item(item, caller, now),
        },
    }
}

/// Creates a record of `item` for `caller` at `now`: the validation gate
/// first, then a fresh identifier, then the record into the store.
///
/// An invalid payload is refused before an identifier is spent. Once the
/// counter has given its last number the creation fails, and nothing of it
/// stays behind.
pub fn add_food_item(store: &mut FoodStore, item: FoodItemPayload, caller: &str, now: u64) -> (outcome:
    Result<FoodItem, Error>)
    requires
        old(store).wf(),
        valid_payload(item@) ==> clock_in_range(now) && storable(caller@, item@.name),
    ensures
        final(store).wf(),
        outcome_view(outcome) == old(store)@.create_result(item@, caller@, now),
        final(store)@ == old(store)@.after_create(item@, caller@, now),
        outcome matches Ok(record) ==> {
            &&& record.id == old(store)@.next_id
            &&& record.id < final(store)@.next_id
            &&& forall|id: u64| old(store)@.records.contains_key(id) ==> id < record.id
            &&& final(store)@.read(record.id) == Some(record@)
        },
{
    proof {
        store.lemma_view_wf();
    }
    match validate_payload(&item) {
        Err(error) => Err(error),
        Ok(_) => {
            let allocated = store.next_id();
            store_new_food_item(store, allocated, item, caller, now)
        },
    }
}

/// Updates the record under `id` on behalf of `caller` at `now`: name and
/// quantity from `item`, both timestamps afresh. Identifier and owner stay.
///
/// The lookup comes first, then the ownership gate, then the validation
/// gate; a request that fails at one of them leaves the store as it was.
pub fn update_food_item(
    store: &mut FoodStore,
    id: u64,
    item: FoodItemPayload,
    caller: &str,
    now: u64,
) -> (outcome: Result<FoodItem, Error>)
    requires
        old(store).wf(),
        old(store)@.update_result(id, item@, caller@, now) is Ok ==> clock_in_range(now) && storable(
            caller@,
            item@.name,
        ),
    ensures
        final(store).wf(),
        outcome_view(outcome) == old(store)@.update_result(id, item@, caller@, now),
        final(store)@ == old(store)@.after_update(id, item@, caller@, now),
        final(store)@.next_id == old(store)@.next_id,
        forall|key: u64| #[trigger]
            old(store)@.records.contains_key(key) ==> {
                &&& final(store)@.records.contains_key(key)
                &&& final(store)@.records[key].id == old(store)@.records[key].id
                &&& final(store)@.records[key].owner == old(store)@.records[key].owner
            },
        outcome matches Ok(record) ==> {
            &&& record.id == id
            &&& record.owner@ == old(store)@.records[id].owner
            &&& final(store)@.read(id) == Some(record@)
        },
{
    proof {
        store.lemma_view_wf();
    }
    match get_food_item_from_storage(store, id) {
        None => Err(Error::NotFound { msg: update_missing_message(id) }),
        Some(mut food_item) => {
            proof {
                store.lemma_view_wf();
            }
            match check_owner(&food_item, caller) {
                Err(error) => Err(error),
                Ok(_) => match validate_payload(&item) {
                    Err(error) => Err(error),
                    Ok(_) => {
                        food_item.name = item.name;
                        food_item.quantity = item.quantity;
                        food_item.created_date = now;
                        food_item.expiration_date = now + SHELF_LIFE;
                        do_insert_food_item(store, &food_item);
                        Ok(food_item)
                    },
                },
            }
        },
    }
}

/// Deletes the record under `id` on behalf of `caller` and returns it.
///
/// The lookup comes first, then the ownership gate; a request that fails at
/// one of them leaves the store as it was.
pub fn delete_food_item(store: &mut FoodStore, id: u64, caller: &str) -> (outcome: Result<FoodItem, Error>)
    requires
        old(store).wf(),
    ensures
        final(store).wf(),
        outcome_view(outcome) == old(store)@.delete_result(id, caller@),
        final(store)@ == old(store)@.after_delete(id, caller@),
        final(store)@.next_id == old(store)@.next_id,
        outcome matches Ok(record) ==> {
            &&& old(store)@.read(id) == Some(record@)
            &&& final(store)@.read(id) is None
        },
{
    match get_food_item_from_storage(store, id) {
        None => Err(Error::NotFound { msg: delete_missing_message(id) }),
        Some(food_item) => {
            proof {
                store.lemma_view_wf();
            }
            match check_owner(&food_item, caller) {
                Err(error) => Err(error),
                Ok(_) => {
                    store.remove(id);
                    Ok(food_item)
                },
            }
        },
    }
}

} // verus!
