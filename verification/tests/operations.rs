use food_store::expiration_status::{check_expiration_status, is_expired, list_all_food_items};
use food_store::food_item::{Error, FoodItem, FoodItemPayload, SHELF_LIFE};
use food_store::food_item_manager::{do_insert_food_item, get_food_item_from_storage, FoodStore};
use food_store::food_item_operations::{
    _get_food_item, add_food_item, can_add_food_item, can_update_food_item, delete_food_item,
    delete_missing_message, get_food_item, read_missing_message, store_new_food_item,
    update_food_item, update_missing_message,
};
use food_store::quantity::clear_expired_food_items;
use food_store::stable::StableMemory;
use ic_stable_structures::cell::ValueError;

const T: u64 = 1_700_000_000_000_000_000;

fn empty_store() -> FoodStore {
    FoodStore::open(StableMemory::new()).unwrap()
}

fn payload(name: &str, quantity: u32) -> FoodItemPayload {
    FoodItemPayload { name: name.to_string(), quantity }
}

#[test]
fn create_then_read_returns_the_created_record() {
    let mut store = empty_store();
    let created = add_food_item(&mut store, payload("Milk", 2), "alice", T).unwrap();
    assert_eq!(
        created,
        FoodItem {
            id: 0,
            owner: "alice".to_string(),
            name: "Milk".to_string(),
            quantity: 2,
            created_date: T,
            expiration_date: T + 86_400_000_000_000,
        }
    );
    assert_eq!(get_food_item(&store, created.id), Ok(created.clone()));
    assert_eq!(_get_food_item(&store, &created.id), Some(created.clone()));
    assert_eq!(get_food_item_from_storage(&store, created.id), Some(created));
}

#[test]
fn each_creation_gets_a_greater_identifier() {
    let mut store = empty_store();
    let mut last = None;
    for round in 0..20u64 {
        let created = add_food_item(&mut store, payload("Bread", 1), "alice", T + round).unwrap();
        assert_eq!(created.id, round);
        if let Some(previous) = last {
            assert!(created.id > previous);
        }
        last = Some(created.id);
    }
}

#[test]
fn identifiers_are_not_reused_after_a_deletion() {
    let mut store = empty_store();
    let first = add_food_item(&mut store, payload("Milk", 2), "alice", T).unwrap();
    let second = add_food_item(&mut store, payload("Eggs", 12), "alice", T).unwrap();
    assert_eq!(delete_food_item(&mut store, second.id, "alice"), Ok(second.clone()));
    assert_eq!(delete_food_item(&mut store, first.id, "alice"), Ok(first.clone()));
    let third = add_food_item(&mut store, payload("Rice", 1), "alice", T).unwrap();
    assert_eq!(third.id, 2);
    assert!(third.id > first.id && third.id > second.id);
}

#[test]
fn an_invalid_payload_is_refused_and_spends_no_identifier() {
    let mut store = empty_store();
    assert_eq!(
        add_food_item(&mut store, payload("ab", 5), "alice", T),
        Err(Error::ValidationFailed { name_too_short: true, quantity_too_small: false })
    );
    assert_eq!(
        add_food_item(&mut store, payload("Milk", 0), "alice", T),
        Err(Error::ValidationFailed { name_too_short: false, quantity_too_small: true })
    );
    assert!(list_all_food_items(&store).is_empty());
    let created = add_food_item(&mut store, payload("Milk", 2), "alice", T).unwrap();
    assert_eq!(created.id, 0);
}

#[test]
fn a_failed_allocation_stores_nothing() {
    let mut store = empty_store();
    let outcome =
        store_new_food_item(&mut store, Err(Error::AllocationFailed), payload("Milk", 2), "alice", T);
    assert_eq!(outcome, Err(Error::AllocationFailed));
    assert!(list_all_food_items(&store).is_empty());
    assert_eq!(store.next_id(), Ok(0));
}

#[test]
fn an_allocated_identifier_is_the_one_stored_under() {
    let mut store = empty_store();
    assert_eq!(store.next_id(), Ok(0));
    assert_eq!(store.next_id(), Ok(1));
    let outcome = store_new_food_item(&mut store, Ok(1), payload("Milk", 2), "alice", T);
    let created = outcome.unwrap();
    assert_eq!(created.id, 1);
    assert_eq!(created.expiration_date, T + SHELF_LIFE);
    assert_eq!(get_food_item(&store, 1), Ok(created));
    assert_eq!(get_food_item_from_storage(&store, 0), None);
}

#[test]
fn the_counter_answer_decides_the_allocation() {
    assert_eq!(FoodStore::allocated(Ok(5)), Ok(5));
    assert_eq!(FoodStore::allocated(Ok(0)), Ok(0));
    assert_eq!(
        FoodStore::allocated(Err(ValueError::ValueTooLarge { value_size: 8 })),
        Err(Error::AllocationFailed)
    );
}

#[test]
fn reading_what_is_not_there_reports_not_found() {
    let store = empty_store();
    assert_eq!(
        get_food_item(&store, 7),
        Err(Error::NotFound { msg: "a food item with id=7 not found".to_string() })
    );
    assert_eq!(_get_food_item(&store, &7), None);
    assert_eq!(read_missing_message(120), "a food item with id=120 not found");
    assert_eq!(
        update_missing_message(u64::MAX),
        "couldn't update a food item with id=18446744073709551615. item not found"
    );
    assert_eq!(delete_missing_message(0), "couldn't delete a food item with id=0. item not found.");
}

#[test]
fn update_changes_name_quantity_and_timestamps_only() {
    let mut store = empty_store();
    let created = add_food_item(&mut store, payload("Milk", 2), "alice", T).unwrap();
    let later = T + 5_000;
    let updated = update_food_item(&mut store, created.id, payload("Oat milk", 3), "alice", later);
    let expected = FoodItem {
        id: created.id,
        owner: "alice".to_string(),
        name: "Oat milk".to_string(),
        quantity: 3,
        created_date: later,
        expiration_date: later + SHELF_LIFE,
    };
    assert_eq!(updated, Ok(expected.clone()));
    assert_eq!(get_food_item(&store, created.id), Ok(expected));
    assert_eq!(list_all_food_items(&store).len(), 1);
}

#[test]
fn update_of_what_is_not_there_reports_not_found() {
    let mut store = empty_store();
    assert_eq!(
        update_food_item(&mut store, 3, payload("Milk", 2), "alice", T),
        Err(Error::NotFound {
            msg: "couldn't update a food item with id=3. item not found".to_string()
        })
    );
    assert_eq!(
        update_food_item(&mut store, 3, payload("ab", 0), "alice", T),
        Err(Error::NotFound {
            msg: "couldn't update a food item with id=3. item not found".to_string()
        })
    );
}

#[test]
fn update_with_an_invalid_payload_changes_nothing() {
    let mut store = empty_store();
    let created = add_food_item(&mut store, payload("Milk", 2), "alice", T).unwrap();
    assert_eq!(
        update_food_item(&mut store, created.id, payload("ab", 5), "alice", T + 1),
        Err(Error::ValidationFailed { name_too_short: true, quantity_too_small: false })
    );
    assert_eq!(get_food_item(&store, created.id), Ok(created));
}

#[test]
fn ownership_is_checked_before_validation() {
    let mut store = empty_store();
    let created = add_food_item(&mut store, payload("Milk", 2), "alice", T).unwrap();
    assert_eq!(
        update_food_item(&mut store, created.id, payload("ab", 0), "bob", T + 1),
        Err(Error::AuthorizationFailed { id: created.id })
    );
}

#[test]
fn only_the_owner_updates_and_deletes() {
    let mut store = empty_store();
    let created = add_food_item(&mut store, payload("Milk", 2), "alice", T).unwrap();
    assert_eq!(
        update_food_item(&mut store, created.id, payload("Butter", 1), "bob", T + 1),
        Err(Error::AuthorizationFailed { id: created.id })
    );
    assert_eq!(
        delete_food_item(&mut store, created.id, "bob"),
        Err(Error::AuthorizationFailed { id: created.id })
    );
    assert_eq!(get_food_item(&store, created.id), Ok(created.clone()));
    let updated =
        update_food_item(&mut store, created.id, payload("Butter", 1), "alice", T + 1).unwrap();
    assert_eq!(updated.name, "Butter");
    assert_eq!(updated.owner, "alice");
    assert_eq!(delete_food_item(&mut store, created.id, "alice"), Ok(updated));
}

#[test]
fn delete_removes_the_record() {
    let mut store = empty_store();
    let kept = add_food_item(&mut store, payload("Eggs", 12), "alice", T).unwrap();
    let created = add_food_item(&mut store, payload("Milk", 2), "alice", T).unwrap();
    assert_eq!(delete_food_item(&mut store, created.id, "alice"), Ok(created.clone()));
    assert_eq!(
        get_food_item(&store, created.id),
        Err(Error::NotFound { msg: "a food item with id=1 not found".to_string() })
    );
    assert_eq!(
        delete_food_item(&mut store, created.id, "alice"),
        Err(Error::NotFound {
            msg: "couldn't delete a food item with id=1. item not found.".to_string()
        })
    );
    assert_eq!(list_all_food_items(&store), vec![kept]);
}

#[test]
fn a_record_expires_only_after_its_expiration_timestamp() {
    let mut store = empty_store();
    let created = add_food_item(&mut store, payload("Milk", 2), "alice", T).unwrap();
    assert_eq!(created.expiration_date, T + 86_400_000_000_000);
    assert_eq!(check_expiration_status(&store, created.id, T + 1), Ok("Not Expired".to_string()));
    assert_eq!(
        check_expiration_status(&store, created.id, T + 86_400_000_000_000),
        Ok("Not Expired".to_string())
    );
    assert_eq!(
        check_expiration_status(&store, created.id, T + 86_400_000_000_001),
        Ok("Expired".to_string())
    );
    assert_eq!(check_expiration_status(&store, created.id, u64::MAX), Ok("Expired".to_string()));
    assert_eq!(check_expiration_status(&store, created.id, 0), Ok("Not Expired".to_string()));
    assert!(!is_expired(&created, created.expiration_date));
    assert!(is_expired(&created, created.expiration_date + 1));
}

#[test]
fn classifying_what_is_not_there_reports_not_found() {
    let store = empty_store();
    assert_eq!(
        check_expiration_status(&store, 9, T),
        Err(Error::NotFound { msg: "a food item with id=9 not found".to_string() })
    );
}

#[test]
fn eviction_removes_what_has_expired() {
    let mut store = empty_store();
    let created = add_food_item(&mut store, payload("Milk", 2), "alice", T).unwrap();
    clear_expired_food_items(&mut store, T + 1);
    assert_eq!(list_all_food_items(&store), vec![created.clone()]);
    clear_expired_food_items(&mut store, T + 86_400_000_000_000);
    assert_eq!(list_all_food_items(&store), vec![created.clone()]);
    clear_expired_food_items(&mut store, T + 86_400_000_000_001);
    assert!(list_all_food_items(&store).is_empty());
    assert_eq!(
        get_food_item(&store, created.id),
        Err(Error::NotFound { msg: "a food item with id=0 not found".to_string() })
    );
}

#[test]
fn eviction_keeps_what_has_not_expired() {
    let mut store = empty_store();
    let old = add_food_item(&mut store, payload("Milk", 2), "alice", 100).unwrap();
    let fresh = add_food_item(&mut store, payload("Eggs", 12), "bob", 200).unwrap();
    let older = add_food_item(&mut store, payload("Fish", 1), "carol", 50).unwrap();
    clear_expired_food_items(&mut store, 150 + SHELF_LIFE);
    assert_eq!(list_all_food_items(&store), vec![fresh.clone()]);
    assert_eq!(_get_food_item(&store, &old.id), None);
    assert_eq!(_get_food_item(&store, &older.id), None);
    let next = add_food_item(&mut store, payload("Rice", 1), "alice", 300).unwrap();
    assert_eq!(next.id, 3);
}

#[test]
fn insert_overwrites_and_returns_what_was_there() {
    let mut store = empty_store();
    let created = add_food_item(&mut store, payload("Milk", 2), "alice", T).unwrap();
    let replacement = FoodItem {
        id: created.id,
        owner: "alice".to_string(),
        name: "Cream".to_string(),
        quantity: 9,
        created_date: 1,
        expiration_date: 2,
    };
    assert_eq!(do_insert_food_item(&mut store, &replacement), Some(created));
    assert_eq!(get_food_item_from_storage(&store, replacement.id), Some(replacement.clone()));
    assert_eq!(store.remove(replacement.id), Some(replacement));
    assert_eq!(store.remove(0), None);
    assert_eq!(store.next_id(), Ok(1));
    let restored = FoodItem {
        id: 0,
        owner: "bob".to_string(),
        name: "Tea".to_string(),
        quantity: 1,
        created_date: 1,
        expiration_date: 2,
    };
    assert_eq!(do_insert_food_item(&mut store, &restored), None);
    assert_eq!(store.records(), vec![restored]);
}

#[test]
fn milk_is_classified_then_evicted() {
    let mut store = empty_store();
    let milk = add_food_item(&mut store, payload("Milk", 2), "alice", T).unwrap();
    assert_eq!(milk.expiration_date, T + 86_400_000_000_000);
    assert_eq!(check_expiration_status(&store, milk.id, T + 1), Ok("Not Expired".to_string()));
    let later = T + 86_400_000_000_001;
    assert_eq!(check_expiration_status(&store, milk.id, later), Ok("Expired".to_string()));
    clear_expired_food_items(&mut store, later);
    assert!(!list_all_food_items(&store).contains(&milk));
    assert!(list_all_food_items(&store).is_empty());
}

#[test]
fn a_short_name_is_refused_at_creation() {
    let mut store = empty_store();
    let outcome = add_food_item(&mut store, payload("ab", 5), "alice", T);
    assert!(matches!(outcome, Err(Error::ValidationFailed { .. })));
}

#[test]
fn a_stranger_is_refused_and_the_owner_succeeds() {
    let mut store = empty_store();
    let a = add_food_item(&mut store, payload("Milk", 2), "caller-a", T).unwrap();
    let b = add_food_item(&mut store, payload("Eggs", 6), "caller-a", T).unwrap();
    assert!(matches!(
        update_food_item(&mut store, a.id, payload("Cream", 1), "caller-b", T),
        Err(Error::AuthorizationFailed { .. })
    ));
    assert!(matches!(
        delete_food_item(&mut store, b.id, "caller-b"),
        Err(Error::AuthorizationFailed { .. })
    ));
    assert!(update_food_item(&mut store, a.id, payload("Cream", 1), "caller-a", T).is_ok());
    assert!(delete_food_item(&mut store, b.id, "caller-a").is_ok());
}

#[test]
fn a_creation_is_writable_unless_a_valid_payload_is_too_large_or_too_late() {
    assert!(can_add_food_item(&payload("Milk", 2), "alice", T));
    assert!(can_add_food_item(&payload("Milk", 2), "alice", u64::MAX - SHELF_LIFE));
    assert!(!can_add_food_item(&payload("Milk", 2), "alice", u64::MAX - SHELF_LIFE + 1));
    assert!(!can_add_food_item(&payload(&"n".repeat(2000), 2), "alice", T));
    assert!(!can_add_food_item(&payload("Milk", 2), &"a".repeat(1000), T));
    assert!(can_add_food_item(&payload("ab", 2), "alice", u64::MAX));
    assert!(can_add_food_item(&payload(&"n".repeat(2000), 0), "alice", T));
}

#[test]
fn an_update_is_writable_unless_it_passes_every_gate_and_is_too_large_or_too_late() {
    let mut store = empty_store();
    let created = add_food_item(&mut store, payload("Milk", 2), "alice", T).unwrap();
    let large = payload(&"n".repeat(2000), 2);
    assert!(can_update_food_item(&store, created.id, &payload("Cream", 1), "alice", T));
    assert!(!can_update_food_item(&store, created.id, &large, "alice", T));
    assert!(!can_update_food_item(&store, created.id, &payload("Cream", 1), "alice", u64::MAX));
    assert!(can_update_food_item(&store, 9, &large, "alice", u64::MAX));
    assert!(can_update_food_item(&store, created.id, &large, "bob", u64::MAX));
    assert!(can_update_food_item(&store, created.id, &payload("ab", 1), "alice", u64::MAX));
    assert_eq!(
        update_food_item(&mut store, 9, large, "alice", u64::MAX),
        Err(Error::NotFound {
            msg: "couldn't update a food item with id=9. item not found".to_string()
        })
    );
}
