use food_store::food_item::{Error, FoodItem, FoodItemPayload, MIN_NAME_CHARS, MIN_QUANTITY, SHELF_LIFE};
use food_store::gates::{check_owner, validate_payload};

fn payload(name: &str, quantity: u32) -> FoodItemPayload {
    FoodItemPayload { name: name.to_string(), quantity }
}

fn owned_by(owner: &str) -> FoodItem {
    FoodItem {
        id: 42,
        owner: owner.to_string(),
        name: "Milk".to_string(),
        quantity: 2,
        created_date: 10,
        expiration_date: 20,
    }
}

#[test]
fn constants_have_their_documented_values() {
    assert_eq!(SHELF_LIFE, 86_400_000_000_000);
    assert_eq!(MIN_NAME_CHARS, 3);
    assert_eq!(MIN_QUANTITY, 1);
}

#[test]
fn a_valid_payload_passes() {
    assert_eq!(validate_payload(&payload("Milk", 2)), Ok(()));
    assert_eq!(validate_payload(&payload("abc", 1)), Ok(()));
    assert_eq!(validate_payload(&payload("a name that goes on", u32::MAX)), Ok(()));
}

#[test]
fn a_name_of_two_characters_is_refused() {
    assert_eq!(
        validate_payload(&payload("ab", 5)),
        Err(Error::ValidationFailed { name_too_short: true, quantity_too_small: false })
    );
    assert_eq!(
        validate_payload(&payload("", 5)),
        Err(Error::ValidationFailed { name_too_short: true, quantity_too_small: false })
    );
}

#[test]
fn a_quantity_of_zero_is_refused() {
    assert_eq!(
        validate_payload(&payload("Milk", 0)),
        Err(Error::ValidationFailed { name_too_short: false, quantity_too_small: true })
    );
}

#[test]
fn both_rules_are_reported_when_both_are_broken() {
    assert_eq!(
        validate_payload(&payload("ab", 0)),
        Err(Error::ValidationFailed { name_too_short: true, quantity_too_small: true })
    );
}

#[test]
fn name_length_is_counted_in_characters() {
    assert_eq!("éa".len(), 3);
    assert_eq!(
        validate_payload(&payload("éa", 1)),
        Err(Error::ValidationFailed { name_too_short: true, quantity_too_small: false })
    );
    assert_eq!(validate_payload(&payload("日本語", 1)), Ok(()));
}

#[test]
fn the_owner_passes_the_ownership_gate() {
    assert_eq!(check_owner(&owned_by("alice"), "alice"), Ok(()));
    assert_eq!(check_owner(&owned_by(""), ""), Ok(()));
}

#[test]
fn anyone_else_is_refused_at_the_ownership_gate() {
    assert_eq!(check_owner(&owned_by("alice"), "bob"), Err(Error::AuthorizationFailed { id: 42 }));
    assert_eq!(check_owner(&owned_by("alice"), "Alice"), Err(Error::AuthorizationFailed { id: 42 }));
    assert_eq!(check_owner(&owned_by("alice"), "alice "), Err(Error::AuthorizationFailed { id: 42 }));
    assert_eq!(check_owner(&owned_by("alice"), ""), Err(Error::AuthorizationFailed { id: 42 }));
}
