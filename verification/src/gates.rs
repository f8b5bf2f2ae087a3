//! The two gates that a request passes before it changes the store.

use crate::food_item::{
    outcome_view, Error, FoodItem, FoodItemPayload, MIN_NAME_CHARS, MIN_QUANTITY,
};
use crate::model::{ownership, validation};
use crate::text::str_eq;
use vstd::prelude::*;
use vstd::string::*;

verus! {

/// The validation gate: admits a payload whose name has at least
/// `MIN_NAME_CHARS` characters and whose quantity is at least `MIN_QUANTITY`,
/// and says of any other which of the two rules it breaks.
pub fn validate_payload(payload: &FoodItemPayload) -> (verdict: Result<(), Error>)
    ensures
        outcome_view(verdict) == validation(payload@),
{
    let name_too_short = payload.name.as_str().unicode_len() < MIN_NAME_CHARS;
    let quantity_too_small = payload.quantity < MIN_QUANTITY;
    if name_too_short || quantity_too_small {
        Err(Error::ValidationFailed { name_too_short, quantity_too_small })
    } else {
        Ok(())
    }
}

/// The ownership gate: lets `caller` act on `record` only where `caller` is
/// the record's owner, character for character.
pub fn check_owner(record: &FoodItem, caller: &str) -> (verdict: Result<(), Error>)
    ensures
        outcome_view(verdict) == ownership(record@, caller@),
{
    if str_eq(record.owner.as_str(), caller) {
        Ok(())
    } else {
        Err(Error::AuthorizationFailed { id: record.id })
    }
}

} // verus!
