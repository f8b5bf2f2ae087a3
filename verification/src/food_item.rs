//! The record that the store keeps, the payload a request carries, and the
//! errors an operation can return, each with its mathematical view.

use vstd::prelude::*;

verus! {

/// Time added to the moment of creation (or of the last update) to obtain the
/// expiration timestamp: one day, in the unit of the clock readings.
pub const SHELF_LIFE: u64 = 86_400_000_000_000;

/// The identifier that the first creation in a new store assigns.
pub const FIRST_ID: u64 = 0;

/// Least number of characters in a name.
pub const MIN_NAME_CHARS: usize = 3;

/// Least quantity a payload may carry.
pub const MIN_QUANTITY: u32 = 1;

/// One food item as it is stored.
#[derive(Debug, PartialEq, Eq)]
pub struct FoodItem {
    pub id: u64,
    pub owner: String,
    pub name: String,
    pub quantity: u32,
    pub created_date: u64,
    pub expiration_date: u64,
}

/// What a [`FoodItem`] is to the contracts: the same fields, with the strings
/// as sequences of characters.
pub struct FoodItemView {
    pub id: u64,
    pub owner: Seq<char>,
    pub name: Seq<char>,
    pub quantity: u32,
    pub created_date: u64,
    pub expiration_date: u64,
}

impl View for FoodItem {
    type V = FoodItemView;

    open spec fn view(&self) -> FoodItemView {
        FoodItemView {
            id: self.id,
            owner: self.owner@,
            name: self.name@,
            quantity: self.quantity,
            created_date: self.created_date,
            expiration_date: self.expiration_date,
        }
    }
}

impl Clone for FoodItem {
    fn clone(&self) -> (copy: Self)
        ensures
            copy@ == self@,
    {
        FoodItem {
            id: self.id,
            owner: self.owner.clone(),
            name: self.name.clone(),
            quantity: self.quantity,
            created_date: self.created_date,
            expiration_date: self.expiration_date,
        }
    }
}

/// The views of a list of records, in the same order.
pub open spec fn views(items: Seq<FoodItem>) -> Seq<FoodItemView> {
    items.map_values(|item: FoodItem| item@)
}

/// The part of a record that a request chooses.
#[derive(Debug, PartialEq, Eq)]
pub struct FoodItemPayload {
    pub name: String,
    pub quantity: u32,
}

/// What a [`FoodItemPayload`] is to the contracts.
pub struct FoodItemPayloadView {
    pub name: Seq<char>,
    pub quantity: u32,
}

impl View for FoodItemPayload {
    type V = FoodItemPayloadView;

    open spec fn view(&self) -> FoodItemPayloadView {
        FoodItemPayloadView { name: self.name@, quantity: self.quantity }
    }
}

/// Why an operation returned no value.
#[derive(Debug, PartialEq, Eq)]
pub enum Error {
    /// No record has the identifier asked for.
    NotFound { msg: String },
    /// The payload breaks one or both admission rules.
    ValidationFailed { name_too_short: bool, quantity_too_small: bool },
    /// The caller is not the owner of the record.
    AuthorizationFailed { id: u64 },
    /// The identifier counter could not be advanced durably.
    AllocationFailed,
}

/// What an [`Error`] is to the contracts.
pub enum ErrorView {
    NotFound { msg: Seq<char> },
    ValidationFailed { name_too_short: bool, quantity_too_small: bool },
    AuthorizationFailed { id: u64 },
    AllocationFailed,
}

impl View for Error {
    type V = ErrorView;

    open spec fn view(&self) -> ErrorView {
        match *self {
            Error::NotFound { msg } => ErrorView::NotFound { msg: msg@ },
            Error::ValidationFailed { name_too_short, quantity_too_small } => ErrorView::ValidationFailed {
                name_too_short,
                quantity_too_small,
            },
            Error::AuthorizationFailed { id } => ErrorView::AuthorizationFailed { id },
            Error::AllocationFailed => ErrorView::AllocationFailed,
        }
    }
}

/// The view of what an operation hands back: of the value or of the error.
pub open spec fn outcome_view<T: View>(outcome: Result<T, Error>) -> Result<T::V, ErrorView> {
    match outcome {
        Ok(value) => Ok(value@),
        Err(error) => Err(error@),
    }
}

} // verus!
