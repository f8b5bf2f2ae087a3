//! The store as mathematics: what it holds, and what each operation makes of it.
//!
//! The executable functions promise, in their `ensures`, that they compute
//! the functions of this file. The laws in [`crate::laws`] are proved of these
//! functions.

use crate::codec::fits;
use crate::food_item::{
    ErrorView, FoodItemPayloadView, FoodItemView, FIRST_ID, MIN_NAME_CHARS, MIN_QUANTITY, SHELF_LIFE,
};
use crate::text::decimal;
use vstd::prelude::*;

verus! {

/// Whether the name of `payload` has fewer characters than a name must have.
pub open spec fn name_too_short(payload: FoodItemPayloadView) -> bool {
    payload.name.len() < MIN_NAME_CHARS
}

/// Whether the quantity of `payload` is less than a quantity must be.
pub open spec fn quantity_too_small(payload: FoodItemPayloadView) -> bool {
    payload.quantity < MIN_QUANTITY
}

/// Whether `payload` may be admitted.
pub open spec fn valid_payload(payload: FoodItemPayloadView) -> bool {
    !name_too_short(payload) && !quantity_too_small(payload)
}

/// What the validation gate says of `payload`: nothing, or which rules it breaks.
pub open spec fn validation(payload: FoodItemPayloadView) -> Result<(), ErrorView> {
    if valid_payload(payload) {
        Ok(())
    } else {
        Err(
            ErrorView::ValidationFailed {
                name_too_short: name_too_short(payload),
                quantity_too_small: quantity_too_small(payload),
            },
        )
    }
}

/// What the ownership gate says when `caller` acts on `record`.
pub open spec fn ownership(record: FoodItemView, caller: Seq<char>) -> Result<(), ErrorView> {
    if record.owner == caller {
        Ok(())
    } else {
        Err(ErrorView::AuthorizationFailed { id: record.id })
    }
}

/// Whether a clock reading is early enough for an expiration timestamp to
/// follow it.
pub open spec fn clock_in_range(now: u64) -> bool {
    now + SHELF_LIFE <= u64::MAX
}

/// The record that a creation at `now` makes of `payload` for `owner`.
pub open spec fn new_record(id: u64, owner: Seq<char>, payload: FoodItemPayloadView, now: u64) -> FoodItemView {
    FoodItemView {
        id,
        owner,
        name: payload.name,
        quantity: payload.quantity,
        created_date: now,
        expiration_date: (now + SHELF_LIFE) as u64,
    }
}

/// The record that an update at `now` makes of `record`: name and quantity
/// from `payload`, both timestamps afresh, identifier and owner as they were.
pub open spec fn revised_record(record: FoodItemView, payload: FoodItemPayloadView, now: u64) -> FoodItemView {
    FoodItemView {
        id: record.id,
        owner: record.owner,
        name: payload.name,
        quantity: payload.quantity,
        created_date: now,
        expiration_date: (now + SHELF_LIFE) as u64,
    }
}

/// Whether `record` has expired at `now`: only once the clock has passed its
/// expiration timestamp.
pub open spec fn expired_at(record: FoodItemView, now: u64) -> bool {
    now > record.expiration_date
}

/// The name of a classification.
pub open spec fn status_text(expired: bool) -> Seq<char> {
    if expired {
        "Expired"@
    } else {
        "Not Expired"@
    }
}

/// The message of a lookup that found nothing.
pub open spec fn read_missing_text(id: u64) -> Seq<char> {
    "a food item with id="@ + decimal(id as nat) + " not found"@
}

/// The message of an update that found nothing.
pub open spec fn update_missing_text(id: u64) -> Seq<char> {
    "couldn't update a food item with id="@ + decimal(id as nat) + ". item not found"@
}

/// The message of a deletion that found nothing.
pub open spec fn delete_missing_text(id: u64) -> Seq<char> {
    "couldn't delete a food item with id="@ + decimal(id as nat) + ". item not found."@
}

/// The records of `records` with an identifier below `bound`, by ascending
/// identifier.
pub open spec fn listing_below(records: Map<u64, FoodItemView>, bound: nat) -> Seq<FoodItemView>
    decreases bound,
{
    if bound == 0 {
        Seq::empty()
    } else {
        let id = (bound - 1) as u64;
        let before = listing_below(records, (bound - 1) as nat);
        if records.contains_key(id) {
            before.push(records[id])
        } else {
            before
        }
    }
}

/// The sum of the quantities of `records`.
pub open spec fn sum_of_quantities(records: Seq<FoodItemView>) -> nat
    decreases records.len(),
{
    if records.len() == 0 {
        0
    } else {
        sum_of_quantities(records.drop_last()) + records.last().quantity as nat
    }
}

/// What a query asks of a record.
pub enum Criterion {
    /// The name is this one, character for character.
    Named(Seq<char>),
    /// The quantity is greater than this.
    Above(u32),
    /// The quantity is less than this.
    Below(u32),
}

impl Criterion {
    /// Whether `record` is what the query asks for.
    pub open spec fn admits(self, record: FoodItemView) -> bool {
        match self {
            Criterion::Named(name) => record.name == name,
            Criterion::Above(threshold) => record.quantity > threshold,
            Criterion::Below(threshold) => record.quantity < threshold,
        }
    }
}

/// The test that a query makes of each record.
pub open spec fn admitted_by(criterion: Criterion) -> spec_fn(FoodItemView) -> bool {
    |record: FoodItemView| criterion.admits(record)
}

/// What the store is to the contracts.
pub struct StoreState {
    /// The identifier that the next creation assigns. Every identifier below
    /// it has been assigned, none at or above it.
    pub next_id: u64,
    /// The records, each under its identifier.
    pub records: Map<u64, FoodItemView>,
}

impl StoreState {
    /// The invariant of the store: each record lies under its own identifier,
    /// that identifier has been assigned, and the record's encoding fits.
    pub open spec fn wf(self) -> bool {
        forall|id: u64| #[trigger]
            self.records.contains_key(id) ==> {
                &&& id < self.next_id
                &&& self.records[id].id == id
                &&& fits(self.records[id])
            }
    }

    /// The store as it is first laid out: no record, and the counter at the
    /// first identifier.
    pub open spec fn initial() -> StoreState {
        StoreState { next_id: FIRST_ID, records: Map::empty() }
    }

    /// What an allocation returns: the counter's number, unless the counter
    /// has given its last.
    pub open spec fn allocation_result(self) -> Result<u64, ErrorView> {
        if self.next_id < u64::MAX {
            Ok(self.next_id)
        } else {
            Err(ErrorView::AllocationFailed)
        }
    }

    /// The store after an allocation.
    pub open spec fn after_allocation(self) -> StoreState {
        match self.allocation_result() {
            Ok(id) => StoreState { next_id: (id + 1) as u64, records: self.records },
            Err(_) => self,
        }
    }

    /// The record under `id`, if there is one.
    pub open spec fn read(self, id: u64) -> Option<FoodItemView> {
        if self.records.contains_key(id) {
            Some(self.records[id])
        } else {
            None
        }
    }

    /// The store with `record` under its identifier, over what was there.
    pub open spec fn with_record(self, record: FoodItemView) -> StoreState {
        StoreState { next_id: self.next_id, records: self.records.insert(record.id, record) }
    }

    /// Every record, by ascending identifier.
    pub open spec fn listing(self) -> Seq<FoodItemView> {
        listing_below(self.records, self.next_id as nat)
    }

    /// The records that `criterion` admits, by ascending identifier.
    pub open spec fn selection(self, criterion: Criterion) -> Seq<FoodItemView> {
        self.listing().filter(admitted_by(criterion))
    }

    /// The sum of the quantities of all records.
    pub open spec fn total_quantity(self) -> nat {
        sum_of_quantities(self.listing())
    }

    /// What a lookup of `id` returns.
    pub open spec fn get_result(self, id: u64) -> Result<FoodItemView, ErrorView> {
        match self.read(id) {
            Some(record) => Ok(record),
            None => Err(ErrorView::NotFound { msg: read_missing_text(id) }),
        }
    }

    /// What a creation returns once the counter has answered: `allocated`
    /// is the identifier it gave, or its failure.
    pub open spec fn admission_result(
        self,
        allocated: Result<u64, ErrorView>,
        payload: FoodItemPayloadView,
        caller: Seq<char>,
        now: u64,
    ) -> Result<FoodItemView, ErrorView> {
        match allocated {
            Ok(id) => Ok(new_record(id, caller, payload, now)),
            Err(error) => Err(error),
        }
    }

    /// The store after that creation.
    pub open spec fn after_admission(
        self,
        allocated: Result<u64, ErrorView>,
        payload: FoodItemPayloadView,
        caller: Seq<char>,
        now: u64,
    ) -> StoreState {
        match allocated {
            Ok(id) => self.with_record(new_record(id, caller, payload, now)),
            Err(_) => self,
        }
    }

    /// What a creation returns: the validation gate decides first, then the
    /// counter, which has an identifier to give unless it has given its last.
    pub open spec fn create_result(
        self,
        payload: FoodItemPayloadView,
        caller: Seq<char>,
        now: u64,
    ) -> Result<FoodItemView, ErrorView> {
        match validation(payload) {
            Err(error) => Err(error),
            Ok(_) => if self.next_id < u64::MAX {
                Ok(new_record(self.next_id, caller, payload, now))
            } else {
                Err(ErrorView::AllocationFailed)
            },
        }
    }

    /// The store after a creation.
    pub open spec fn after_create(
        self,
        payload: FoodItemPayloadView,
        caller: Seq<char>,
        now: u64,
    ) -> StoreState {
        match self.create_result(payload, caller, now) {
            Ok(record) => StoreState {
                next_id: (self.next_id + 1) as u64,
                records: self.records.insert(record.id, record),
            },
            Err(_) => self,
        }
    }

    /// What an update of the record under `id` returns: the lookup decides
    /// first, then the ownership gate, then the validation gate.
    pub open spec fn update_result(
        self,
        id: u64,
        payload: FoodItemPayloadView,
        caller: Seq<char>,
        now: u64,
    ) -> Result<FoodItemView, ErrorView> {
        match self.read(id) {
            None => Err(ErrorView::NotFound { msg: update_missing_text(id) }),
            Some(record) => match ownership(record, caller) {
                Err(error) => Err(error),
                Ok(_) => match validation(payload) {
                    Err(error) => Err(error),
                    Ok(_) => Ok(revised_record(record, payload, now)),
                },
            },
        }
    }

    /// The store after an update.
    pub open spec fn after_update(
        self,
        id: u64,
        payload: FoodItemPayloadView,
        caller: Seq<char>,
        now: u64,
    ) -> StoreState {
        match self.update_result(id, payload, caller, now) {
            Ok(record) => StoreState { next_id: self.next_id, records: self.records.insert(id, record) },
            Err(_) => self,
        }
    }

    /// What a deletion of the record under `id` returns: the lookup decides
    /// first, then the ownership gate.
    pub open spec fn delete_result(self, id: u64, caller: Seq<char>) -> Result<FoodItemView, ErrorView> {
        match self.read(id) {
            None => Err(ErrorView::NotFound { msg: delete_missing_text(id) }),
            Some(record) => match ownership(record, caller) {
                Err(error) => Err(error),
                Ok(_) => Ok(record),
            },
        }
    }

    /// The store after a deletion.
    pub open spec fn after_delete(self, id: u64, caller: Seq<char>) -> StoreState {
        match self.delete_result(id, caller) {
            Ok(_) => StoreState { next_id: self.next_id, records: self.records.remove(id) },
            Err(_) => self,
        }
    }

    /// How the record under `id` is classified at `now`.
    pub open spec fn classification(self, id: u64, now: u64) -> Result<Seq<char>, ErrorView> {
        match self.read(id) {
            None => Err(ErrorView::NotFound { msg: read_missing_text(id) }),
            Some(record) => Ok(status_text(expired_at(record, now))),
        }
    }

    /// The store after every record that has expired at `now` has left it.
    pub open spec fn after_eviction(self, now: u64) -> StoreState {
        StoreState {
            next_id: self.next_id,
            records: Map::new(
                |id: u64| self.records.contains_key(id) && !expired_at(self.records[id], now),
                |id: u64| self.records[id],
            ),
        }
    }

    /// The average quantity as an exact quotient: the sum of all quantities
    /// over the number of records, and zero over one for a store without
    /// records.
    pub open spec fn average_quantity(self) -> (int, int) {
        if self.listing().len() == 0 {
            (0, 1)
        } else {
            (self.total_quantity() as int, self.listing().len() as int)
        }
    }
}

} // verus!
