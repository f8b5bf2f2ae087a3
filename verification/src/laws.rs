//! What holds of the store whatever it contains.

use crate::codec::{decoding, encoding, fits, lemma_decoding_inverts_encoding, storable};
use crate::food_item::{ErrorView, FoodItemPayloadView, FoodItemView};
use crate::model::{
    admitted_by, clock_in_range, listing_below, new_record, read_missing_text, status_text,
    valid_payload, Criterion, StoreState,
};
use vstd::prelude::*;

verus! {

/// Where no key lies from `from` up to `to`, the listing below `to` is the
/// listing below `from`.
pub proof fn lemma_listing_skips_gap(records: Map<u64, FoodItemView>, from: nat, to: nat)
    requires
        from <= to <= u64::MAX,
        forall|id: u64| from <= id < to ==> !records.contains_key(id),
    ensures
        listing_below(records, to) == listing_below(records, from),
    decreases to - from,
{
    if from < to {
        lemma_listing_skips_gap(records, from, (to - 1) as nat);
    }
}

/// The listing below a bound holds exactly the records under the identifiers
/// below that bound, each once, and by ascending identifier.
pub proof fn lemma_listing_below(records: Map<u64, FoodItemView>, bound: nat)
    requires
        bound <= u64::MAX,
        forall|id: u64| #[trigger] records.contains_key(id) ==> records[id].id == id,
    ensures
        forall|k: int|
            0 <= k < listing_below(records, bound).len() ==> {
                let record = #[trigger] listing_below(records, bound)[k];
                &&& record.id < bound
                &&& records.contains_key(record.id)
                &&& records[record.id] == record
            },
        forall|id: u64|
            id < bound && #[trigger] records.contains_key(id) ==> listing_below(records, bound).contains(
                records[id],
            ),
        forall|i: int, j: int|
            0 <= i < j < listing_below(records, bound).len() ==> listing_below(records, bound)[i].id
                < listing_below(records, bound)[j].id,
    decreases bound,
{
    if bound > 0 {
        let before = listing_below(records, (bound - 1) as nat);
        let all = listing_below(records, bound);
        let last = (bound - 1) as u64;
        lemma_listing_below(records, (bound - 1) as nat);
        assert forall|id: u64| id < bound && #[trigger] records.contains_key(id) implies all.contains(
            records[id],
        ) by {
            if id == last {
                assert(all[all.len() - 1] == records[id]);
            } else {
                let k = choose|k: int| 0 <= k < before.len() && before[k] == records[id];
                assert(all[k] == records[id]);
            }
        }
    }
}

/// The listing of a store holds every record of the store, each once and
/// under its own identifier, by ascending identifier.
pub proof fn law_listing(store: StoreState)
    requires
        store.wf(),
    ensures
        forall|k: int|
            0 <= k < store.listing().len() ==> store.read((#[trigger] store.listing()[k]).id) == Some(
                store.listing()[k],
            ),
        forall|id: u64| #[trigger]
            store.records.contains_key(id) ==> store.listing().contains(store.records[id]),
        forall|i: int, j: int|
            0 <= i < j < store.listing().len() ==> store.listing()[i].id < store.listing()[j].id,
{
    lemma_listing_below(store.records, store.next_id as nat);
}

/// A selection holds the records of the store that the criterion admits, and
/// no other.
pub proof fn law_selection(store: StoreState, criterion: Criterion)
    requires
        store.wf(),
    ensures
        forall|k: int|
            0 <= k < store.selection(criterion).len() ==> {
                let record = #[trigger] store.selection(criterion)[k];
                criterion.admits(record) && store.read(record.id) == Some(record)
            },
        forall|id: u64|
            #[trigger] store.records.contains_key(id) && criterion.admits(store.records[id])
                ==> store.selection(criterion).contains(store.records[id]),
{
    law_listing(store);
    let all = store.listing();
    let test = admitted_by(criterion);
    assert forall|k: int| 0 <= k < all.filter(test).len() implies {
        let record = #[trigger] all.filter(test)[k];
        criterion.admits(record) && store.read(record.id) == Some(record)
    } by {
        let record = all.filter(test)[k];
        all.lemma_filter_pred(test, k);
        assert(all.filter(test).contains(record));
        all.lemma_filter_contains_rev(test, record);
        let at = choose|at: int| 0 <= at < all.len() && all[at] == record;
        assert(store.read(all[at].id) == Some(all[at]));
    }
    assert forall|id: u64|
        #[trigger] store.records.contains_key(id) && criterion.admits(
            store.records[id],
        ) implies all.filter(test).contains(store.records[id]) by {
        let at = choose|at: int| 0 <= at < all.len() && all[at] == store.records[id];
        all.lemma_filter_contains(test, at);
    }
}

/// Encoding a record and decoding the bytes gives back the record, for
/// every record that encoding does not reject.
pub proof fn law_codec_round_trip(record: FoodItemView)
    requires
        fits(record),
    ensures
        decoding(encoding(record)) == Some(record),
{
    lemma_decoding_inverts_encoding(record);
}

/// A record is created no later than it expires.
pub proof fn law_created_before_expiration(
    id: u64,
    owner: Seq<char>,
    payload: FoodItemPayloadView,
    now: u64,
)
    requires
        clock_in_range(now),
    ensures
        new_record(id, owner, payload, now).created_date <= new_record(
            id,
            owner,
            payload,
            now,
        ).expiration_date,
{
}

/// A creation that succeeds returns a record that a read of its identifier
/// then returns. The identifier is the counter's number: greater than every
/// identifier assigned before, which all lie below that number, and than the
/// identifier of every record in the store, and less than the number that
/// the counter holds afterwards.
pub proof fn law_create_then_read(
    store: StoreState,
    payload: FoodItemPayloadView,
    caller: Seq<char>,
    now: u64,
)
    requires
        store.wf(),
        store.create_result(payload, caller, now) is Ok,
    ensures
        ({
            let created = store.create_result(payload, caller, now)->Ok_0;
            let after = store.after_create(payload, caller, now);
            &&& after.get_result(created.id) == Ok::<_, ErrorView>(created)
            &&& created.id == store.next_id
            &&& forall|id: u64| store.records.contains_key(id) ==> id < created.id
            &&& created.id < after.next_id
        }),
{
}

/// Of two creations that succeed one after the other, the second gets the
/// greater identifier.
pub proof fn law_identifiers_grow(
    store: StoreState,
    first: FoodItemPayloadView,
    second: FoodItemPayloadView,
    caller: Seq<char>,
    other: Seq<char>,
    now: u64,
    later: u64,
)
    requires
        store.create_result(first, caller, now) is Ok,
        store.after_create(first, caller, now).create_result(second, other, later) is Ok,
    ensures
        store.create_result(first, caller, now)->Ok_0.id < store.after_create(
            first,
            caller,
            now,
        ).create_result(second, other, later)->Ok_0.id,
{
}

/// A creation that fails leaves the store as it was.
pub proof fn law_failed_creation_leaves_no_trace(
    store: StoreState,
    payload: FoodItemPayloadView,
    caller: Seq<char>,
    now: u64,
)
    requires
        store.create_result(payload, caller, now) is Err,
    ensures
        store.after_create(payload, caller, now) == store,
{
}

/// An update changes neither the identifier nor the owner of any record,
/// and no operation but a creation moves the counter.
pub proof fn law_update_keeps_identity(
    store: StoreState,
    id: u64,
    payload: FoodItemPayloadView,
    caller: Seq<char>,
    now: u64,
)
    requires
        store.wf(),
    ensures
        ({
            let after = store.after_update(id, payload, caller, now);
            &&& after.next_id == store.next_id
            &&& after.records.dom() == store.records.dom()
            &&& forall|key: u64| #[trigger]
                store.records.contains_key(key) ==> {
                    &&& after.records[key].id == store.records[key].id
                    &&& after.records[key].owner == store.records[key].owner
                }
            &&& store.update_result(id, payload, caller, now) matches Ok(record) ==> {
                &&& record.id == id
                &&& record.owner == store.records[id].owner
                &&& after.read(id) == Some(record)
            }
        }),
{
    let after = store.after_update(id, payload, caller, now);
    assert(after.records.dom() =~= store.records.dom());
}

/// After a deletion that succeeds, a read of the identifier finds nothing,
/// and every other record is as it was.
pub proof fn law_delete_then_read(store: StoreState, id: u64, caller: Seq<char>)
    requires
        store.delete_result(id, caller) is Ok,
    ensures
        ({
            let after = store.after_delete(id, caller);
            &&& after.get_result(id) == Err::<FoodItemView, _>(
                ErrorView::NotFound { msg: read_missing_text(id) },
            )
            &&& forall|key: u64| key != id ==> after.read(key) == store.read(key)
        }),
{
}

/// Only the owner's requests pass: an update or a deletion by anyone else
/// is refused and changes nothing.
pub proof fn law_only_owner_mutates(
    store: StoreState,
    id: u64,
    payload: FoodItemPayloadView,
    caller: Seq<char>,
    now: u64,
)
    requires
        store.records.contains_key(id),
        store.records[id].owner != caller,
    ensures
        store.update_result(id, payload, caller, now) == Err::<FoodItemView, _>(
            ErrorView::AuthorizationFailed { id: store.records[id].id },
        ),
        store.delete_result(id, caller) == Err::<FoodItemView, _>(
            ErrorView::AuthorizationFailed { id: store.records[id].id },
        ),
        store.after_update(id, payload, caller, now) == store,
        store.after_delete(id, caller) == store,
{
}

/// The store as it is first laid out satisfies the invariant, holds no
/// record, and gives the first identifier to the first creation.
pub proof fn law_initial_store(payload: FoodItemPayloadView, caller: Seq<char>, now: u64)
    ensures
        StoreState::initial().wf(),
        StoreState::initial().next_id == 0,
        forall|id: u64| StoreState::initial().read(id) is None,
        StoreState::initial().listing() == Seq::<FoodItemView>::empty(),
        valid_payload(payload) ==> StoreState::initial().create_result(payload, caller, now) == Ok::<
            _,
            ErrorView,
        >(new_record(0, caller, payload, now)),
{
    law_empty_store(StoreState::initial());
}

/// A store without records lists nothing, has a total quantity of zero and
/// an average quantity of exactly zero.
pub proof fn law_empty_store(store: StoreState)
    requires
        forall|id: u64| !store.records.contains_key(id),
    ensures
        store.listing() == Seq::<FoodItemView>::empty(),
        store.total_quantity() == 0,
        store.average_quantity() == (0int, 1int),
{
    lemma_listing_skips_gap(store.records, 0, store.next_id as nat);
}

/// The two classifications have different names.
pub proof fn lemma_status_texts_differ()
    ensures
        status_text(true) != status_text(false),
        status_text(true).len() == 7,
        status_text(false).len() == 11,
{
    reveal_strlit("Expired");
    reveal_strlit("Not Expired");
    assert("Expired"@.len() != "Not Expired"@.len());
}

/// A record has not expired at the moment of its expiration timestamp, and
/// has expired at every later moment.
pub proof fn law_expiration_boundary(store: StoreState, id: u64, now: u64)
    requires
        store.records.contains_key(id),
    ensures
        now <= store.records[id].expiration_date ==> store.classification(id, now) == Ok::<
            _,
            ErrorView,
        >("Not Expired"@),
        now > store.records[id].expiration_date ==> store.classification(id, now) == Ok::<_, ErrorView>(
            "Expired"@,
        ),
        "Expired"@ != "Not Expired"@,
{
    lemma_status_texts_differ();
}

/// An eviction removes exactly the records whose expiration timestamp lies
/// before the clock reading, and touches no other.
pub proof fn law_eviction(store: StoreState, now: u64, id: u64)
    ensures
        store.after_eviction(now).read(id) == (if store.records.contains_key(id) && store.records[id].expiration_date
            >= now {
            store.read(id)
        } else {
            None
        }),
        store.after_eviction(now).next_id == store.next_id,
{
}

/// Every operation keeps the invariant of the store.
pub proof fn law_operations_keep_invariant(
    store: StoreState,
    id: u64,
    payload: FoodItemPayloadView,
    caller: Seq<char>,
    now: u64,
)
    requires
        store.wf(),
        storable(caller, payload.name),
    ensures
        id < store.next_id ==> store.after_admission(Ok(id), payload, caller, now).wf(),
        store.after_create(payload, caller, now).wf(),
        store.after_allocation().wf(),
        store.after_update(id, payload, caller, now).wf(),
        store.after_delete(id, caller).wf(),
        store.after_eviction(now).wf(),
{
}

} // verus!
