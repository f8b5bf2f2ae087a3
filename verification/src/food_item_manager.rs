//! The store itself: the persisted counter and the persisted map, held
//! together, with the invariant that ties them.

use crate::codec::{
    decoding, fits, lemma_decoding_inverts_encoding, lemma_encoding_inverts_decoding,
    lemma_encoding_layout,
};
use crate::food_item::{outcome_view, views, Error, FoodItem, FoodItemView, FIRST_ID};
use crate::laws::lemma_listing_skips_gap;
use crate::model::{listing_below, StoreState};
use crate::stable::{
    counter_get, counter_set, counter_value, divide_memory, lists_in_key_order, memory_pages,
    memory_sizes, open_regions, records_contents, records_entries, records_get, records_insert,
    records_remove, release_regions, StableCounter, StableMemory, StableRecords,
};
use ic_stable_structures::cell::{InitError, ValueError};
use vstd::prelude::*;

verus! {

/// The region of stable memory that holds the identifier counter.
pub const COUNTER_REGION: u8 = 0;

/// The region of stable memory that holds the records.
pub const RECORDS_REGION: u8 = 1;

impl StableMemory {
    /// Whether the memory holds nothing yet: neither region has a page.
    pub open spec fn blank(&self) -> bool {
        memory_pages(*self) == (0u64, 0u64)
    }

    /// The stable memory of the process, divided into the region of the
    /// counter and the region of the records.
    pub fn new() -> (memory: StableMemory) {
        divide_memory(COUNTER_REGION, RECORDS_REGION)
    }

    /// Whether the memory holds nothing yet.
    pub fn is_blank(&self) -> (blank: bool)
        ensures
            blank == self.blank(),
    {
        let pages = memory_sizes(self);
        pages.0 == 0 && pages.1 == 0
    }
}

/// The records that stored bytes stand for.
pub open spec fn decoded(contents: Map<u64, Seq<u8>>) -> Map<u64, FoodItemView> {
    Map::new(|id: u64| contents.contains_key(id), |id: u64| decoding(contents[id])->Some_0)
}

/// Whether a counter and stored bytes make a store: every value decodes to a
/// record that carries the key it lies under, and the counter has passed
/// every key.
pub open spec fn consistent(next_id: u64, contents: Map<u64, Seq<u8>>) -> bool {
    forall|id: u64| #[trigger]
        contents.contains_key(id) ==> {
            &&& id < next_id
            &&& decoding(contents[id]) is Some
            &&& decoding(contents[id])->Some_0.id == id
        }
}

/// The storage service: one counter and one map of records in stable memory.
pub struct FoodStore {
    counter: StableCounter,
    records: StableRecords,
}

impl View for FoodStore {
    type V = StoreState;

    closed spec fn view(&self) -> StoreState {
        StoreState {
            next_id: counter_value(self.counter),
            records: decoded(records_contents(self.records)),
        }
    }
}

impl FoodStore {
    /// The invariant: what is in stable memory makes a store.
    pub closed spec fn wf(&self) -> bool {
        consistent(counter_value(self.counter), records_contents(self.records))
    }

    /// A store that satisfies its invariant has a view that satisfies its own.
    pub proof fn lemma_view_wf(&self)
        requires
            self.wf(),
        ensures
            self@.wf(),
    {
        assert forall|id: u64| #[trigger] self@.records.contains_key(id) implies {
            &&& id < self@.next_id
            &&& self@.records[id].id == id
            &&& fits(self@.records[id])
        } by {
            lemma_encoding_inverts_decoding(records_contents(self.records)[id]);
        }
    }

    /// Makes a store of a counter and a map, if the two are consistent.
    pub fn assemble(counter: StableCounter, records: StableRecords) -> (store: Option<FoodStore>)
        ensures
            match store {
                Some(store) => {
                    &&& store.wf()
                    &&& store@.next_id == counter_value(counter)
                    &&& store@.records == decoded(records_contents(records))
                },
                None => !consistent(counter_value(counter), records_contents(records)),
            },
    {
        let next_id = counter_get(&counter);
        let entries = records_entries(&records);
        let mut i: usize = 0;
        while i < entries.len()
            invariant
                i <= entries.len(),
                next_id == counter_value(counter),
                lists_in_key_order(entries@, records_contents(records)),
                forall|k: int|
                    0 <= k < i ==> {
                        let id = #[trigger] entries@[k].0;
                        &&& id < next_id
                        &&& decoding(entries@[k].1@) is Some
                        &&& decoding(entries@[k].1@)->Some_0.id == id
                    },
            decreases entries.len() - i,
        {
            let id = entries[i].0;
            if id >= next_id {
                return None;
            }
            match FoodItem::from_bytes(entries[i].1.as_slice()) {
                Some(item) => {
                    if item.id != id {
                        return None;
                    }
                },
                None => {
                    return None;
                },
            }
            i += 1;
        }
        Some(FoodStore { counter, records })
    }

    /// Opens the store that `memory` holds, or lays out an empty one where
    /// `memory` is blank. A blank memory always opens, as the initial store.
    /// A memory that holds a store opens unless its counter cannot be read
    /// or counter and records are not consistent.
    pub fn open(memory: StableMemory) -> (store: Option<FoodStore>)
        ensures
            store matches Some(store) ==> store.wf(),
            memory.blank() ==> (store matches Some(store) && store@ == StoreState::initial()),
    {
        let store = FoodStore::from_regions(open_regions(memory, FIRST_ID));
        proof {
            if memory.blank() {
                assert(store matches Some(store) && store@.records =~= StoreState::initial().records);
            }
        }
        store
    }

    /// Gives the store up and hands back the memory that holds it, so that
    /// it can be opened again.
    pub fn close(self) -> (memory: StableMemory) {
        release_regions(self.counter, self.records)
    }

    /// What the answer of stable memory means for an opening: a counter and
    /// a map make a store if the two are consistent; a counter that could not
    /// be read makes none.
    pub fn from_regions(regions: Result<(StableCounter, StableRecords), InitError>) -> (store: Option<
        FoodStore,
    >)
        ensures
            match regions {
                Ok((counter, records)) => match store {
                    Some(store) => {
                        &&& store.wf()
                        &&& store@.next_id == counter_value(counter)
                        &&& store@.records == decoded(records_contents(records))
                    },
                    None => !consistent(counter_value(counter), records_contents(records)),
                },
                Err(_) => store is None,
            },
    {
        match regions {
            Ok((counter, records)) => FoodStore::assemble(counter, records),
            Err(_) => None,
        }
    }

    /// What the counter's answer means for an allocation: the number that was
    /// in the cell is the new identifier; a failed write is a failed
    /// allocation.
    pub fn allocated(advance: Result<u64, ValueError>) -> (id: Result<u64, Error>)
        ensures
            match advance {
                Ok(previous) => id == Ok::<u64, Error>(previous),
                Err(_) => id == Err::<u64, Error>(Error::AllocationFailed),
            },
    {
        match advance {
            Ok(previous) => Ok(previous),
            Err(_) => Err(Error::AllocationFailed),
        }
    }

    /// Allocates the next identifier: advances the persisted counter by one
    /// and returns the number it held. The allocation fails, and the store
    /// stays as it was, once the counter has given its last number.
    pub fn next_id(&mut self) -> (id: Result<u64, Error>)
        requires
            old(self).wf(),
        ensures
            final(self).wf(),
            outcome_view(id) == old(self)@.allocation_result(),
            final(self)@ == old(self)@.after_allocation(),
    {
        let current = counter_get(&self.counter);
        if current == u64::MAX {
            return Err(Error::AllocationFailed);
        }
        let advance = counter_set(&mut self.counter, current + 1);
        FoodStore::allocated(advance)
    }

    /// Takes the record under `id` out of the store and returns it.
    pub fn remove(&mut self, id: u64) -> (removed: Option<FoodItem>)
        requires
            old(self).wf(),
        ensures
            final(self).wf(),
            final(self)@.next_id == old(self)@.next_id,
            final(self)@.records == old(self)@.records.remove(id),
            match removed {
                Some(record) => old(self)@.read(id) == Some(record@),
                None => old(self)@.read(id) is None,
            },
    {
        let removed = records_remove(&mut self.records, id);
        assert(self@.records =~= old(self)@.records.remove(id));
        match removed {
            Some(bytes) => FoodItem::from_bytes(bytes.as_slice()),
            None => None,
        }
    }

    /// Every record of the store, by ascending identifier.
    pub fn records(&self) -> (all: Vec<FoodItem>)
        requires
            self.wf(),
        ensures
            views(all@) == self@.listing(),
    {
        let entries = records_entries(&self.records);
        let mut all: Vec<FoodItem> = Vec::new();
        let ghost mut bound: nat = 0;
        let mut i: usize = 0;
        while i < entries.len()
            invariant
                self.wf(),
                i <= entries.len(),
                lists_in_key_order(entries@, records_contents(self.records)),
                bound == (if i == 0 {
                    0
                } else {
                    entries@[i - 1].0 + 1
                }),
                views(all@) == listing_below(self@.records, bound),
            decreases entries.len() - i,
        {
            let ghost id = entries@[i as int].0;
            proof {
                assert(records_contents(self.records).contains_key(id));
                assert forall|other: u64| bound <= other < id implies !self@.records.contains_key(
                    other,
                ) by {
                    if records_contents(self.records).contains_key(other) {
                        let k = choose|k: int| 0 <= k < entries@.len() && entries@[k].0 == other;
                        if k < i {
                            assert(entries@[k].0 <= entries@[i - 1].0);
                        } else if k > i {
                            assert(entries@[i as int].0 < entries@[k].0);
                        }
                    }
                }
                lemma_listing_skips_gap(self@.records, bound, id as nat);
            }
            match FoodItem::from_bytes(entries[i].1.as_slice()) {
                Some(item) => {
                    all.push(item);
                },
                None => {},
            }
            proof {
                bound = (id + 1) as nat;
                assert(views(all@) =~= listing_below(self@.records, bound));
            }
            i += 1;
        }
        proof {
            assert forall|other: u64| bound <= other < self@.next_id implies !self@.records.contains_key(
                other,
            ) by {
                if records_contents(self.records).contains_key(other) {
                    let k = choose|k: int| 0 <= k < entries@.len() && entries@[k].0 == other;
                    assert(entries@[k].0 <= entries@[i - 1].0);
                }
            }
            assert(bound <= self@.next_id) by {
                if i > 0 {
                    assert(records_contents(self.records).contains_key(entries@[i - 1].0));
                }
            }
            lemma_listing_skips_gap(self@.records, bound, self@.next_id as nat);
        }
        all
    }
}

/// Stores `item` under its identifier, over what was there, and returns what
/// was there. The identifier must be one that the counter has given out, and
/// the record must fit: the store would not survive either breach.
pub fn do_insert_food_item(store: &mut FoodStore, item: &FoodItem) -> (previous: Option<FoodItem>)
    requires
        old(store).wf(),
        item.id < old(store)@.next_id,
        fits(item@),
    ensures
        final(store).wf(),
        final(store)@ == old(store)@.with_record(item@),
        match previous {
            Some(record) => old(store)@.read(item.id) == Some(record@),
            None => old(store)@.read(item.id) is None,
        },
{
    match item.to_bytes() {
        Some(bytes) => {
            proof {
                lemma_decoding_inverts_encoding(item@);
                lemma_encoding_layout(item@);
            }
            let previous = records_insert(&mut store.records, item.id, &bytes);
            assert(store@.records =~= old(store)@.records.insert(item.id, item@));
            match previous {
                Some(bytes) => FoodItem::from_bytes(bytes.as_slice()),
                None => None,
            }
        },
        None => None,
    }
}

/// The record under `id`, if the store has one.
pub fn get_food_item_from_storage(store: &FoodStore, id: u64) -> (found: Option<FoodItem>)
    requires
        store.wf(),
    ensures
        match found {
            Some(record) => store@.read(id) == Some(record@),
            None => store@.read(id) is None,
        },
{
    match records_get(&store.records, id) {
        Some(bytes) => FoodItem::from_bytes(bytes.as_slice()),
        None => None,
    }
}

} // verus!
