//! The two persisted structures of `ic_stable_structures` that the store is
//! built on, the memory they live in, and the calls the library makes into
//! them.
//!
//! Nothing in this file is proved. Each item states what the outside crate's
//! source shows of one call; the rest of the library is verified against
//! these statements.
//!
//! The outside crate reads its structures back from memory and aborts where
//! it does not find what it wrote. So no memory reaches it from outside the
//! library: a [`StableMemory`] is made here, handed to the structures here,
//! and given back here, and its fields are private.
//!
//! A write that needs more stable memory than the machine grants aborts, as
//! an allocation in the heap does.

use ic_stable_structures::cell::{InitError, ValueError};
use ic_stable_structures::memory_manager::{MemoryId, MemoryManager, VirtualMemory};
use ic_stable_structures::storable::Blob;
use ic_stable_structures::{Cell, DefaultMemoryImpl, Memory, StableBTreeMap};
use vstd::prelude::*;

verus! {

/// Most bytes that one stored value may have.
pub const MAX_VALUE_BYTES: usize = 1024;

/// `ic_stable_structures::cell::InitError`: why `Cell::init` gave no cell.
#[verifier::external_type_specification]
#[verifier::external_body]
pub struct ExInitError(InitError);

/// `ic_stable_structures::cell::ValueError`: why `Cell::set` stored nothing.
#[verifier::external_type_specification]
#[verifier::external_body]
pub struct ExValueError(ValueError);

/// The stable memory of the process, as `MemoryManager` of
/// `ic_stable_structures` divides it: the region of the counter and the
/// region of the records, each a `VirtualMemory`.
///
/// Off-chain every new value is a memory of its own, empty and in the heap.
/// On-chain every new value is the one stable memory of the canister, with
/// what the canister has written to it: a canister makes one value, once,
/// and leaves its stable memory to this library. What is said here of the
/// outside crate is said of such a memory, which holds nothing or what these
/// calls have written.
#[verifier::external_body]
pub struct StableMemory {
    counter: VirtualMemory<DefaultMemoryImpl>,
    records: VirtualMemory<DefaultMemoryImpl>,
}

/// A `Cell<u64, _>` of `ic_stable_structures` in a region of stable memory:
/// one persisted number.
#[verifier::external_body]
pub struct StableCounter {
    cell: Cell<u64, VirtualMemory<DefaultMemoryImpl>>,
}

/// A `StableBTreeMap<u64, Blob<1024>, _>` of `ic_stable_structures` in a region
/// of stable memory: byte strings of bounded length under numeric keys.
#[verifier::external_body]
pub struct StableRecords {
    map: StableBTreeMap<u64, Blob<1024>, VirtualMemory<DefaultMemoryImpl>>,
}

/// The sizes of the two regions, in pages: of the counter's, then of the
/// records'.
pub uninterp spec fn memory_pages(memory: StableMemory) -> (u64, u64);

/// The number that the cell holds.
pub uninterp spec fn counter_value(counter: StableCounter) -> u64;

/// The entries that the map holds.
pub uninterp spec fn records_contents(records: StableRecords) -> Map<u64, Seq<u8>>;

/// `entries` lists `contents` by ascending key: every entry is in the map,
/// every key of the map has an entry, and keys grow strictly along the list.
pub open spec fn lists_in_key_order(entries: Seq<(u64, Vec<u8>)>, contents: Map<u64, Seq<u8>>) -> bool {
    &&& forall|i: int, j: int| 0 <= i < j < entries.len() ==> entries[i].0 < entries[j].0
    &&& forall|i: int|
        0 <= i < entries.len() ==> contents.contains_key(#[trigger] entries[i].0) && contents[entries[i].0]
            == entries[i].1@
    &&& forall|key: u64| #[trigger]
        contents.contains_key(key) ==> exists|i: int| 0 <= i < entries.len() && entries[i].0 == key
}

/// `MemoryManager::init` on `DefaultMemoryImpl::default()`, and
/// `MemoryManager::get` for each of the two regions. `MemoryId::new` aborts
/// on region 255, which `requires` leaves out. Nothing is claimed of what
/// the memory holds: on-chain it holds what earlier runs have written.
#[verifier::external_body]
pub(crate) fn divide_memory(counter_region: u8, records_region: u8) -> (memory: StableMemory)
    requires
        counter_region != records_region,
        counter_region < 255,
        records_region < 255,
{
    let manager = MemoryManager::init(DefaultMemoryImpl::default());
    let counter = manager.get(MemoryId::new(counter_region));
    let records = manager.get(MemoryId::new(records_region));
    StableMemory { counter, records }
}

/// `Memory::size` of each region.
#[verifier::external_body]
pub(crate) fn memory_sizes(memory: &StableMemory) -> (pages: (u64, u64))
    ensures
        pages == memory_pages(*memory),
{
    (memory.counter.size(), memory.records.size())
}

/// `Cell::init` and `StableBTreeMap::init`: loads the counter and the map
/// that the regions hold, or lays them out where a region holds none.
///
/// A region without pages holds none. There `Cell::init` writes
/// `first_value` and `StableBTreeMap::init` lays out a map without entries;
/// the one page that the cell asks for is granted, since no region has been
/// given any yet. What regions with pages hold is for the memory to say, so
/// of them nothing is claimed, and the counter may come back unreadable.
#[verifier::external_body]
pub(crate) fn open_regions(memory: StableMemory, first_value: u64) -> (opened: Result<
    (StableCounter, StableRecords),
    InitError,
>)
    ensures
        memory_pages(memory) == (0u64, 0u64) ==> match opened {
            Ok((counter, records)) => counter_value(counter) == first_value && records_contents(records)
                == Map::<u64, Seq<u8>>::empty(),
            Err(_) => false,
        },
{
    let cell = Cell::init(memory.counter, first_value)?;
    let map = StableBTreeMap::init(memory.records);
    Ok((StableCounter { cell }, StableRecords { map }))
}

/// `Cell::into_memory` and `StableBTreeMap::into_memory`: gives up the two
/// structures and hands back the regions they lived in, as they have left
/// them.
#[verifier::external_body]
pub(crate) fn release_regions(counter: StableCounter, records: StableRecords) -> (memory: StableMemory)
{
    StableMemory { counter: counter.cell.into_memory(), records: records.map.into_memory() }
}

/// `Cell::get`: the number in the cell.
#[verifier::external_body]
pub(crate) fn counter_get(counter: &StableCounter) -> (value: u64)
    ensures
        value == counter_value(*counter),
{
    *counter.cell.get()
}

/// `Cell::set`: writes `value` through to memory and returns the number that
/// was there. `Cell::set` fails only where it must grow the memory and
/// cannot. For a number it never grows it: the eight bytes fit in the page
/// that the cell's region has had since `Cell::init`, and a region does not
/// shrink.
#[verifier::external_body]
pub(crate) fn counter_set(counter: &mut StableCounter, value: u64) -> (previous: Result<u64, ValueError>)
    ensures
        match previous {
            Ok(was) => was == counter_value(*old(counter)) && counter_value(*final(counter)) == value,
            Err(_) => false,
        },
{
    counter.cell.set(value)
}

/// `StableBTreeMap::get`: the bytes under `key`, if the map has the key.
#[verifier::external_body]
pub(crate) fn records_get(records: &StableRecords, key: u64) -> (found: Option<Vec<u8>>)
    ensures
        match found {
            Some(bytes) => records_contents(*records).contains_key(key) && bytes@ == records_contents(
                *records,
            )[key],
            None => !records_contents(*records).contains_key(key),
        },
{
    records.map.get(&key).map(|blob| blob.as_slice().to_vec())
}

/// `StableBTreeMap::insert`: puts `value` under `key`, over what was there,
/// and returns what was there. The crate aborts on a value of more than
/// `MAX_VALUE_BYTES` bytes, which `requires` leaves out, and when stable
/// memory cannot grow.
#[verifier::external_body]
pub(crate) fn records_insert(records: &mut StableRecords, key: u64, value: &Vec<u8>) -> (previous: Option<
    Vec<u8>,
>)
    requires
        value@.len() <= MAX_VALUE_BYTES,
    ensures
        records_contents(*final(records)) == records_contents(*old(records)).insert(key, value@),
        match previous {
            Some(bytes) => records_contents(*old(records)).contains_key(key) && bytes@ == records_contents(
                *old(records),
            )[key],
            None => !records_contents(*old(records)).contains_key(key),
        },
{
    let blob = Blob::try_from(value.as_slice()).unwrap();
    records.map.insert(key, blob).map(|blob| blob.as_slice().to_vec())
}

/// `StableBTreeMap::remove`: takes `key` out of the map and returns the bytes
/// that were under it; a map without the key stays as it is.
#[verifier::external_body]
pub(crate) fn records_remove(records: &mut StableRecords, key: u64) -> (removed: Option<Vec<u8>>)
    ensures
        records_contents(*final(records)) == records_contents(*old(records)).remove(key),
        match removed {
            Some(bytes) => records_contents(*old(records)).contains_key(key) && bytes@ == records_contents(
                *old(records),
            )[key],
            None => !records_contents(*old(records)).contains_key(key),
        },
{
    records.map.remove(&key).map(|blob| blob.as_slice().to_vec())
}

/// `StableBTreeMap::iter`: every entry of the map, by ascending key.
#[verifier::external_body]
pub(crate) fn records_entries(records: &StableRecords) -> (entries: Vec<(u64, Vec<u8>)>)
    ensures
        lists_in_key_order(entries@, records_contents(*records)),
{
    records.map.iter().map(|(key, blob)| (key, blob.as_slice().to_vec())).collect()
}

} // verus!
