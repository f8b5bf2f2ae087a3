//! The byte form of a record.
//!
//! A record is written as one version byte, the four numbers in little-endian
//! order, and the two strings in UTF-8, each behind its length:
//!
//! ```text
//! version  id  quantity  created  expiration  |owner|  owner  |name|  name
//!    1      8     4         8         8          2       ..      2     ..
//! ```
//!
//! The form carries every length it needs, so the bytes alone say where they
//! end. No record has two forms and no two records share one:
//! [`lemma_decoding_inverts_encoding`] and [`lemma_encoding_is_injective`].

use crate::food_item::{FoodItem, FoodItemView};
use crate::stable::MAX_VALUE_BYTES;
use crate::text::string_from_utf8;
use vstd::bytes::*;
use vstd::prelude::*;
use vstd::slice::*;
use vstd::utf8::*;

verus! {

/// The first byte of every encoded record.
pub const FORMAT_VERSION: u8 = 1;

/// Bytes of an encoded record that are not string contents.
pub const FIXED_BYTES: usize = 33;

/// Number of bytes in the encoding of `record`.
pub open spec fn encoded_len(record: FoodItemView) -> nat {
    FIXED_BYTES as nat + encode_utf8(record.owner).len() + encode_utf8(record.name).len()
}

/// Whether a record with this owner and this name has an encoding that fits
/// in one stored value.
pub open spec fn storable(owner: Seq<char>, name: Seq<char>) -> bool {
    FIXED_BYTES + encode_utf8(owner).len() + encode_utf8(name).len() <= MAX_VALUE_BYTES
}

/// Whether the encoding of `record` fits in one stored value.
pub open spec fn fits(record: FoodItemView) -> bool {
    storable(record.owner, record.name)
}

/// The bytes that stand for `record`.
pub open spec fn encoding(record: FoodItemView) -> Seq<u8> {
    let owner = encode_utf8(record.owner);
    let name = encode_utf8(record.name);
    seq![FORMAT_VERSION] + spec_u64_to_le_bytes(record.id) + spec_u32_to_le_bytes(record.quantity)
        + spec_u64_to_le_bytes(record.created_date) + spec_u64_to_le_bytes(record.expiration_date)
        + spec_u16_to_le_bytes(owner.len() as u16) + owner + spec_u16_to_le_bytes(name.len() as u16)
        + name
}

/// The record that `bytes` stand for, if they stand for one that fits.
pub open spec fn decoding(bytes: Seq<u8>) -> Option<FoodItemView> {
    if exists|record: FoodItemView| fits(record) && encoding(record) == bytes {
        Some(choose|record: FoodItemView| fits(record) && encoding(record) == bytes)
    } else {
        None
    }
}

/// Where each field lies in the encoding of a record that fits.
pub proof fn lemma_encoding_layout(record: FoodItemView)
    requires
        fits(record),
    ensures
        ({
            let bytes = encoding(record);
            let owner = encode_utf8(record.owner);
            let name = encode_utf8(record.name);
            let split = 31 + owner.len() as int;
            &&& bytes.len() == encoded_len(record)
            &&& bytes[0] == FORMAT_VERSION
            &&& bytes.subrange(1, 9) == spec_u64_to_le_bytes(record.id)
            &&& bytes.subrange(9, 13) == spec_u32_to_le_bytes(record.quantity)
            &&& bytes.subrange(13, 21) == spec_u64_to_le_bytes(record.created_date)
            &&& bytes.subrange(21, 29) == spec_u64_to_le_bytes(record.expiration_date)
            &&& bytes.subrange(29, 31) == spec_u16_to_le_bytes(owner.len() as u16)
            &&& bytes.subrange(31, split) == owner
            &&& bytes.subrange(split, split + 2) == spec_u16_to_le_bytes(name.len() as u16)
            &&& bytes.subrange(split + 2, bytes.len() as int) == name
        }),
{
    lemma_auto_spec_u16_to_from_le_bytes();
    lemma_auto_spec_u32_to_from_le_bytes();
    lemma_auto_spec_u64_to_from_le_bytes();
    let bytes = encoding(record);
    let owner = encode_utf8(record.owner);
    let name = encode_utf8(record.name);
    let split = 31 + owner.len() as int;
    assert(bytes.subrange(1, 9) =~= spec_u64_to_le_bytes(record.id));
    assert(bytes.subrange(9, 13) =~= spec_u32_to_le_bytes(record.quantity));
    assert(bytes.subrange(13, 21) =~= spec_u64_to_le_bytes(record.created_date));
    assert(bytes.subrange(21, 29) =~= spec_u64_to_le_bytes(record.expiration_date));
    assert(bytes.subrange(29, 31) =~= spec_u16_to_le_bytes(owner.len() as u16));
    assert(bytes.subrange(31, split) =~= owner);
    assert(bytes.subrange(split, split + 2) =~= spec_u16_to_le_bytes(name.len() as u16));
    assert(bytes.subrange(split + 2, bytes.len() as int) =~= name);
}

/// Two records that fit and have the same encoding are the same record.
pub proof fn lemma_encoding_is_injective(first: FoodItemView, second: FoodItemView)
    requires
        fits(first),
        fits(second),
        encoding(first) == encoding(second),
    ensures
        first == second,
{
    lemma_auto_spec_u16_to_from_le_bytes();
    lemma_auto_spec_u32_to_from_le_bytes();
    lemma_auto_spec_u64_to_from_le_bytes();
    lemma_encoding_layout(first);
    lemma_encoding_layout(second);
    let one = encode_utf8(first.owner);
    let other = encode_utf8(second.owner);
    assert(one.len() == other.len()) by {
        assert(spec_u16_from_le_bytes(spec_u16_to_le_bytes(one.len() as u16)) == one.len());
        assert(spec_u16_from_le_bytes(spec_u16_to_le_bytes(other.len() as u16)) == other.len());
    }
    assert(first.id == second.id) by {
        assert(spec_u64_from_le_bytes(spec_u64_to_le_bytes(first.id)) == first.id);
        assert(spec_u64_from_le_bytes(spec_u64_to_le_bytes(second.id)) == second.id);
    }
    assert(first.quantity == second.quantity) by {
        assert(spec_u32_from_le_bytes(spec_u32_to_le_bytes(first.quantity)) == first.quantity);
        assert(spec_u32_from_le_bytes(spec_u32_to_le_bytes(second.quantity)) == second.quantity);
    }
    assert(first.created_date == second.created_date) by {
        assert(spec_u64_from_le_bytes(spec_u64_to_le_bytes(first.created_date)) == first.created_date);
        assert(spec_u64_from_le_bytes(spec_u64_to_le_bytes(second.created_date))
            == second.created_date);
    }
    assert(first.expiration_date == second.expiration_date) by {
        assert(spec_u64_from_le_bytes(spec_u64_to_le_bytes(first.expiration_date))
            == first.expiration_date);
        assert(spec_u64_from_le_bytes(spec_u64_to_le_bytes(second.expiration_date))
            == second.expiration_date);
    }
    assert(first.owner == second.owner) by {
        encode_utf8_decode_utf8(first.owner);
        encode_utf8_decode_utf8(second.owner);
    }
    assert(first.name == second.name) by {
        encode_utf8_decode_utf8(first.name);
        encode_utf8_decode_utf8(second.name);
    }
}

/// Encoding and then decoding a record that fits gives the record back.
pub proof fn lemma_decoding_inverts_encoding(record: FoodItemView)
    requires
        fits(record),
    ensures
        decoding(encoding(record)) == Some(record),
{
    let found = choose|other: FoodItemView| fits(other) && encoding(other) == encoding(record);
    lemma_encoding_is_injective(found, record);
}

/// Decoding and then encoding gives the bytes back.
pub proof fn lemma_encoding_inverts_decoding(bytes: Seq<u8>)
    requires
        decoding(bytes) is Some,
    ensures
        fits(decoding(bytes)->Some_0),
        encoding(decoding(bytes)->Some_0) == bytes,
{
}


/// Appends `part` to `bytes`.
fn append_slice(bytes: &mut Vec<u8>, part: &[u8])
    ensures
        final(bytes)@ == old(bytes)@ + part@,
{
    bytes.extend_from_slice(part);
    assert(bytes@ =~= old(bytes)@ + part@);
}

/// Whether a record with this owner and this name can be stored.
pub fn can_store(owner: &str, name: &str) -> (yes: bool)
    ensures
        yes == storable(owner@, name@),
{
    let room = MAX_VALUE_BYTES - FIXED_BYTES;
    let owner_len = owner.as_bytes().len();
    owner_len <= room && name.as_bytes().len() <= room - owner_len
}

impl FoodItem {
    /// Encodes the record, or rejects it where the encoding would exceed
    /// `MAX_VALUE_BYTES`.
    pub fn to_bytes(&self) -> (bytes: Option<Vec<u8>>)
        ensures
            match bytes {
                Some(encoded) => fits(self@) && encoded@ == encoding(self@),
                None => !fits(self@),
            },
    {
        let owner = self.owner.as_str().as_bytes();
        let name = self.name.as_str().as_bytes();
        let room = MAX_VALUE_BYTES - FIXED_BYTES;
        if owner.len() > room || name.len() > room - owner.len() {
            return None;
        }
        let mut bytes: Vec<u8> = Vec::new();
        bytes.push(FORMAT_VERSION);
        append_slice(&mut bytes, u64_to_le_bytes(self.id).as_slice());
        append_slice(&mut bytes, u32_to_le_bytes(self.quantity).as_slice());
        append_slice(&mut bytes, u64_to_le_bytes(self.created_date).as_slice());
        append_slice(&mut bytes, u64_to_le_bytes(self.expiration_date).as_slice());
        append_slice(&mut bytes, u16_to_le_bytes(owner.len() as u16).as_slice());
        append_slice(&mut bytes, owner);
        append_slice(&mut bytes, u16_to_le_bytes(name.len() as u16).as_slice());
        append_slice(&mut bytes, name);
        assert(bytes@ =~= encoding(self@));
        Some(bytes)
    }

    /// Decodes `bytes`: the one record that fits and whose encoding they are,
    /// or nothing where they are the encoding of no such record.
    pub fn from_bytes(bytes: &[u8]) -> (item: Option<FoodItem>)
        ensures
            match item {
                Some(record) => fits(record@) && encoding(record@) == bytes@,
                None => forall|other: FoodItemView| fits(other) ==> encoding(other) != bytes@,
            },
            item matches Some(record) ==> decoding(bytes@) == Some(record@),
            item is None ==> decoding(bytes@) is None,
    {
        proof {
            lemma_auto_spec_u16_to_from_le_bytes();
            lemma_auto_spec_u32_to_from_le_bytes();
            lemma_auto_spec_u64_to_from_le_bytes();
            assert forall|other: FoodItemView| fits(other) && encoding(other) == bytes@ implies {
                let owner = encode_utf8(other.owner);
                let name = encode_utf8(other.name);
                let split = 31 + owner.len() as int;
                &&& bytes@.len() == encoded_len(other)
                &&& bytes@[0] == FORMAT_VERSION
                &&& bytes@.subrange(29, 31) == spec_u16_to_le_bytes(owner.len() as u16)
                &&& bytes@.subrange(31, split) == owner
                &&& bytes@.subrange(split, split + 2) == spec_u16_to_le_bytes(name.len() as u16)
                &&& bytes@.subrange(split + 2, bytes@.len() as int) == name
                &&& valid_utf8(owner)
                &&& valid_utf8(name)
            } by {
                lemma_encoding_layout(other);
                encode_utf8_valid_utf8(other.owner);
                encode_utf8_valid_utf8(other.name);
            }
        }
        let len = bytes.len();
        if len < FIXED_BYTES || len > MAX_VALUE_BYTES {
            return None;
        }
        if bytes[0] != FORMAT_VERSION {
            return None;
        }
        let id = u64_from_le_bytes(slice_subrange(bytes, 1, 9));
        let quantity = u32_from_le_bytes(slice_subrange(bytes, 9, 13));
        let created_date = u64_from_le_bytes(slice_subrange(bytes, 13, 21));
        let expiration_date = u64_from_le_bytes(slice_subrange(bytes, 21, 29));
        let owner_len = u16_from_le_bytes(slice_subrange(bytes, 29, 31)) as usize;
        if owner_len > len - FIXED_BYTES {
            return None;
        }
        let split = 31 + owner_len;
        let owner = match string_from_utf8(slice_to_vec(slice_subrange(bytes, 31, split))) {
            Ok(owner) => owner,
            Err(_) => {
                return None;
            },
        };
        let name_len = u16_from_le_bytes(slice_subrange(bytes, split, split + 2)) as usize;
        if name_len != len - FIXED_BYTES - owner_len {
            return None;
        }
        let name = match string_from_utf8(slice_to_vec(slice_subrange(bytes, split + 2, len))) {
            Ok(name) => name,
            Err(_) => {
                return None;
            },
        };
        let record = FoodItem { id, owner, name, quantity, created_date, expiration_date };
        proof {
            let whole = bytes@;
            assert(whole =~= seq![whole[0]] + whole.subrange(1, 9) + whole.subrange(9, 13)
                + whole.subrange(13, 21) + whole.subrange(21, 29) + whole.subrange(29, 31)
                + whole.subrange(31, split as int) + whole.subrange(split as int, split + 2)
                + whole.subrange(split + 2, len as int));
            assert(whole =~= encoding(record@));
            lemma_decoding_inverts_encoding(record@);
        }
        Some(record)
    }
}

} // verus!
