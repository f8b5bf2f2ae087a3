use food_store::codec::{can_store, FIXED_BYTES, FORMAT_VERSION};
use food_store::food_item::FoodItem;
use food_store::stable::MAX_VALUE_BYTES;
use food_store::text::{decimal_string, str_eq};

fn sample_record() -> FoodItem {
    FoodItem {
        id: 1,
        owner: "a".to_string(),
        name: "Milk".to_string(),
        quantity: 2,
        created_date: 3,
        expiration_date: 4,
    }
}

fn sample_bytes() -> Vec<u8> {
    let mut bytes = vec![1u8];
    bytes.extend_from_slice(&[1, 0, 0, 0, 0, 0, 0, 0]);
    bytes.extend_from_slice(&[2, 0, 0, 0]);
    bytes.extend_from_slice(&[3, 0, 0, 0, 0, 0, 0, 0]);
    bytes.extend_from_slice(&[4, 0, 0, 0, 0, 0, 0, 0]);
    bytes.extend_from_slice(&[1, 0]);
    bytes.extend_from_slice(b"a");
    bytes.extend_from_slice(&[4, 0]);
    bytes.extend_from_slice(b"Milk");
    bytes
}

#[test]
fn encoding_has_the_documented_layout() {
    assert_eq!(FORMAT_VERSION, 1);
    assert_eq!(FIXED_BYTES, 33);
    assert_eq!(sample_record().to_bytes(), Some(sample_bytes()));
}

#[test]
fn encoding_is_little_endian() {
    let record = FoodItem {
        id: 0x0102030405060708,
        owner: String::new(),
        name: String::new(),
        quantity: 0x0a0b0c0d,
        created_date: u64::MAX,
        expiration_date: 0,
    };
    let bytes = record.to_bytes().unwrap();
    assert_eq!(bytes.len(), 33);
    assert_eq!(&bytes[1..9], &[8, 7, 6, 5, 4, 3, 2, 1]);
    assert_eq!(&bytes[9..13], &[0x0d, 0x0c, 0x0b, 0x0a]);
    assert_eq!(&bytes[13..21], &[255; 8]);
    assert_eq!(&bytes[21..29], &[0; 8]);
    assert_eq!(&bytes[29..33], &[0, 0, 0, 0]);
}

#[test]
fn decoding_reads_the_documented_layout() {
    assert_eq!(FoodItem::from_bytes(&sample_bytes()), Some(sample_record()));
}

#[test]
fn encode_then_decode_gives_the_record_back() {
    let records = vec![
        sample_record(),
        FoodItem {
            id: u64::MAX,
            owner: "w7x7r-cok77-xa".to_string(),
            name: "Crème fraîche 日本".to_string(),
            quantity: u32::MAX,
            created_date: 1_700_000_000_000_000_000,
            expiration_date: 1_700_086_400_000_000_000,
        },
        FoodItem {
            id: 0,
            owner: String::new(),
            name: String::new(),
            quantity: 0,
            created_date: 0,
            expiration_date: 0,
        },
    ];
    for record in records {
        let bytes = record.to_bytes().unwrap();
        assert!(bytes.len() <= MAX_VALUE_BYTES);
        assert_eq!(FoodItem::from_bytes(&bytes), Some(record));
    }
}

#[test]
fn decode_then_encode_gives_the_bytes_back() {
    let bytes = sample_bytes();
    let record = FoodItem::from_bytes(&bytes).unwrap();
    assert_eq!(record.to_bytes(), Some(bytes));
}

#[test]
fn encoding_accepts_a_record_of_exactly_the_maximum_size() {
    let record = FoodItem {
        id: 7,
        owner: "o".repeat(500),
        name: "n".repeat(MAX_VALUE_BYTES - FIXED_BYTES - 500),
        quantity: 1,
        created_date: 1,
        expiration_date: 2,
    };
    assert!(can_store(&record.owner, &record.name));
    let bytes = record.to_bytes().unwrap();
    assert_eq!(bytes.len(), 1024);
    assert_eq!(FoodItem::from_bytes(&bytes), Some(record));
}

#[test]
fn encoding_rejects_a_record_one_byte_over_the_maximum_size() {
    let record = FoodItem {
        id: 7,
        owner: "o".repeat(500),
        name: "n".repeat(MAX_VALUE_BYTES - FIXED_BYTES - 499),
        quantity: 1,
        created_date: 1,
        expiration_date: 2,
    };
    assert!(!can_store(&record.owner, &record.name));
    assert_eq!(record.to_bytes(), None);
}

#[test]
fn size_is_counted_in_bytes_not_characters() {
    let name = "é".repeat(496);
    assert_eq!(name.chars().count(), 496);
    assert!(!can_store("", &name));
    assert!(can_store("", &"é".repeat(495)));
    assert!(!can_store(&"x".repeat(2000), ""));
}

#[test]
fn decoding_rejects_bytes_that_are_too_short() {
    assert_eq!(FoodItem::from_bytes(&[]), None);
    let bytes = sample_bytes();
    assert_eq!(FoodItem::from_bytes(&bytes[..32]), None);
    assert_eq!(FoodItem::from_bytes(&bytes[..bytes.len() - 1]), None);
}

#[test]
fn decoding_rejects_trailing_bytes() {
    let mut bytes = sample_bytes();
    bytes.push(0);
    assert_eq!(FoodItem::from_bytes(&bytes), None);
}

#[test]
fn decoding_rejects_another_version() {
    let mut bytes = sample_bytes();
    bytes[0] = 2;
    assert_eq!(FoodItem::from_bytes(&bytes), None);
    bytes[0] = 0;
    assert_eq!(FoodItem::from_bytes(&bytes), None);
}

#[test]
fn decoding_rejects_an_owner_length_beyond_the_end() {
    let mut bytes = sample_bytes();
    bytes[29] = 200;
    assert_eq!(FoodItem::from_bytes(&bytes), None);
    bytes[29] = 5;
    assert_eq!(FoodItem::from_bytes(&bytes), None);
}

#[test]
fn decoding_rejects_a_name_length_that_disagrees_with_the_end() {
    let mut bytes = sample_bytes();
    bytes[32] = 3;
    assert_eq!(FoodItem::from_bytes(&bytes), None);
    bytes[32] = 5;
    assert_eq!(FoodItem::from_bytes(&bytes), None);
}

#[test]
fn decoding_rejects_strings_that_are_not_utf8() {
    let mut bytes = sample_bytes();
    bytes[31] = 0xff;
    assert_eq!(FoodItem::from_bytes(&bytes), None);
    let mut bytes = sample_bytes();
    let last = bytes.len() - 1;
    bytes[last] = 0xc3;
    assert_eq!(FoodItem::from_bytes(&bytes), None);
}

#[test]
fn decoding_rejects_more_than_the_maximum_size() {
    let record = FoodItem {
        id: 7,
        owner: String::new(),
        name: "n".repeat(MAX_VALUE_BYTES - FIXED_BYTES),
        quantity: 1,
        created_date: 1,
        expiration_date: 2,
    };
    let mut bytes = record.to_bytes().unwrap();
    assert_eq!(bytes.len(), 1024);
    bytes.push(b'n');
    bytes[31] = 0xe0;
    bytes[32] = 0x03;
    assert_eq!(FoodItem::from_bytes(&bytes), None);
}

#[test]
fn clone_copies_every_field() {
    let record = sample_record();
    assert_eq!(record.clone(), record);
}

#[test]
fn numbers_are_written_in_decimal() {
    assert_eq!(decimal_string(0), "0");
    assert_eq!(decimal_string(7), "7");
    assert_eq!(decimal_string(10), "10");
    assert_eq!(decimal_string(1234567890), "1234567890");
    assert_eq!(decimal_string(u64::MAX), "18446744073709551615");
}

#[test]
fn strings_are_compared_character_for_character() {
    assert!(str_eq("", ""));
    assert!(str_eq("Milk", "Milk"));
    assert!(!str_eq("Milk", "milk"));
    assert!(!str_eq("Milk", "Milk "));
    assert!(!str_eq("Milk", "Mill"));
    assert!(str_eq("日本語", "日本語"));
    assert!(!str_eq("日本語", "日本誤"));
}
