use pg_search::rowid::{item_pointer_to_u64, u64_from_be_bytes, u64_to_item_pointer, Ctid};

#[test]
fn packs_page_above_slot() {
    assert_eq!(item_pointer_to_u64(0, 0), 0);
    assert_eq!(item_pointer_to_u64(0, 1), 1);
    assert_eq!(item_pointer_to_u64(1, 0), 65536);
    assert_eq!(item_pointer_to_u64(3, 7), 3 * 65536 + 7);
    assert_eq!(item_pointer_to_u64(u32::MAX, u16::MAX), (1u64 << 48) - 1);
}

#[test]
fn unpacks_what_was_packed() {
    let value = item_pointer_to_u64(123_456, 42);
    assert_eq!(u64_to_item_pointer(value), Ctid { block: 123_456, offset: 42 });
    assert_eq!(Ctid { block: 9, offset: 8 }.value(), 9 * 65536 + 8);
}

#[test]
fn unpack_drops_bits_above_the_page_number() {
    let ctid = u64_to_item_pointer(u64::MAX);
    assert_eq!(ctid, Ctid { block: u32::MAX, offset: u16::MAX });
    let ctid = u64_to_item_pointer((1u64 << 48) | (5 << 16) | 6);
    assert_eq!(ctid, Ctid { block: 5, offset: 6 });
}

#[test]
fn packing_what_was_unpacked_gives_the_identifier_back() {
    for value in [0u64, 1, 65535, 65536, 65537, 123_456_789, (1u64 << 48) - 1] {
        let ctid = u64_to_item_pointer(value);
        assert_eq!(item_pointer_to_u64(ctid.block, ctid.offset), value);
        assert_eq!(ctid.value(), value);
    }
}

#[test]
fn eight_bytes_are_read_most_significant_first() {
    assert_eq!(u64_from_be_bytes(&vec![0, 0, 0, 0, 0, 0, 0, 0]), Some(0));
    assert_eq!(u64_from_be_bytes(&vec![0, 0, 0, 0, 0, 0, 1, 2]), Some(258));
    assert_eq!(u64_from_be_bytes(&vec![1, 0, 0, 0, 0, 0, 0, 0]), Some(1u64 << 56));
    assert_eq!(u64_from_be_bytes(&vec![255; 8]), Some(u64::MAX));
    for value in [1u64, 65536, 0x0102_0304_0506_0708, u64::MAX - 1] {
        assert_eq!(u64_from_be_bytes(&value.to_be_bytes().to_vec()), Some(value));
    }
}

#[test]
fn other_lengths_are_no_number() {
    assert_eq!(u64_from_be_bytes(&Vec::new()), None);
    assert_eq!(u64_from_be_bytes(&vec![1; 7]), None);
    assert_eq!(u64_from_be_bytes(&vec![1; 9]), None);
}
