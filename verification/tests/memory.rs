use core::cmp::Ordering;
use nestle::layout::sort_segments;
use nestle::memory::{ConfigError, MemoryBuilder, ReadOnlyViolation};
use nestle::range::AddressRange;
use nestle::segment::{Segment, SegmentType};

#[test]
fn test_mirror() {
    let mut builder = MemoryBuilder::new();
    builder
        .add_mirror(0x0000..=0x7FFF, 0x8000..=0xFFFF)
        .unwrap();
    let mut memory = builder.build();

    memory.write_u8(0x3FFF, 47u8).unwrap();
    assert_eq!(memory.read_u8(0x3FFF), memory.read_u8(0x8000 + 0x3FFF));

    memory.write_u8(0x8FFF, 74u8).unwrap();
    assert_eq!(memory.read_u8(0x0FFF), memory.read_u8(0x8FFF));

    memory.write_u8(0x0000, 42u8).unwrap();
    assert_eq!(memory.read_u8(0x0000), memory.read_u8(0x8000));

    memory.write_u8(0x7FFF, 24u8).unwrap();
    assert_eq!(memory.read_u8(0x7FFF), memory.read_u8(0xFFFF));

    memory.write_u16(0x7FFE, 0xABCDu16).unwrap();
    assert_eq!(memory.read_u16(0x7FFE), memory.read_u16(0xFFFE));
}

#[test]
fn test_readonly() {
    let mut builder = MemoryBuilder::new();
    builder.add_readonly(0x0000..=0x7FFF);
    let mut memory = builder.build();

    assert!(memory.write_u8(0x0000, 42).is_err());
    assert!(memory.write_u8(0x8000, 42).is_ok());
    assert!(memory.write_u8(0x7FFF, 42).is_err());
}

#[test]
fn test_memory_builder_data() {
    let mut builder = MemoryBuilder::new();
    builder.add_data(0x0000..=0x0001, vec![0xAD, 0xDE]).unwrap();
    let memory = builder.build();

    assert_eq!(memory.read_u16(0x0000), 0xDEAD);
}

#[test]
fn mirrored_writes_hold_the_written_values() {
    let mut builder = MemoryBuilder::new();
    builder
        .add_mirror(0x0000..=0x7FFF, 0x8000..=0xFFFF)
        .unwrap();
    let mut memory = builder.build();

    memory.write_u8(0x3FFF, 47).unwrap();
    assert_eq!(memory.read_u8(0x3FFF), 47);
    assert_eq!(memory.read_u8(0xBFFF), 47);

    memory.write_u8(0x8FFF, 74).unwrap();
    assert_eq!(memory.read_u8(0x0FFF), 74);
    assert_eq!(memory.read_u8(0x8FFF), 74);

    memory.write_u16(0x7FFE, 0xABCD).unwrap();
    assert_eq!(memory.read_u16(0x7FFE), 0xABCD);
    assert_eq!(memory.read_u16(0xFFFE), 0xABCD);
    assert_eq!(memory.read_u8(0x7FFE), 0xCD);
    assert_eq!(memory.read_u8(0x7FFF), 0xAB);

    assert_eq!(memory.read_u8(0x0001), 0);
    assert_eq!(memory.read_u8(0x8001), 0);
}

#[test]
fn a_word_across_the_border_of_a_mirror_reaches_both_sides() {
    let mut builder = MemoryBuilder::new();
    builder
        .add_mirror(0x0000..=0x7FFF, 0x8000..=0xFFFF)
        .unwrap();
    let mut memory = builder.build();

    memory.write_u16(0x7FFF, 0x1234).unwrap();
    assert_eq!(memory.read_u8(0x7FFF), 0x34);
    assert_eq!(memory.read_u8(0xFFFF), 0x34);
    assert_eq!(memory.read_u8(0x8000), 0x12);
    assert_eq!(memory.read_u8(0x0000), 0x12);
}

#[test]
fn a_mirror_reaches_no_further_than_its_shorter_range() {
    let mut builder = MemoryBuilder::new();
    builder
        .add_mirror(0x0000..=0x00FF, 0x0200..=0x020F)
        .unwrap();
    let mut memory = builder.build();

    memory.write_u8(0x000F, 1).unwrap();
    assert_eq!(memory.read_u8(0x020F), 1);
    memory.write_u8(0x0010, 2).unwrap();
    assert_eq!(memory.read_u8(0x0210), 0);
    memory.write_u8(0x0205, 3).unwrap();
    assert_eq!(memory.read_u8(0x0005), 3);
}

#[test]
fn words_are_stored_low_byte_first() {
    let mut memory = MemoryBuilder::new().build();
    memory.write_u16(0x1000, 0xBEEF).unwrap();
    assert_eq!(memory.read_u8(0x1000), 0xEF);
    assert_eq!(memory.read_u8(0x1001), 0xBE);
    assert_eq!(memory.read_u16(0x1000), 0xBEEF);
    memory.write_u16(0xFFFE, 0x0102).unwrap();
    assert_eq!(memory.read_u8(0xFFFE), 0x02);
    assert_eq!(memory.read_u8(0xFFFF), 0x01);
}

#[test]
fn a_blank_memory_holds_zeros() {
    let memory = MemoryBuilder::new().build();
    assert_eq!(memory.read_u8(0x0000), 0);
    assert_eq!(memory.read_u8(0xFFFF), 0);
    assert_eq!(memory.read_u16(0x1234), 0);
    assert_eq!(memory.iter_range(0x0000..=0xFFFF), vec![0u8; 0x10000]);
}

#[test]
fn a_rejected_write_changes_nothing() {
    let mut builder = MemoryBuilder::new();
    builder.add_data(0x0000..=0x0003, vec![1, 2, 3, 4]).unwrap();
    builder.add_readonly(0x0002..=0x0003);
    builder.add_mirror(0x0000..=0x0003, 0x0100..=0x0103).unwrap();
    let mut memory = builder.build();

    assert_eq!(memory.write_u8(0x0002, 9), Err(ReadOnlyViolation));
    assert_eq!(memory.write_u16(0x0002, 0x0909), Err(ReadOnlyViolation));
    assert_eq!(memory.write_u16(0x0001, 0x0909), Err(ReadOnlyViolation));
    assert_eq!(memory.write_u16(0x0003, 0x0909), Err(ReadOnlyViolation));
    assert_eq!(memory.iter_range(0x0000..=0x0004), vec![1, 2, 3, 4, 0]);
    assert_eq!(memory.iter_range(0x0100..=0x0104), vec![0, 0, 0, 0, 0]);

    assert_eq!(memory.write_u16(0x0000, 0x0807), Ok(()));
    assert_eq!(memory.iter_range(0x0000..=0x0003), vec![7, 8, 3, 4]);
    assert_eq!(memory.iter_range(0x0100..=0x0103), vec![7, 8, 0, 0]);
}

#[test]
fn a_write_to_one_half_of_a_mirror_reaches_a_protected_half() {
    let mut builder = MemoryBuilder::new();
    builder.add_mirror(0x0000..=0x000F, 0x0100..=0x010F).unwrap();
    builder.add_readonly(0x0100..=0x010F);
    let mut memory = builder.build();

    assert!(memory.write_u8(0x0105, 1).is_err());
    assert_eq!(memory.read_u8(0x0005), 0);
    assert!(memory.write_u8(0x0005, 1).is_ok());
    assert_eq!(memory.read_u8(0x0105), 1);
}

#[test]
fn data_must_fill_its_range() {
    let mut builder = MemoryBuilder::new();
    assert_eq!(
        builder.add_data(0x0000..=0x0001, vec![1]),
        Err(ConfigError::LengthMismatch)
    );
    assert_eq!(
        builder.add_data(0x0000..=0x0001, vec![1, 2, 3]),
        Err(ConfigError::LengthMismatch)
    );
    assert_eq!(
        builder.add_data(0x0000..=0x0001, Vec::new()),
        Err(ConfigError::LengthMismatch)
    );
    assert_eq!(builder.add_data(0x0005..=0x0005, vec![7]), Ok(()));
    assert_eq!(builder.add_data(0x0000..=0xFFFF, vec![0; 0xFFFF]), Err(ConfigError::LengthMismatch));
    let memory = builder.build();
    assert_eq!(memory.read_u8(0x0005), 7);
    assert_eq!(memory.read_u8(0x0000), 0);
}

#[test]
fn data_for_an_empty_range_is_empty() {
    let mut builder = MemoryBuilder::new();
    assert_eq!(builder.add_data(0x0005..=0x0003, Vec::new()), Ok(()));
    assert_eq!(
        builder.add_data(0x0005..=0x0003, vec![1]),
        Err(ConfigError::LengthMismatch)
    );
    let memory = builder.build();
    assert_eq!(memory.iter_range(0x0000..=0x0008), vec![0u8; 9]);
}

#[test]
fn data_may_fill_the_whole_address_space() {
    let mut bytes = vec![0u8; 0x10000];
    bytes[0] = 1;
    bytes[0xFFFF] = 2;
    let mut builder = MemoryBuilder::new();
    builder.add_data(0x0000..=0xFFFF, bytes).unwrap();
    let memory = builder.build();
    assert_eq!(memory.read_u8(0x0000), 1);
    assert_eq!(memory.read_u8(0xFFFF), 2);
}

#[test]
fn later_data_overwrites_earlier_data() {
    let mut builder = MemoryBuilder::new();
    builder.add_data(0x0010..=0x0013, vec![1, 2, 3, 4]).unwrap();
    builder.add_data(0x0012..=0x0015, vec![5, 6, 7, 8]).unwrap();
    let memory = builder.build();
    assert_eq!(
        memory.iter_range(0x0010..=0x0015),
        vec![1, 2, 5, 6, 7, 8]
    );
}

#[test]
fn data_stays_in_its_own_range_when_the_memory_is_built() {
    let mut builder = MemoryBuilder::new();
    builder.add_mirror(0x0000..=0x0000, 0x0001..=0x0001).unwrap();
    builder.add_data(0x0000..=0x0001, vec![1, 2]).unwrap();
    let memory = builder.build();
    assert_eq!(memory.read_u8(0x0000), 1);
    assert_eq!(memory.read_u8(0x0001), 2);

    let mut builder = MemoryBuilder::new();
    builder.add_mirror(0x0000..=0x7FFF, 0x8000..=0xFFFF).unwrap();
    builder.add_data(0x0000..=0x0000, vec![0xAD]).unwrap();
    let mut memory = builder.build();
    assert_eq!(memory.read_u8(0x0000), 0xAD);
    assert_eq!(memory.read_u8(0x8000), 0);
    memory.write_u8(0x0000, 0xAE).unwrap();
    assert_eq!(memory.read_u8(0x8000), 0xAE);

    let mut builder = MemoryBuilder::new();
    builder.add_data(0x0000..=0x0003, vec![1, 2, 3, 4]).unwrap();
    builder.add_mirror(0x0000..=0x0003, 0x0100..=0x0103).unwrap();
    builder.add_data(0x0102..=0x0102, vec![9]).unwrap();
    let memory = builder.build();
    assert_eq!(memory.iter_range(0x0000..=0x0003), vec![1, 2, 3, 4]);
    assert_eq!(memory.iter_range(0x0100..=0x0103), vec![0, 0, 9, 0]);
}

#[test]
fn each_address_holds_the_byte_of_the_last_data_segment_that_reaches_it() {
    let mut builder = MemoryBuilder::new();
    builder.add_data(0x0010..=0x0017, vec![1; 8]).unwrap();
    builder.add_data(0x0014..=0x001B, vec![2; 8]).unwrap();
    builder.add_data(0x0012..=0x0015, vec![3, 4, 5, 6]).unwrap();
    builder.add_data(0x0020..=0x001F, Vec::new()).unwrap();
    let memory = builder.build();
    assert_eq!(
        memory.iter_range(0x000F..=0x001C),
        vec![0, 1, 1, 3, 4, 5, 6, 2, 2, 2, 2, 2, 2, 0]
    );
}

#[test]
fn mirror_ranges_must_not_share_an_address() {
    let mut builder = MemoryBuilder::new();
    assert_eq!(
        builder.add_mirror(0x0000..=0x7FFF, 0x7FFF..=0xFFFF),
        Err(ConfigError::MirrorOverlap)
    );
    assert_eq!(
        builder.add_mirror(0x1000..=0x1FFF, 0x0000..=0x1000),
        Err(ConfigError::MirrorOverlap)
    );
    assert_eq!(
        builder.add_mirror(0x1000..=0x1FFF, 0x0000..=0xFFFF),
        Err(ConfigError::MirrorOverlap)
    );
    assert_eq!(
        builder.add_mirror(0x0000..=0xFFFF, 0x1000..=0x1FFF),
        Err(ConfigError::MirrorOverlap)
    );
    assert_eq!(
        builder.add_mirror(0x0010..=0x0010, 0x0010..=0x0010),
        Err(ConfigError::MirrorOverlap)
    );
    assert_eq!(builder.add_mirror(0x0000..=0x7FFF, 0x8000..=0xFFFF), Ok(()));
    assert_eq!(builder.add_mirror(0x0005..=0x0003, 0x0000..=0xFFFF), Ok(()));
    let mut memory = builder.build();
    memory.write_u8(0x0004, 1).unwrap();
    assert_eq!(memory.read_u8(0x8004), 1);
}

#[test]
fn a_rejected_mirror_is_not_in_the_memory() {
    let mut builder = MemoryBuilder::new();
    assert!(builder.add_mirror(0x0000..=0x0010, 0x0010..=0x0020).is_err());
    let mut memory = builder.build();
    memory.write_u8(0x0000, 5).unwrap();
    assert_eq!(memory.read_u8(0x0010), 0);
}

#[test]
fn iter_range_gives_the_bytes_of_the_range() {
    let mut builder = MemoryBuilder::new();
    builder.add_data(0xFFFC..=0xFFFF, vec![1, 2, 3, 4]).unwrap();
    let memory = builder.build();
    assert_eq!(memory.iter_range(0xFFFD..=0xFFFF), vec![2, 3, 4]);
    assert_eq!(memory.iter_range(0xFFFC..=0xFFFC), vec![1]);
    assert_eq!(memory.iter_range(0xFFFF..=0xFFFC), Vec::<u8>::new());
}

#[test]
fn address_ranges_come_from_inclusive_ranges() {
    assert_eq!(
        AddressRange::from_inclusive(&(3..=5)),
        AddressRange { start: 3, end: 5 }
    );
    assert_eq!(
        AddressRange::from_inclusive(&(0..=0xFFFF)),
        AddressRange::new(0, 0xFFFF)
    );
    assert_eq!(
        AddressRange::from_inclusive(&(7..=7)),
        AddressRange { start: 7, end: 7 }
    );
    assert_eq!(
        AddressRange::from_inclusive(&(5..=3)),
        AddressRange { start: 1, end: 0 }
    );
    let mut spent = 3..=5u16;
    assert_eq!(spent.by_ref().count(), 3);
    assert_eq!(
        AddressRange::from_inclusive(&spent),
        AddressRange { start: 1, end: 0 }
    );
}

#[test]
fn address_ranges_know_their_addresses() {
    let range = AddressRange::new(0x10, 0x1F);
    assert!(range.contains(0x10));
    assert!(range.contains(0x1F));
    assert!(!range.contains(0x0F));
    assert!(!range.contains(0x20));
    assert_eq!(range.len(), 16);
    assert!(!range.is_empty());
    assert_eq!(AddressRange::new(0, 0xFFFF).len(), 0x10000);
    assert_eq!(AddressRange::new(5, 5).len(), 1);
    let empty = AddressRange::new(5, 4);
    assert_eq!(empty.len(), 0);
    assert!(empty.is_empty());
    assert!(!empty.contains(5));
    assert!(!empty.contains(4));
}

#[test]
fn address_ranges_intersect_where_they_share_an_address() {
    let range = AddressRange::new(0x10, 0x1F);
    assert!(range.intersects(&AddressRange::new(0x1F, 0x2F)));
    assert!(range.intersects(&AddressRange::new(0x00, 0x10)));
    assert!(range.intersects(&AddressRange::new(0x00, 0xFF)));
    assert!(range.intersects(&AddressRange::new(0x12, 0x13)));
    assert!(range.intersects(&range));
    assert!(!range.intersects(&AddressRange::new(0x20, 0x2F)));
    assert!(!range.intersects(&AddressRange::new(0x00, 0x0F)));
    assert!(!range.intersects(&AddressRange::new(0x18, 0x12)));
    assert!(!AddressRange::new(0x18, 0x12).intersects(&range));
}

#[test]
fn segments_know_their_kind() {
    let mirror = Segment::mirror(AddressRange::new(0, 9), AddressRange::new(20, 29));
    let readonly = Segment::readonly(AddressRange::new(0, 9));
    let data = Segment::data(AddressRange::new(0, 1), vec![1, 2]);
    assert!(mirror.is_mirror() && !mirror.is_readonly());
    assert!(readonly.is_readonly() && !readonly.is_mirror());
    assert!(!data.is_mirror() && !data.is_readonly());
    assert_eq!(mirror.dest_range(), AddressRange::new(20, 29));
    assert_eq!(mirror.ttype, SegmentType::Mirror(AddressRange::new(20, 29)));
    assert_eq!(mirror.range, AddressRange::new(0, 9));
    assert!(readonly.contains(9));
    assert!(!readonly.contains(10));
    assert_eq!(data.into_bytes(), vec![1, 2]);
}

#[test]
fn a_mirror_maps_each_address_to_the_same_place_in_the_other_range() {
    let mirror = Segment::mirror(AddressRange::new(0x10, 0x1F), AddressRange::new(0x40, 0x47));
    assert_eq!(mirror.image(0x10), Some(0x40));
    assert_eq!(mirror.image(0x17), Some(0x47));
    assert_eq!(mirror.image(0x18), None);
    assert_eq!(mirror.image(0x40), Some(0x10));
    assert_eq!(mirror.image(0x47), Some(0x17));
    assert_eq!(mirror.image(0x48), None);
    assert_eq!(mirror.image(0x0F), None);
    let readonly = Segment::readonly(AddressRange::new(0x10, 0x1F));
    assert_eq!(readonly.image(0x10), None);
    let top = Segment::mirror(AddressRange::new(0x0000, 0x7FFF), AddressRange::new(0x8000, 0xFFFF));
    assert_eq!(top.image(0x7FFF), Some(0xFFFF));
    assert_eq!(top.image(0xFFFF), Some(0x7FFF));
}

#[test]
fn segments_are_ordered_by_start_then_end() {
    let a = Segment::readonly(AddressRange::new(1, 9));
    let b = Segment::readonly(AddressRange::new(2, 3));
    let c = Segment::readonly(AddressRange::new(2, 4));
    let d = Segment::mirror(AddressRange::new(2, 4), AddressRange::new(10, 12));
    assert_eq!(a.cmp(&b), Ordering::Less);
    assert_eq!(b.cmp(&a), Ordering::Greater);
    assert_eq!(b.cmp(&c), Ordering::Less);
    assert_eq!(c.cmp(&b), Ordering::Greater);
    assert_eq!(c.cmp(&d), Ordering::Equal);
    assert_eq!(c.partial_cmp(&d), Some(Ordering::Equal));
    assert_eq!(a.partial_cmp(&c), Some(Ordering::Less));
    assert!(a.precedes(&b));
    assert!(!c.precedes(&d));
    assert!(!d.precedes(&c));
}

#[test]
fn sorting_is_stable() {
    let a = Segment::readonly(AddressRange::new(5, 9));
    let b = Segment::mirror(AddressRange::new(2, 4), AddressRange::new(10, 12));
    let c = Segment::readonly(AddressRange::new(2, 4));
    let d = Segment::readonly(AddressRange::new(2, 3));
    let e = Segment::mirror(AddressRange::new(2, 4), AddressRange::new(20, 22));
    let sorted = sort_segments(vec![a.clone(), b.clone(), c.clone(), d.clone(), e.clone()]);
    assert_eq!(sorted, vec![d, b, c, e, a]);
    assert_eq!(sort_segments(Vec::new()), Vec::<Segment>::new());
}
