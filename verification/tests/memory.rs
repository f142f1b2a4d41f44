use nano_core::memory::Memory;

#[test]
fn new_memory_is_zero_filled() {
    let mem = Memory::new(0x4000, 64);
    assert_eq!(mem.base_address(), 0x4000);
    assert_eq!(mem.len(), 64);
    assert_eq!(mem.read_bytes(0x4000, 64), vec![0u8; 64]);
}

#[test]
fn empty_memory_has_no_bytes() {
    let mem = Memory::new(0x4000, 0);
    assert_eq!(mem.len(), 0);
    assert!(mem.in_bounds(0x4000, 0));
    assert!(!mem.in_bounds(0x4000, 1));
    assert_eq!(mem.read_bytes(0x4000, 0), Vec::<u8>::new());
}

#[test]
fn in_bounds_follows_the_region() {
    let mem = Memory::new(0x1000, 0x100);
    assert!(mem.in_bounds(0x1000, 0x100));
    assert!(mem.in_bounds(0x10f8, 8));
    assert!(mem.in_bounds(0x1100, 0));
    assert!(!mem.in_bounds(0x10f9, 8));
    assert!(!mem.in_bounds(0x0fff, 1));
    assert!(!mem.in_bounds(0x1000, 0x101));
    assert!(!mem.in_bounds(u64::MAX, 1));
}

#[test]
fn words_are_stored_little_endian() {
    let mut mem = Memory::new(0x1000, 32);
    mem.write_u64(0x1008, 0x0102_0304_0506_0708);
    assert_eq!(
        mem.read_bytes(0x1008, 8),
        vec![0x08, 0x07, 0x06, 0x05, 0x04, 0x03, 0x02, 0x01]
    );
    assert_eq!(mem.read_u64(0x1008), 0x0102_0304_0506_0708);
    assert_eq!(mem.read_bytes(0x1000, 8), vec![0u8; 8]);
    assert_eq!(mem.read_bytes(0x1010, 16), vec![0u8; 16]);
}

#[test]
fn wide_words_are_stored_little_endian() {
    let mut mem = Memory::new(0, 32);
    let value: u128 = 0x0f0e_0d0c_0b0a_0908_0706_0504_0302_0100;
    mem.write_u128(3, value);
    let expected: Vec<u8> = (0u8..16).collect();
    assert_eq!(mem.read_bytes(3, 16), expected);
    assert_eq!(mem.read_u128(3), value);
    assert_eq!(mem.read_bytes(0, 3), vec![0u8; 3]);
    assert_eq!(mem.read_bytes(19, 13), vec![0u8; 13]);
}

#[test]
fn write_bytes_leaves_the_rest_alone() {
    let mut mem = Memory::new(0x20, 8);
    mem.write_bytes(0x20, &[1, 2, 3, 4, 5, 6, 7, 8]);
    mem.write_bytes(0x22, &[0xaa, 0xbb]);
    mem.write_bytes(0x28, &[]);
    assert_eq!(mem.read_bytes(0x20, 8), vec![1, 2, 0xaa, 0xbb, 5, 6, 7, 8]);
    assert_eq!(mem.base_address(), 0x20);
    assert_eq!(mem.len(), 8);
}

#[test]
fn unaligned_words_overlap_as_bytes() {
    let mut mem = Memory::new(0x100, 16);
    mem.write_u64(0x100, u64::MAX);
    mem.write_u64(0x104, 0);
    assert_eq!(mem.read_u64(0x100), 0x0000_0000_ffff_ffff);
    assert_eq!(mem.read_u64(0x104), 0);
}

#[test]
fn memory_at_the_top_of_the_address_space() {
    let base = u64::MAX - 16;
    let mut mem = Memory::new(base, 16);
    mem.write_u64(base + 8, 0x1234);
    assert_eq!(mem.read_u64(base + 8), 0x1234);
    assert!(mem.in_bounds(base + 8, 8));
    assert!(!mem.in_bounds(base + 9, 8));
}
