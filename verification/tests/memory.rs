use libeldenring::encoding::{decode_le, encode_le};
use libeldenring::memedit::{Bitflag, Cell, FloatBits, PointerChain, Walk};
use libeldenring::memory::{Memory, POINTER_WIDTH};

const BASE: u64 = 0x7ff6_0000_1000;

fn memory_of(len: usize) -> Memory {
    Memory::new(BASE, (0..len).map(|i| (i * 7 + 3) as u8).collect())
}

fn put_pointer(memory: &mut Memory, at: u64, pointer: u64) {
    assert!(memory.store(at, &pointer.to_le_bytes()));
}

#[test]
fn numbers_are_stored_least_significant_byte_first() {
    assert_eq!(encode_le(0x1234_5678, 4), vec![0x78, 0x56, 0x34, 0x12]);
    assert_eq!(encode_le(0x1234_5678, 2), vec![0x78, 0x56]);
    assert_eq!(encode_le(0x1234_5678, 0), Vec::<u8>::new());
    assert_eq!(encode_le(1, 8), vec![1, 0, 0, 0, 0, 0, 0, 0]);
    assert_eq!(encode_le(u64::MAX, 8), vec![0xff; 8]);
    assert_eq!(decode_le(&[0x78, 0x56, 0x34, 0x12]), 0x1234_5678);
    assert_eq!(decode_le(&[]), 0);
    assert_eq!(decode_le(&[0xff; 8]), u64::MAX);
    assert_eq!(decode_le(&[0, 0, 0, 0, 0, 0, 0, 0x80]), 1u64 << 63);
    for value in [0u64, 1, 0xff, 0x100, 0xdead_beef, 0x0123_4567_89ab_cdef, u64::MAX] {
        assert_eq!(encode_le(value, 8), value.to_le_bytes().to_vec());
        assert_eq!(decode_le(&value.to_le_bytes()), value);
    }
}

#[test]
fn cells_have_their_width_and_bytes() {
    assert_eq!(<u8 as Cell>::size(), 1);
    assert_eq!(<u32 as Cell>::size(), 4);
    assert_eq!(<u64 as Cell>::size(), 8);
    assert_eq!(<FloatBits as Cell>::size(), 4);
    assert_eq!(0xabu8.to_bytes(), vec![0xab]);
    assert_eq!(0xdead_beefu32.to_bytes(), vec![0xef, 0xbe, 0xad, 0xde]);
    assert_eq!(0x0102_0304_0506_0708u64.to_bytes(), vec![8, 7, 6, 5, 4, 3, 2, 1]);
    assert_eq!(FloatBits(1.5f32.to_bits()).to_bytes(), 1.5f32.to_le_bytes().to_vec());
    assert_eq!(<u8 as Cell>::from_bytes(&[0xab]), 0xab);
    assert_eq!(<u32 as Cell>::from_bytes(&[0xef, 0xbe, 0xad, 0xde]), 0xdead_beef);
    assert_eq!(<u64 as Cell>::from_bytes(&[8, 7, 6, 5, 4, 3, 2, 1]), 0x0102_0304_0506_0708);
    assert_eq!(
        f32::from_bits(<FloatBits as Cell>::from_bytes(&(-2.25f32).to_le_bytes()).0),
        -2.25
    );
}

#[test]
fn memory_maps_its_bytes_only() {
    let memory = memory_of(16);
    assert!(memory.is_mapped(BASE, 16));
    assert!(memory.is_mapped(BASE + 16, 0));
    assert!(memory.is_mapped(BASE + 15, 1));
    assert!(!memory.is_mapped(BASE + 15, 2));
    assert!(!memory.is_mapped(BASE - 1, 1));
    assert!(!memory.is_mapped(BASE + 17, 0));
    assert!(!memory.is_mapped(0, 0));
    assert!(!memory.is_mapped(u64::MAX, 1));
    assert!(!memory.is_mapped(BASE, usize::MAX));
    assert_eq!(memory.load(BASE + 2, 3), Some(vec![17, 24, 31]));
    assert_eq!(memory.load(BASE + 14, 3), None);
    assert_eq!(memory.load(BASE - 1, 2), None);
    assert_eq!(memory.load(BASE + 16, 0), Some(vec![]));
    let top = Memory::new(u64::MAX - 3, vec![1, 2, 3, 4]);
    assert!(top.is_mapped(u64::MAX, 1));
    assert_eq!(top.load(u64::MAX - 1, 2), Some(vec![3, 4]));
    assert_eq!(top.load(u64::MAX, 2), None);
}

#[test]
fn store_changes_the_bytes_it_covers() {
    let mut memory = memory_of(8);
    let before = memory.bytes.clone();
    assert!(memory.store(BASE + 2, &[0xaa, 0xbb]));
    assert_eq!(memory.bytes[..2], before[..2]);
    assert_eq!(memory.bytes[2..4], [0xaa, 0xbb]);
    assert_eq!(memory.bytes[4..], before[4..]);
    assert_eq!(memory.base, BASE);
    let stored = memory.bytes.clone();
    assert!(!memory.store(BASE + 7, &[1, 2]));
    assert!(!memory.store(BASE - 1, &[1]));
    assert_eq!(memory.bytes, stored);
    assert!(memory.store(BASE + 8, &[]));
    assert_eq!(memory.bytes, stored);
}

#[test]
fn pointers_are_eight_bytes() {
    assert_eq!(POINTER_WIDTH, 8);
    let mut memory = memory_of(16);
    put_pointer(&mut memory, BASE + 4, 0x0123_4567_89ab_cdef);
    assert_eq!(memory.load_pointer(BASE + 4), Some(0x0123_4567_89ab_cdef));
    assert_eq!(memory.load_pointer(BASE + 9), None);
    assert_eq!(memory.load_pointer(BASE - 8), None);
}

#[test]
fn chain_without_offsets_reads_and_writes_at_its_root() {
    let mut memory = memory_of(32);
    let chain: PointerChain<u32> = PointerChain::new(BASE + 8, Vec::new());
    assert_eq!(chain.begin(), Walk::Access { at: BASE + 8 });
    assert_eq!(chain.eval(&memory), Some(BASE + 8));
    let stored = u32::from_le_bytes([59, 66, 73, 80]);
    assert_eq!(chain.read(&memory), Some(stored));
    for value in [0u32, 1, 0xdead_beef, u32::MAX] {
        let before = memory.bytes.clone();
        assert_eq!(chain.write(&mut memory, value), Some(()));
        assert_eq!(chain.read(&memory), Some(value));
        assert_eq!(memory.bytes[8..12], value.to_le_bytes());
        assert_eq!(memory.bytes[..8], before[..8]);
        assert_eq!(memory.bytes[12..], before[12..]);
    }
}

#[test]
fn root_round_trip_for_every_cell() {
    let mut memory = memory_of(32);
    let bytes: PointerChain<u8> = PointerChain::new(BASE + 31, Vec::new());
    for value in 0..=255u8 {
        assert_eq!(bytes.write(&mut memory, value), Some(()));
        assert_eq!(bytes.read(&memory), Some(value));
    }
    let words: PointerChain<u64> = PointerChain::new(BASE + 24, Vec::new());
    for value in [0u64, 0x0102_0304_0506_0708, u64::MAX] {
        assert_eq!(words.write(&mut memory, value), Some(()));
        assert_eq!(words.read(&memory), Some(value));
    }
    let floats: PointerChain<FloatBits> = PointerChain::new(BASE, Vec::new());
    for value in [0.0f32, -1.5, 3.25e7, f32::MAX, f32::MIN_POSITIVE] {
        assert_eq!(floats.write(&mut memory, FloatBits(value.to_bits())), Some(()));
        assert_eq!(floats.read(&memory).map(|bits| f32::from_bits(bits.0)), Some(value));
    }
}

#[test]
fn chain_at_an_unmapped_root_reads_nothing() {
    let mut memory = memory_of(8);
    let before = memory.bytes.clone();
    let chain: PointerChain<u32> = PointerChain::new(BASE + 6, Vec::new());
    assert_eq!(chain.eval(&memory), Some(BASE + 6));
    assert_eq!(chain.read(&memory), None);
    assert_eq!(chain.write(&mut memory, 5), None);
    assert_eq!(memory.bytes, before);
    let chain: PointerChain<u8> = PointerChain::new(0, Vec::new());
    assert_eq!(chain.read(&memory), None);
}

#[test]
fn chain_follows_its_pointers() {
    let mut memory = Memory::new(BASE, vec![0u8; 0x100]);
    put_pointer(&mut memory, BASE + 0x10, BASE + 0x40);
    put_pointer(&mut memory, BASE + 0x48, BASE + 0x80);
    assert!(memory.store(BASE + 0x8c, &0x0001_e240u32.to_le_bytes()));
    let chain: PointerChain<u32> = PointerChain::new(BASE, vec![0x10, 0x8, 0xc]);
    assert_eq!(chain.begin(), Walk::Deref { at: BASE + 0x10, next: 1 });
    assert_eq!(
        chain.resume(1, Some(BASE + 0x40)),
        Walk::Deref { at: BASE + 0x48, next: 2 }
    );
    assert_eq!(chain.resume(2, Some(BASE + 0x80)), Walk::Access { at: BASE + 0x8c });
    assert_eq!(chain.eval(&memory), Some(BASE + 0x8c));
    assert_eq!(chain.read(&memory), Some(123456));
    assert_eq!(chain.write(&mut memory, 7), Some(()));
    assert_eq!(chain.read(&memory), Some(7));
    assert_eq!(memory.load(BASE + 0x8c, 4), Some(vec![7, 0, 0, 0]));
    // One offset is added to the root and nothing is followed.
    let single: PointerChain<u64> = PointerChain::new(BASE, vec![0x10]);
    assert_eq!(single.begin(), Walk::Access { at: BASE + 0x10 });
    assert_eq!(single.read(&memory), Some(BASE + 0x40));
}

#[test]
fn null_pointer_breaks_the_chain() {
    let mut memory = Memory::new(BASE, vec![0u8; 0x100]);
    assert!(memory.store(BASE + 0x8c, &[1, 2, 3, 4]));
    let chain: PointerChain<u32> = PointerChain::new(BASE, vec![0x10, 0x8, 0xc]);
    // The first pointer is null.
    let before = memory.bytes.clone();
    assert_eq!(chain.resume(1, Some(0)), Walk::Broken);
    assert_eq!(chain.resume(1, None), Walk::Broken);
    assert_eq!(chain.eval(&memory), None);
    assert_eq!(chain.read(&memory), None);
    assert_eq!(chain.write(&mut memory, 0xffff_ffff), None);
    assert_eq!(memory.bytes, before);
    // The second pointer is null.
    put_pointer(&mut memory, BASE + 0x10, BASE + 0x40);
    let before = memory.bytes.clone();
    assert_eq!(chain.read(&memory), None);
    assert_eq!(chain.write(&mut memory, 0xffff_ffff), None);
    assert_eq!(memory.bytes, before);
    // Both are set.
    put_pointer(&mut memory, BASE + 0x48, BASE + 0x80);
    assert_eq!(chain.read(&memory), Some(0x0403_0201));
}

#[test]
fn pointer_out_of_the_memory_breaks_the_chain() {
    let mut memory = Memory::new(BASE, vec![0u8; 0x40]);
    put_pointer(&mut memory, BASE, 0x1234);
    let before = memory.bytes.clone();
    let chain: PointerChain<u8> = PointerChain::new(BASE, vec![0, 0, 0]);
    assert_eq!(chain.eval(&memory), None);
    assert_eq!(chain.write(&mut memory, 1), None);
    let last: PointerChain<u8> = PointerChain::new(BASE, vec![0, 8]);
    assert_eq!(last.eval(&memory), Some(0x123c));
    assert_eq!(last.read(&memory), None);
    assert_eq!(last.write(&mut memory, 1), None);
    assert_eq!(memory.bytes, before);
    // Addresses do not wrap round.
    put_pointer(&mut memory, BASE, u64::MAX);
    assert_eq!(chain.resume(1, Some(u64::MAX)), Walk::Deref { at: u64::MAX, next: 2 });
    let wrap: PointerChain<u8> = PointerChain::new(BASE, vec![0, 1]);
    assert_eq!(wrap.resume(1, Some(u64::MAX)), Walk::Broken);
    assert_eq!(wrap.eval(&memory), None);
    let root: PointerChain<u8> = PointerChain::new(u64::MAX, vec![1]);
    assert_eq!(root.begin(), Walk::Broken);
    // A step that the chain does not have.
    assert_eq!(chain.resume(3, Some(BASE)), Walk::Broken);
    assert_eq!(chain.resume(usize::MAX, Some(BASE)), Walk::Broken);
}

#[test]
fn chains_are_equal_by_root_and_offsets() {
    let a: PointerChain<u32> = PointerChain::new(BASE, vec![1, 2]);
    let b: PointerChain<u32> = PointerChain::new(BASE, vec![1, 2]);
    let c: PointerChain<u32> = PointerChain::new(BASE, vec![1, 3]);
    let d: PointerChain<u32> = PointerChain::new(BASE + 1, vec![1, 2]);
    let e: PointerChain<u32> = PointerChain::new(BASE, vec![1]);
    assert!(a == b);
    assert!(a.same_as(&b));
    assert!(a != c);
    assert!(a != d);
    assert!(a != e);
    assert!(!e.same_as(&a));
    let copy = a.clone();
    assert!(copy == a);
    assert_eq!(copy.base(), BASE);
    assert_eq!(copy.offsets(), &vec![1, 2]);
}

#[test]
fn bit_flag_reads_its_bit() {
    let mut memory = Memory::new(BASE, vec![0b1010_0101, 0xff, 0x00]);
    for bit in 0..8u8 {
        let flag = Bitflag::new(PointerChain::new(BASE, Vec::new()), bit);
        assert_eq!(flag.bit(), bit);
        assert_eq!(flag.get(&memory), Some(0b1010_0101u8 >> bit & 1 == 1));
        assert!(flag.state_in(0xff));
        assert!(!flag.state_in(0x00));
        assert_eq!(flag.changed(0x00, true), 1 << bit);
        assert_eq!(flag.changed(0xff, false), !(1 << bit));
    }
    let outside = Bitflag::new(PointerChain::new(BASE + 3, Vec::new()), 0);
    assert_eq!(outside.get(&memory), None);
    assert_eq!(outside.set(&mut memory, true), None);
    assert_eq!(outside.toggle(&mut memory), None);
    assert_eq!(memory.bytes, vec![0b1010_0101, 0xff, 0x00]);
}

#[test]
fn bit_flag_set_then_clear_for_every_byte_and_bit() {
    for bit in 0..8u8 {
        let mask = 1u8 << bit;
        for byte in 0..=255u8 {
            let mut memory = Memory::new(BASE, vec![0x5a, byte, 0xa5]);
            let flag = Bitflag::new(PointerChain::new(BASE + 1, Vec::new()), bit);
            assert_eq!(flag.set(&mut memory, true), Some(()));
            assert_eq!(memory.bytes, vec![0x5a, byte | mask, 0xa5]);
            assert_eq!(flag.get(&memory), Some(true));
            assert_eq!(memory.bytes[1] & !mask, byte & !mask);
            assert_eq!(flag.set(&mut memory, false), Some(()));
            assert_eq!(memory.bytes, vec![0x5a, byte & !mask, 0xa5]);
            assert_eq!(flag.get(&memory), Some(false));
            if byte & mask == 0 {
                assert_eq!(memory.bytes[1], byte);
            }
        }
    }
}

#[test]
fn bit_flag_toggles() {
    let mut memory = Memory::new(BASE, vec![0u8; 0x20]);
    put_pointer(&mut memory, BASE + 8, BASE + 0x10);
    assert!(memory.store(BASE + 0x13, &[0b0100_0000]));
    let flag = Bitflag::new(PointerChain::new(BASE, vec![8, 3]), 6);
    assert_eq!(flag.chain().offsets(), &vec![8, 3]);
    assert_eq!(flag.get(&memory), Some(true));
    assert_eq!(flag.toggle(&mut memory), Some(false));
    assert_eq!(memory.load(BASE + 0x13, 1), Some(vec![0]));
    assert_eq!(flag.toggle(&mut memory), Some(true));
    assert_eq!(memory.load(BASE + 0x13, 1), Some(vec![0b0100_0000]));
    let low = Bitflag::new(PointerChain::new(BASE, vec![8, 3]), 0);
    assert_eq!(low.toggle(&mut memory), Some(true));
    assert_eq!(memory.load(BASE + 0x13, 1), Some(vec![0b0100_0001]));
    let copy = low.clone();
    assert_eq!(copy.bit(), 0);
    assert!(copy.chain() == low.chain());
}
