use aes_batch::{apply8, check, lane_matches_be_words, load8, store8, xor128, xor8};
use aes_batch::{BlockBatch, Reg128, RegBatch, BLOCK_SIZE, LANES};

fn numbered_blocks() -> BlockBatch {
    let mut b: BlockBatch = [[0u8; 16]; 8];
    for (i, blk) in b.iter_mut().enumerate() {
        for (j, byte) in blk.iter_mut().enumerate() {
            *byte = (i * 16 + j) as u8;
        }
    }
    b
}

fn reg(bytes: [u8; 16]) -> Reg128 {
    Reg128 { bytes }
}

fn lane_bytes(r: &RegBatch) -> [[u8; 16]; 8] {
    let mut out = [[0u8; 16]; 8];
    for (o, l) in out.iter_mut().zip(r.iter()) {
        *o = l.bytes;
    }
    out
}

#[test]
fn sizes() {
    assert_eq!(BLOCK_SIZE, 16);
    assert_eq!(LANES, 8);
}

#[test]
fn load8_keeps_slot_order() {
    let blocks = numbered_blocks();
    let r = load8(&blocks);
    for i in 0..8 {
        assert_eq!(r[i].bytes, blocks[i]);
    }
    assert_eq!(r[3].bytes[0], 48);
    assert_eq!(r[7].bytes[15], 127);
}

#[test]
fn store8_overwrites_every_slot() {
    let blocks = numbered_blocks();
    let r = load8(&blocks);
    let mut out: BlockBatch = [[0xaa; 16]; 8];
    store8(&mut out, r);
    assert_eq!(out, blocks);
}

#[test]
fn store_of_load_is_identity() {
    let mut blocks = numbered_blocks();
    blocks[2] = [0xff; 16];
    blocks[5][7] = 0;
    let mut out: BlockBatch = [[0u8; 16]; 8];
    store8(&mut out, load8(&blocks));
    assert_eq!(out, blocks);
}

#[test]
fn xor128_exact_value() {
    let a = reg([0x0f; 16]);
    let mut kb = [0u8; 16];
    kb[0] = 0xff;
    kb[15] = 0x01;
    let r = xor128(a, reg(kb));
    let mut expected = [0x0f; 16];
    expected[0] = 0xf0;
    expected[15] = 0x0e;
    assert_eq!(r.bytes, expected);
}

#[test]
fn xor8_applies_key_to_every_lane() {
    let blocks = numbered_blocks();
    let mut r = load8(&blocks);
    let key = reg([0x5a; 16]);
    xor8(&mut r, key);
    for i in 0..8 {
        for j in 0..16 {
            assert_eq!(r[i].bytes[j], blocks[i][j] ^ 0x5a);
        }
    }
}

#[test]
fn xor8_twice_gives_batch_back() {
    let blocks = numbered_blocks();
    let mut r = load8(&blocks);
    let mut kb = [0u8; 16];
    for (j, b) in kb.iter_mut().enumerate() {
        *b = (j as u8).wrapping_mul(37).wrapping_add(11);
    }
    let key = reg(kb);
    xor8(&mut r, key);
    assert_ne!(lane_bytes(&r), blocks);
    xor8(&mut r, key);
    assert_eq!(lane_bytes(&r), blocks);
}

#[test]
fn xor8_swapped_lanes_swap_outputs() {
    let blocks = numbered_blocks();
    let key = reg([0x3c; 16]);
    let mut plain = load8(&blocks);
    xor8(&mut plain, key);
    let mut swapped_blocks = blocks;
    swapped_blocks.swap(1, 6);
    let mut swapped = load8(&swapped_blocks);
    xor8(&mut swapped, key);
    for k in 0..8 {
        let from = if k == 1 { 6 } else if k == 6 { 1 } else { k };
        assert_eq!(swapped[k].bytes, plain[from].bytes);
    }
}

#[test]
fn xor8_uniform_batch_gives_uniform_output() {
    let blocks: BlockBatch = [[0x21; 16]; 8];
    let mut r = load8(&blocks);
    xor8(&mut r, reg([0x12; 16]));
    for k in 0..8 {
        assert_eq!(r[k].bytes, [0x33; 16]);
    }
}

#[test]
fn apply8_maps_each_lane() {
    let mut b: [u32; 8] = [1, 2, 3, 4, 5, 6, 7, 8];
    apply8(&mut b, |x| x * 10 + 1);
    assert_eq!(b, [11, 21, 31, 41, 51, 61, 71, 81]);
}

#[test]
fn apply8_swapped_lanes_swap_outputs() {
    let f = |x: u64| x.rotate_left(13) ^ 0x9e37_79b9;
    let mut a: [u64; 8] = [10, 20, 30, 40, 50, 60, 70, 80];
    let mut c = a;
    c.swap(0, 4);
    apply8(&mut a, f);
    apply8(&mut c, f);
    let mut expected = a;
    expected.swap(0, 4);
    assert_eq!(c, expected);
}

#[test]
fn apply8_uniform_batch_gives_uniform_output() {
    let mut a: [u64; 8] = [77; 8];
    apply8(&mut a, |x| x.wrapping_mul(0x0101_0101).wrapping_add(3));
    for k in 1..8 {
        assert_eq!(a[k], a[0]);
    }
    assert_eq!(a[0], 77u64.wrapping_mul(0x0101_0101).wrapping_add(3));
}

#[test]
fn lane_matches_big_endian_words() {
    let mut bytes = [0u8; 16];
    for (j, b) in bytes.iter_mut().enumerate() {
        *b = j as u8;
    }
    let words = [0x0001_0203_0405_0607u64, 0x0809_0a0b_0c0d_0e0f];
    assert!(lane_matches_be_words(reg(bytes), words));
    assert!(!lane_matches_be_words(reg(bytes), [words[1], words[0]]));
    let mut off = bytes;
    off[15] = 0;
    assert!(!lane_matches_be_words(reg(off), words));
}

#[test]
fn check_compares_pairs_up_to_shorter() {
    let a = [reg([0u8; 16]), reg([0xff; 16]), reg([1u8; 16])];
    let b = [[0u64, 0], [u64::MAX, u64::MAX]];
    assert!(check(&a, &b));
    assert!(!check(&a, &[[0u64, 0], [u64::MAX, 0]]));
    assert!(check(&a[..0], &b));
    assert!(!check(&a[2..], &[[0x0101_0101_0101_0101u64, 0x0101_0101_0101_0100]]));
    assert!(check(&a[2..], &[[0x0101_0101_0101_0101u64, 0x0101_0101_0101_0101]]));
}
