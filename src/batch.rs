//! Blocks in memory, register values, and moving a batch between them.

use crate::lanes::swap_lanes;
use vstd::prelude::*;

verus! {

/// Bytes in one AES block.
pub const BLOCK_SIZE: usize = 16;

/// Blocks handled together by every batch operation.
pub const LANES: usize = 8;

/// One 16-byte block, byte 0 first in wire order.
pub type Block = [u8; 16];

/// Eight blocks; slot `i` in maps to slot `i` out.
pub type BlockBatch = [Block; 8];

/// A 128-bit register value: the bytes of one block as the vector unit holds them.
#[derive(Clone, Copy, Debug)]
pub struct Reg128 {
    pub bytes: [u8; 16],
}

/// Eight register values, one per lane.
pub type RegBatch = [Reg128; 8];

/// The bytes of each block of a batch, in slot order.
pub open spec fn blocks_view(b: BlockBatch) -> Seq<Seq<u8>> {
    Seq::new(8, |i: int| b[i]@)
}

/// The bytes of each register value of a batch, in lane order.
pub open spec fn regs_view(r: RegBatch) -> Seq<Seq<u8>> {
    Seq::new(8, |i: int| r[i].bytes@)
}

/// Reads each block of `blocks` into its own register value, keeping slot order.
pub fn load8(blocks: &BlockBatch) -> (r: RegBatch)
    ensures
        regs_view(r) == blocks_view(*blocks),
        forall|i: int| 0 <= i < 8 ==> (#[trigger] r[i]).bytes == blocks[i],
{
    let mut r: RegBatch = [Reg128 { bytes: [0u8; 16] }; 8];
    let mut i: usize = 0;
    while i < LANES
        invariant
            0 <= i <= 8,
            forall|j: int| 0 <= j < i ==> (#[trigger] r[j]).bytes == blocks[j],
        decreases 8 - i,
    {
        r[i] = Reg128 { bytes: blocks[i] };
        i = i + 1;
    }
    assert(regs_view(r) =~= blocks_view(*blocks));
    r
}

/// Writes each register value back over the block in the same slot.
pub fn store8(blocks: &mut BlockBatch, b: RegBatch)
    ensures
        blocks_view(*final(blocks)) == regs_view(b),
        forall|i: int| 0 <= i < 8 ==> #[trigger] final(blocks)[i] == b[i].bytes,
{
    let mut i: usize = 0;
    while i < LANES
        invariant
            0 <= i <= 8,
            forall|j: int| 0 <= j < i ==> #[trigger] blocks[j] == b[j].bytes,
        decreases 8 - i,
    {
        blocks[i] = b[i].bytes;
        i = i + 1;
    }
    assert(blocks_view(*blocks) =~= regs_view(b));
}

/// Byte-wise XOR of two 16-byte values.
pub open spec fn xor_bytes(a: Seq<u8>, k: Seq<u8>) -> Seq<u8> {
    Seq::new(16, |i: int| a[i] ^ k[i])
}

/// Every lane of a batch XORed with the same key.
pub open spec fn xor_batch(lanes: Seq<Seq<u8>>, k: Seq<u8>) -> Seq<Seq<u8>> {
    lanes.map_values(|l: Seq<u8>| xor_bytes(l, k))
}

/// XORs one register value with a key, byte by byte.
pub fn xor128(a: Reg128, key: Reg128) -> (r: Reg128)
    ensures
        r.bytes@ == xor_bytes(a.bytes@, key.bytes@),
{
    let mut out: [u8; 16] = [0u8; 16];
    let mut i: usize = 0;
    while i < BLOCK_SIZE
        invariant
            0 <= i <= 16,
            forall|j: int| 0 <= j < i ==> #[trigger] out[j] == a.bytes[j] ^ key.bytes[j],
        decreases 16 - i,
    {
        out[i] = a.bytes[i] ^ key.bytes[i];
        i = i + 1;
    }
    let r = Reg128 { bytes: out };
    assert(r.bytes@ =~= xor_bytes(a.bytes@, key.bytes@));
    r
}

/// XORs every one of the eight register values with the same key.
pub fn xor8(b: &mut RegBatch, key: Reg128)
    ensures
        regs_view(*final(b)) == xor_batch(regs_view(*old(b)), key.bytes@),
{
    let mut i: usize = 0;
    while i < LANES
        invariant
            0 <= i <= 8,
            forall|j: int| 0 <= j < i ==> (#[trigger] b[j]).bytes@ == xor_bytes(old(b)[j].bytes@, key.bytes@),
            forall|j: int| i <= j < 8 ==> #[trigger] b[j] == old(b)[j],
        decreases 8 - i,
    {
        b[i] = xor128(b[i], key);
        i = i + 1;
    }
    assert(regs_view(*b) =~= xor_batch(regs_view(*old(b)), key.bytes@));
}

/// Storing what was loaded gives back the blocks, whatever the destination held.
pub proof fn lemma_store_load_round_trip(blocks: BlockBatch, regs: RegBatch, out: BlockBatch)
    requires
        regs_view(regs) == blocks_view(blocks),
        blocks_view(out) == regs_view(regs),
    ensures
        out == blocks,
{
    assert forall|i: int| 0 <= i < 8 implies out[i] == blocks[i] by {
        assert(blocks_view(out)[i] == blocks_view(blocks)[i]);
        assert(out[i] =~= blocks[i]);
    }
    assert(out =~= blocks);
}

proof fn lemma_xor_twice(x: u8, y: u8)
    ensures
        (x ^ y) ^ y == x,
{
    assert((x ^ y) ^ y == x) by (bit_vector);
}

/// XORing a batch with the same key twice gives the batch back.
pub proof fn lemma_xor_involution(b: RegBatch, key: Reg128)
    ensures
        xor_batch(xor_batch(regs_view(b), key.bytes@), key.bytes@) == regs_view(b),
{
    let lanes = regs_view(b);
    let k = key.bytes@;
    assert forall|i: int| 0 <= i < 8 implies #[trigger] xor_batch(xor_batch(lanes, k), k)[i]
        == lanes[i] by {
        assert forall|n: int| 0 <= n < 16 implies #[trigger] xor_batch(xor_batch(lanes, k), k)[i][n]
            == lanes[i][n] by {
            lemma_xor_twice(lanes[i][n], k[n]);
        }
        assert(xor_batch(xor_batch(lanes, k), k)[i] =~= lanes[i]);
    }
    assert(xor_batch(xor_batch(lanes, k), k) =~= lanes);
}

/// Exchanging two input lanes of `xor8` exchanges the same two output lanes and
/// leaves the others as they were.
pub proof fn lemma_xor8_lane_swap(b: RegBatch, key: Reg128, i: int, j: int)
    requires
        0 <= i < 8,
        0 <= j < 8,
    ensures
        xor_batch(swap_lanes(regs_view(b), i, j), key.bytes@) == swap_lanes(
            xor_batch(regs_view(b), key.bytes@),
            i,
            j,
        ),
{
    assert(xor_batch(swap_lanes(regs_view(b), i, j), key.bytes@) =~= swap_lanes(
        xor_batch(regs_view(b), key.bytes@),
        i,
        j,
    ));
}

/// A batch whose eight lanes hold the same block comes out of `xor8` with eight equal
/// lanes.
pub proof fn lemma_xor8_uniform(b: RegBatch, key: Reg128)
    requires
        forall|i: int| 0 <= i < 8 ==> #[trigger] b[i] == b[0],
    ensures
        forall|i: int|
            0 <= i < 8 ==> #[trigger] xor_batch(regs_view(b), key.bytes@)[i] == xor_batch(
                regs_view(b),
                key.bytes@,
            )[0],
{
    assert forall|i: int| 0 <= i < 8 implies #[trigger] xor_batch(regs_view(b), key.bytes@)[i]
        == xor_batch(regs_view(b), key.bytes@)[0] by {
        assert(b[i] == b[0]);
    }
}

} // verus!
