//! Row identifiers: a physical row location (page number and slot) packed into
//! one integer, the key under which a row is indexed.

use vstd::prelude::*;

verus! {

/// The physical location of a row: the number of its page and its slot there.
#[derive(Clone, Copy, Debug, PartialEq, Eq, Structural)]
pub struct Ctid {
    pub block: u32,
    pub offset: u16,
}

/// The integer that stands for the row at `block`, `offset`: the page number
/// in the bits from 16 up, the slot in the 16 bits below.
pub open spec fn packed(block: u32, offset: u16) -> u64 {
    ((block as u64) * 65536 + (offset as u64)) as u64
}

/// The page number that a packed row identifier holds. Bits from 48 up are
/// not part of any row identifier and are dropped.
pub open spec fn block_of(value: u64) -> u32 {
    ((value / 65536) % 4294967296) as u32
}

/// The slot that a packed row identifier holds.
pub open spec fn offset_of(value: u64) -> u16 {
    (value % 65536) as u16
}

/// Packs a page number and a slot into one row identifier.
pub fn item_pointer_to_u64(block: u32, offset: u16) -> (value: u64)
    ensures
        value == packed(block, offset),
        value < 0x1_0000_0000_0000,
{
    let b: u64 = block as u64;
    let o: u64 = offset as u64;
    assert((b << 16) | o == b * 65536 + o) by (bit_vector)
        requires
            b < 0x1_0000_0000,
            o < 0x1_0000,
    ;
    (b << 16) | o
}

/// Unpacks a row identifier into its page number and slot.
pub fn u64_to_item_pointer(value: u64) -> (ctid: Ctid)
    ensures
        ctid.block == block_of(value),
        ctid.offset == offset_of(value),
{
    assert((value >> 16) & 0xffff_ffff == (value / 65536) % 4294967296) by (bit_vector);
    assert(value & 0xffff == value % 65536) by (bit_vector);
    let block: u32 = ((value >> 16) & 0xffff_ffff) as u32;
    let offset: u16 = (value & 0xffff) as u16;
    Ctid { block, offset }
}

/// The eight bytes of `value`, the most significant first.
pub open spec fn be_bytes(value: u64) -> Seq<u8> {
    seq![
        (value / 0x100_0000_0000_0000) as u8,
        ((value / 0x1_0000_0000_0000) % 256) as u8,
        ((value / 0x100_0000_0000) % 256) as u8,
        ((value / 0x1_0000_0000) % 256) as u8,
        ((value / 0x100_0000) % 256) as u8,
        ((value / 0x1_0000) % 256) as u8,
        ((value / 0x100) % 256) as u8,
        (value % 256) as u8,
    ]
}

/// The number that eight bytes stand for, the most significant first.
pub open spec fn be_value(bytes: Seq<u8>) -> u64 {
    (bytes[0] * 0x100_0000_0000_0000 + bytes[1] * 0x1_0000_0000_0000 + bytes[2]
        * 0x100_0000_0000 + bytes[3] * 0x1_0000_0000 + bytes[4] * 0x100_0000 + bytes[5] * 0x1_0000
        + bytes[6] * 0x100 + bytes[7]) as u64
}

/// Reads a number from its eight bytes, the most significant first. Any
/// other count of bytes is no number.
pub fn u64_from_be_bytes(bytes: &Vec<u8>) -> (value: Option<u64>)
    ensures
        value is Some <==> bytes@.len() == 8,
        value matches Some(number) ==> number == be_value(bytes@),
{
    if bytes.len() != 8 {
        return None;
    }
    let b0: u64 = bytes[0] as u64;
    let b1: u64 = bytes[1] as u64;
    let b2: u64 = bytes[2] as u64;
    let b3: u64 = bytes[3] as u64;
    let b4: u64 = bytes[4] as u64;
    let b5: u64 = bytes[5] as u64;
    let b6: u64 = bytes[6] as u64;
    let b7: u64 = bytes[7] as u64;
    Some(
        b0 * 0x100_0000_0000_0000 + b1 * 0x1_0000_0000_0000 + b2 * 0x100_0000_0000 + b3
            * 0x1_0000_0000 + b4 * 0x100_0000 + b5 * 0x1_0000 + b6 * 0x100 + b7,
    )
}

impl Ctid {
    /// The packed row identifier of this location.
    pub open spec fn spec_value(self) -> u64 {
        packed(self.block, self.offset)
    }

    /// The packed row identifier of this location.
    pub fn value(&self) -> (value: u64)
        ensures
            value == self.spec_value(),
    {
        item_pointer_to_u64(self.block, self.offset)
    }
}

/// Unpacking a packed row identifier gives back the page number and the slot
/// that were packed.
pub proof fn lemma_unpack_packed(block: u32, offset: u16)
    ensures
        block_of(packed(block, offset)) == block,
        offset_of(packed(block, offset)) == offset,
{
}

/// Packing what a row identifier below 2^48 unpacks to gives the identifier
/// back.
pub proof fn lemma_pack_unpacked(value: u64)
    requires
        value < 0x1_0000_0000_0000,
    ensures
        packed(block_of(value), offset_of(value)) == value,
{
}

/// Reading the eight bytes of a number gives the number back.
pub proof fn lemma_be_value_of_be_bytes(value: u64)
    ensures
        be_bytes(value).len() == 8,
        be_value(be_bytes(value)) == value,
{
    let d0: u64 = value / 0x100_0000_0000_0000;
    let d1: u64 = (value / 0x1_0000_0000_0000) % 256;
    let d2: u64 = (value / 0x100_0000_0000) % 256;
    let d3: u64 = (value / 0x1_0000_0000) % 256;
    let d4: u64 = (value / 0x100_0000) % 256;
    let d5: u64 = (value / 0x1_0000) % 256;
    let d6: u64 = (value / 0x100) % 256;
    let d7: u64 = value % 256;
    assert(d0 < 256 && d0 * 0x100_0000_0000_0000 + d1 * 0x1_0000_0000_0000 + d2 * 0x100_0000_0000
        + d3 * 0x1_0000_0000 + d4 * 0x100_0000 + d5 * 0x1_0000 + d6 * 0x100 + d7 == value)
        by (bit_vector)
        requires
            d0 == value / 0x100_0000_0000_0000,
            d1 == (value / 0x1_0000_0000_0000) % 256,
            d2 == (value / 0x100_0000_0000) % 256,
            d3 == (value / 0x1_0000_0000) % 256,
            d4 == (value / 0x100_0000) % 256,
            d5 == (value / 0x1_0000) % 256,
            d6 == (value / 0x100) % 256,
            d7 == value % 256,
    ;
    let bytes = be_bytes(value);
    assert(bytes[0] == d0 && bytes[1] == d1 && bytes[2] == d2 && bytes[3] == d3);
    assert(bytes[4] == d4 && bytes[5] == d5 && bytes[6] == d6 && bytes[7] == d7);
}

/// Two locations with the same packed row identifier are the same location.
pub proof fn lemma_packed_injective(a: Ctid, b: Ctid)
    requires
        a.spec_value() == b.spec_value(),
    ensures
        a == b,
{
    lemma_unpack_packed(a.block, a.offset);
    lemma_unpack_packed(b.block, b.offset);
}

} // verus!
