//! Compression levels and the bit layout of a handle.
//!
//! A level is an integer in `[-3, 3]`. Its magnitude is the base-two logarithm
//! of the alignment that every address compressed under it is assumed to have.
//! A negative level is strict: an address that the mask cannot represent is
//! refused. A positive level keeps the lowest bit of the handle as a marker
//! for references into the fallback table, and so shifts by one bit less than
//! its magnitude. Level zero keeps every address in the fallback table.

use vstd::prelude::*;

verus! {

/// The largest index that a handle of level zero can hold.
pub const LIST_ONLY_LIMIT: usize = 0xffff_ffff;

/// The largest index that a marked handle of a positive level can hold.
pub const TAGGED_LIMIT: usize = 0x7fff_ffff;

/// Whether `level` is a supported compression level.
pub open spec fn valid_level(level: i32) -> bool {
    -3 <= level <= 3
}

/// The level of magnitude `magnitude`, strict or not.
pub open spec fn signed_level(magnitude: u32, strict: bool) -> i32 {
    if strict {
        (0 - magnitude) as i32
    } else {
        magnitude as i32
    }
}

/// The number of low address bits that a handle of `level` leaves out.
pub open spec fn shift_of(level: i32) -> u32 {
    if level < 1 {
        (-level) as u32
    } else {
        (level - 1) as u32
    }
}

/// The base-two logarithm of the alignment that `level` assumes.
pub open spec fn align_of(level: i32) -> u32 {
    if level < 0 {
        (-level) as u32
    } else {
        level as u32
    }
}

/// Whether the lowest `bits` bits of `addr` are zero.
pub open spec fn clear_below(bits: u32, addr: u64) -> bool {
    (addr >> bits) << bits == addr
}

/// Whether `addr` has the alignment that `level` assumes.
pub open spec fn aligned(level: i32, addr: u64) -> bool {
    clear_below(align_of(level), addr)
}

/// The bits of `addr` that a handle shifted by `shift` cannot hold: its mask.
pub open spec fn high_bits(shift: u32, addr: u64) -> u64 {
    (addr >> ((shift + 32) as u32)) << ((shift + 32) as u32)
}

/// The 32 bits of `addr` that a handle shifted by `shift` holds.
pub open spec fn low_bits(shift: u32, addr: u64) -> u32 {
    (addr >> shift) as u32
}

/// The address that `handle` stands for under `mask` and `shift`.
pub open spec fn rebuild(shift: u32, mask: u64, handle: u32) -> u64 {
    ((handle as u64) << shift) | mask
}

/// Whether `handle` carries the marker of a fallback-table reference.
pub open spec fn is_listed(handle: u32) -> bool {
    handle & 1 == 1
}

/// The marked handle that holds the table index `index`.
pub open spec fn tagged(index: u64) -> u32 {
    ((index << 1) | 1) as u32
}

/// The table index that a marked handle holds.
pub open spec fn untagged(handle: u32) -> u32 {
    handle >> 1
}

/// Whether `level` is a supported compression level.
pub fn is_valid_level(level: i32) -> (ok: bool)
    ensures
        ok == valid_level(level),
{
    -3 <= level && level <= 3
}

/// The level of magnitude `magnitude`, strict or not.
pub fn level_of(magnitude: u32, strict: bool) -> (level: i32)
    requires
        magnitude <= 3,
    ensures
        level == signed_level(magnitude, strict),
        valid_level(level),
{
    if strict {
        0 - (magnitude as i32)
    } else {
        magnitude as i32
    }
}

/// The number of bits by which an address is shifted under `level`.
pub fn shift_bits(level: i32) -> (shift: u32)
    requires
        valid_level(level),
    ensures
        shift == shift_of(level),
        shift <= 3,
{
    if level < 1 {
        (-level) as u32
    } else {
        (level - 1) as u32
    }
}

/// Whether a handle refers to the fallback table by its marker bit.
pub fn listed(ptr: u32) -> (marked: bool)
    ensures
        marked == is_listed(ptr),
{
    (ptr & 1) == 1
}

/// The mask of `ptr` under `shift`.
pub fn mask_bits(shift: u32, ptr: u64) -> (mask: u64)
    requires
        shift <= 3,
    ensures
        mask == high_bits(shift, ptr),
{
    let wide: u32 = shift + 32;
    (ptr >> wide) << wide
}

/// The handle that holds `ptr` under `shift`.
pub fn pack(shift: u32, ptr: u64) -> (handle: u32)
    requires
        shift <= 3,
    ensures
        handle == low_bits(shift, ptr),
{
    #[verifier::truncate]
    ((ptr >> shift) as u32)
}

/// The address that `handle` stands for under `mask` and `shift`.
pub fn unpack(shift: u32, mask: u64, handle: u32) -> (ptr: u64)
    requires
        shift <= 3,
    ensures
        ptr == rebuild(shift, mask, handle),
{
    ((handle as u64) << shift) | mask
}

/// The marked handle for the table index `index`.
pub fn tag(index: usize) -> (handle: u32)
    requires
        index <= TAGGED_LIMIT,
    ensures
        handle == tagged(index as u64),
        is_listed(handle),
        untagged(handle) == index,
{
    let wide: u64 = index as u64;
    proof {
        lemma_tagged(wide);
    }
    #[verifier::truncate]
    (((wide << 1) | 1) as u32)
}

/// The table index that the marked handle `handle` holds.
pub fn untag(handle: u32) -> (index: usize)
    ensures
        index == untagged(handle),
{
    (handle >> 1) as usize
}

/// An address whose low bits are clear is rebuilt from its mask and its handle.
pub proof fn lemma_rebuild(shift: u32, addr: u64)
    by (bit_vector)
    requires
        shift <= 3,
        clear_below(shift, addr),
    ensures
        rebuild(shift, high_bits(shift, addr), low_bits(shift, addr)) == addr,
{
}

/// A marked handle shows its marker and gives its index back.
pub proof fn lemma_tagged(index: u64)
    by (bit_vector)
    requires
        index <= 0x7fff_ffff,
    ensures
        is_listed(tagged(index)),
        untagged(tagged(index)) == index,
{
}

/// An address that is clear below `bits + 1` is clear below `bits`, and the
/// handle that holds it under the shift `bits` carries no marker.
pub proof fn lemma_clear_bit(bits: u32, addr: u64)
    by (bit_vector)
    requires
        bits <= 2,
        clear_below((bits + 1) as u32, addr),
    ensures
        clear_below(bits, addr),
        !is_listed(low_bits(bits, addr)),
{
}

/// An aligned address loses nothing to the shift of its level, and under a
/// positive level its handle carries no marker.
pub proof fn lemma_aligned(level: i32, addr: u64)
    requires
        valid_level(level),
        aligned(level, addr),
    ensures
        clear_below(shift_of(level), addr),
        level > 0 ==> !is_listed(low_bits(shift_of(level), addr)),
{
    if level > 0 {
        lemma_clear_bit(shift_of(level), addr);
    }
}

} // verus!
