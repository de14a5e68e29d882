//! What holds of the codec, the fallback table and the counted handles,
//! whatever the calls that led to their state.

use vstd::prelude::*;
use crate::codec::{table_index, uses_table, CodecView};
use crate::counted::{access_for, last_owner, owners_after_detach, Access};
use crate::counter::MAX_COUNT;
use crate::level::{
    aligned, high_bits, lemma_aligned, lemma_rebuild, lemma_tagged, low_bits, shift_of,
    valid_level,
};
use crate::table::{lemma_first_free, lemma_list, TableView};

verus! {

/// An address with the alignment of its level, once compressed, decompresses
/// to itself.
pub proof fn theorem_round_trip(codec: CodecView, level: i32, new_alloc: bool, addr: u64)
    requires
        codec.wf(),
        codec.compressible(level, new_alloc, addr),
        aligned(level, addr),
    ensures
        ({
            let (after, handle) = codec.compress(level, new_alloc, addr);
            &&& after.wf()
            &&& after.resolvable(level, new_alloc, handle)
            &&& after.decompress(level, new_alloc, handle) == addr
        }),
{
    lemma_list(codec.table, addr);
    if codec.fits(level, new_alloc, addr) {
        lemma_aligned(level, addr);
        lemma_rebuild(shift_of(level), addr);
    } else if level != 0 {
        lemma_tagged(codec.table.next_index() as u64);
    }
}

/// The fallback table takes an address of any alignment: an address that the
/// mask cannot represent gets the slot of the next index of the table, which
/// was free or not there, and, once compressed, decompresses to itself.
pub proof fn theorem_fallback_round_trip(
    codec: CodecView,
    level: i32,
    new_alloc: bool,
    addr: u64,
)
    requires
        codec.wf(),
        codec.compressible(level, new_alloc, addr),
        !codec.fits(level, new_alloc, addr),
    ensures
        ({
            let (after, handle) = codec.compress(level, new_alloc, addr);
            &&& after.wf()
            &&& level >= 0
            &&& uses_table(level, handle)
            &&& table_index(level, handle) == codec.table.next_index()
            &&& codec.listed_in(after, level, handle, addr)
            &&& after.masks == codec.masks
            &&& after.resolvable(level, new_alloc, handle)
            &&& after.decompress(level, new_alloc, handle) == addr
        }),
{
    lemma_list(codec.table, addr);
    if level != 0 {
        lemma_tagged(codec.table.next_index() as u64);
    }
}

/// What every compression ensures: no mask that is set changes, no handle
/// whose slot is taken changes its address, an address that the mask cannot
/// represent gets a table slot that was free or not there, and an aligned
/// address decompresses to itself.
pub proof fn theorem_compress(codec: CodecView, level: i32, new_alloc: bool, addr: u64)
    requires
        codec.wf(),
        codec.compressible(level, new_alloc, addr),
    ensures
        ({
            let (after, handle) = codec.compress(level, new_alloc, addr);
            &&& after.wf()
            &&& codec.masks_kept(after)
            &&& codec.handles_kept(after)
            &&& !codec.fits(level, new_alloc, addr) ==> codec.listed_in(after, level, handle, addr)
            &&& aligned(level, addr) ==> after.resolvable(level, new_alloc, handle)
                && after.decompress(level, new_alloc, handle) == addr
        }),
{
    lemma_list(codec.table, addr);
    if codec.fits(level, new_alloc, addr) {
        if aligned(level, addr) {
            theorem_round_trip(codec, level, new_alloc, addr);
        }
    } else {
        theorem_fallback_round_trip(codec, level, new_alloc, addr);
    }
    let after = codec.compress(level, new_alloc, addr).0;
    assert forall|held_level: i32, held_new: bool|
        valid_level(held_level) && #[trigger] codec.mask(held_level, held_new) is Some
        implies after.mask(held_level, held_new) == codec.mask(held_level, held_new) by {
        theorem_masks_are_kept(codec, level, new_alloc, addr, held_level, held_new);
    }
    assert forall|held_level: i32, held_new: bool, held: u32|
        #[trigger] codec.resolvable(held_level, held_new, held) && (uses_table(held_level, held)
            ==> codec.decompress(held_level, held_new, held) != 0) implies after.resolvable(
        held_level,
        held_new,
        held,
    ) && after.decompress(held_level, held_new, held) == codec.decompress(
        held_level,
        held_new,
        held,
    ) by {
        theorem_handles_are_kept(codec, level, new_alloc, addr, held_level, held_new, held);
    }
}

/// Once the mask of a level and an origin is set, a further compression
/// under them leaves it as it is. An address with the same high bits is
/// shifted and cut, leaves the table alone, and decompresses to itself if it
/// is aligned. An address with other high bits goes to the table and
/// decompresses to itself.
pub proof fn theorem_mask_stability(codec: CodecView, level: i32, new_alloc: bool, addr: u64)
    requires
        codec.wf(),
        codec.mask(level, new_alloc) is Some,
        codec.compressible(level, new_alloc, addr),
    ensures
        ({
            let (after, handle) = codec.compress(level, new_alloc, addr);
            &&& after.mask(level, new_alloc) == codec.mask(level, new_alloc)
            &&& if level != 0 && codec.mask(level, new_alloc) == Some(
                high_bits(shift_of(level), addr),
            ) {
                &&& handle == low_bits(shift_of(level), addr)
                &&& after.table == codec.table
                &&& aligned(level, addr) ==> after.resolvable(level, new_alloc, handle)
                    && after.decompress(level, new_alloc, handle) == addr
            } else {
                &&& level >= 0
                &&& uses_table(level, handle)
                &&& after.resolvable(level, new_alloc, handle)
                &&& after.decompress(level, new_alloc, handle) == addr
            }
        }),
{
    if codec.fits(level, new_alloc, addr) {
        if aligned(level, addr) {
            theorem_round_trip(codec, level, new_alloc, addr);
        }
    } else {
        theorem_fallback_round_trip(codec, level, new_alloc, addr);
    }
}

/// A mask that is set stays as it is through every compression, under its own
/// level and origin or under others.
pub proof fn theorem_masks_are_kept(
    codec: CodecView,
    level: i32,
    new_alloc: bool,
    addr: u64,
    held_level: i32,
    held_new: bool,
)
    requires
        codec.wf(),
        valid_level(level),
        valid_level(held_level),
        codec.mask(held_level, held_new) is Some,
    ensures
        codec.compress(level, new_alloc, addr).0.mask(held_level, held_new) == codec.mask(
            held_level,
            held_new,
        ),
{
}

/// A handle keeps its address through every compression: a handle that the
/// codec can decompress, and whose table slot, if it has one, is taken, stands
/// for the same address after another address has been compressed.
pub proof fn theorem_handles_are_kept(
    codec: CodecView,
    level: i32,
    new_alloc: bool,
    addr: u64,
    held_level: i32,
    held_new: bool,
    held: u32,
)
    requires
        codec.wf(),
        valid_level(level),
        codec.resolvable(held_level, held_new, held),
        uses_table(held_level, held) ==> codec.decompress(held_level, held_new, held) != 0,
    ensures
        ({
            let after = codec.compress(level, new_alloc, addr).0;
            &&& after.resolvable(held_level, held_new, held)
            &&& after.decompress(held_level, held_new, held) == codec.decompress(
                held_level,
                held_new,
                held,
            )
        }),
{
    lemma_list(codec.table, addr);
}

/// A handle keeps its address when another handle gives its table slot up:
/// a handle that the codec can decompress, and that does not refer to the slot
/// that is freed, stands for the same address afterward. No mask changes.
pub proof fn theorem_handles_outlive_others(
    codec: CodecView,
    level: i32,
    dropped: u32,
    held_level: i32,
    held_new: bool,
    held: u32,
)
    requires
        codec.wf(),
        uses_table(level, dropped) ==> codec.table.holds(table_index(level, dropped)),
        codec.resolvable(held_level, held_new, held),
        uses_table(level, dropped) && uses_table(held_level, held) ==> table_index(level, dropped)
            != table_index(held_level, held),
    ensures
        ({
            let after = codec.unlist_ptr(level, dropped);
            &&& after.wf()
            &&& after.masks == codec.masks
            &&& after.resolvable(held_level, held_new, held)
            &&& after.decompress(held_level, held_new, held) == codec.decompress(
                held_level,
                held_new,
                held,
            )
        }),
{
}

/// Under a negative level, an address whose high bits differ from the mask
/// that is set cannot be compressed.
pub proof fn theorem_strict_refuses(codec: CodecView, level: i32, new_alloc: bool, addr: u64)
    requires
        level < 0,
        codec.mask(level, new_alloc) is Some,
        codec.mask(level, new_alloc) != Some(high_bits(shift_of(level), addr)),
    ensures
        !codec.compressible(level, new_alloc, addr),
{
}

/// Where `first` is listed and unlisted again, and `second` is listed then,
/// the index of `second` resolves to `second`. The cursor has moved past the
/// slot of `first`, so `second` gets a later slot, and the table is no more
/// than two slots longer than it was.
pub proof fn theorem_list_after_unlist(table: TableView, first: u64, second: u64)
    requires
        table.wf(),
    ensures
        ({
            let index = table.next_index();
            let freed = table.list(first).unlist(index);
            let after = freed.list(second);
            &&& after.wf()
            &&& after.holds(freed.next_index())
            &&& after.resolve(freed.next_index()) == second
            &&& freed.next_index() > index
            &&& after.slots.len() <= table.slots.len() + 2
        }),
{
    lemma_list(table, first);
    let index = table.next_index();
    let freed = table.list(first).unlist(index);
    lemma_list(freed, second);
}

/// The cursor never moves backward: a listing moves it forward, and an
/// unlisting leaves it where it is.
pub proof fn theorem_cursor_moves_forward(table: TableView, addr: u64, index: int)
    requires
        table.wf(),
    ensures
        table.list(addr).cursor > table.cursor,
        table.unlist(index).cursor == table.cursor,
{
    lemma_list(table, addr);
}

/// A listing takes a free slot where there is one at or after the cursor, and
/// the table keeps its length then. It never writes before the cursor.
pub proof fn theorem_list_reuses(table: TableView, addr: u64, free: int)
    requires
        table.wf(),
        table.cursor <= free < table.slots.len(),
        table.slots[free] == 0,
    ensures
        table.list(addr).slots.len() == table.slots.len(),
        table.next_slot() <= free,
        forall|at: int| 0 <= at < table.cursor ==> table.list(addr).slots[at] == table.slots[at],
{
    lemma_first_free(table.slots, table.cursor as int);
}

/// The number of owners of storage that was made with one owner, after
/// `clones` clones and `drops` drops.
pub open spec fn owners_after(clones: nat, drops: nat) -> int {
    1 + clones - drops
}

/// Of a handle and its `clones` clones, `clones + 1` owners in all, every one
/// can be dropped: each drop finds an owner to take away. The drop after
/// `clones` others is that of the last owner, which frees the storage, and no
/// drop before it is. No owner is left after it.
pub proof fn theorem_freed_once(clones: nat)
    requires
        clones < MAX_COUNT,
    ensures
        forall|drops: nat|
            drops <= clones ==> 0 < #[trigger] owners_after(clones, drops) <= MAX_COUNT,
        forall|drops: nat|
            drops <= clones ==> (last_owner(#[trigger] owners_after(clones, drops)) <==> drops
                == clones),
        owners_after(clones, clones + 1) == 0,
{
}

/// Under copy on write, storage with a second owner is copied before it is
/// written: the handle is told to detach. The detach takes one owner from the
/// shared storage and leaves the copy with one. For a handle and its one
/// clone, each then has one owner and is written in place.
pub proof fn theorem_detach_counts(owners: u32, stays: u64, fresh: u64)
    requires
        owners > 1,
    ensures
        access_for(true, owners, stays) == Access::Detach(stays),
        owners_after_detach(owners) == owners - 1,
        access_for(true, 1, fresh) == Access::Direct(fresh),
        owners == owners_after(1, 0) ==> owners_after_detach(owners) == 1 && access_for(
            true,
            1,
            stays,
        ) == Access::Direct(stays),
{
}

/// Once a handle is detached to a copy at another address, the handle that
/// stays stands for the address that it stood for, and the handle that moved
/// stands for the copy. The copy holds the value that was shared, and a value
/// written to the copy leaves the value at the first address as it was.
pub proof fn theorem_copy_on_write<V>(
    codec: CodecView,
    level: i32,
    held: u32,
    fresh: u64,
    memory: Map<u64, V>,
    value: V,
)
    requires
        codec.wf(),
        codec.resolvable(level, true, held),
        uses_table(level, held) ==> codec.decompress(level, true, held) != 0,
        codec.compressible(level, true, fresh),
        aligned(level, fresh),
        fresh != codec.decompress(level, true, held),
    ensures
        ({
            let stays = codec.decompress(level, true, held);
            let (after, moved) = codec.compress(level, true, fresh);
            let copied = memory.insert(fresh, memory[stays]);
            let written = copied.insert(fresh, value);
            &&& after.resolvable(level, true, held)
            &&& after.decompress(level, true, held) == stays
            &&& after.resolvable(level, true, moved)
            &&& after.decompress(level, true, moved) == fresh
            &&& after.decompress(level, true, moved) != after.decompress(level, true, held)
            &&& copied[after.decompress(level, true, moved)] == memory[stays]
            &&& copied[stays] == memory[stays]
            &&& written[after.decompress(level, true, held)] == memory[stays]
            &&& written[after.decompress(level, true, moved)] == value
        }),
{
    theorem_round_trip(codec, level, true, fresh);
    theorem_handles_are_kept(codec, level, true, fresh, level, true, held);
}

} // verus!
