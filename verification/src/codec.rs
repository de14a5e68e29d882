//! The address mask codec.
//!
//! For each compression level and each origin of an address the codec keeps
//! one mask: the high bits that every address compressed under that pair
//! shares. The first address compressed under a pair sets its mask, and the
//! mask then stays as it is. An address with other high bits goes to the
//! fallback table where the level allows it, and is refused where it does not.

use vstd::prelude::*;
use crate::level::{
    high_bits, is_listed, is_valid_level, listed, low_bits, mask_bits, pack, rebuild, shift_bits,
    shift_of, tag, tagged, unpack, untag, untagged, valid_level, LIST_ONLY_LIMIT, TAGGED_LIMIT,
};
use crate::level::aligned;
use crate::table::{lemma_list, FallbackTable, TableView};
use crate::theorems::theorem_compress;

verus! {

/// The number of masks that a codec keeps: one for each of seven levels and
/// two origins.
pub const MASK_SLOTS: usize = 14;

/// What a codec holds: its masks, and its fallback table.
pub struct CodecView {
    pub masks: Seq<Option<u64>>,
    pub table: TableView,
}

/// The position of the mask of `level` and of the origin `new_alloc`.
pub open spec fn mask_slot(level: i32, new_alloc: bool) -> int {
    (level + 3) * 2 + if new_alloc {
        1int
    } else {
        0int
    }
}

/// Whether a handle of `level` refers to the fallback table.
pub open spec fn uses_table(level: i32, handle: u32) -> bool {
    level == 0 || (level > 0 && is_listed(handle))
}

/// The table index that a handle of `level` holds, where it refers to the
/// fallback table.
pub open spec fn table_index(level: i32, handle: u32) -> int {
    if level == 0 {
        handle as int
    } else {
        untagged(handle) as int
    }
}

/// The handle of `level` that holds the table index `index`.
pub open spec fn table_handle(list_only: bool, index: int) -> u32 {
    if list_only {
        index as u32
    } else {
        tagged(index as u64)
    }
}

impl CodecView {
    /// There is a mask slot for every level and origin, and the table is well
    /// formed.
    pub open spec fn wf(self) -> bool {
        self.masks.len() == 14 && self.table.wf()
    }

    /// The mask of `level` and `new_alloc`, where it has been set.
    pub open spec fn mask(self, level: i32, new_alloc: bool) -> Option<u64> {
        self.masks[mask_slot(level, new_alloc)]
    }

    /// Whether the mask of `level` and `new_alloc` can represent `addr`: the
    /// mask is not set yet, or it equals the high bits of `addr`.
    pub open spec fn fits(self, level: i32, new_alloc: bool, addr: u64) -> bool {
        level != 0 && match self.mask(level, new_alloc) {
            None => true,
            Some(mask) => mask == high_bits(shift_of(level), addr),
        }
    }

    /// Whether the next listing returns an index that a handle can hold: any
    /// index of 32 bits where the handle is the index itself, and one of 31
    /// bits where the handle carries the marker.
    pub open spec fn can_list(self, list_only: bool) -> bool {
        self.table.next_index() <= if list_only {
            LIST_ONLY_LIMIT
        } else {
            TAGGED_LIMIT
        }
    }

    /// Whether `addr` can be compressed under `level` and `new_alloc`: the
    /// level is supported, and the mask can represent the address, or the
    /// level is not strict and the fallback table has an index for it.
    pub open spec fn compressible(self, level: i32, new_alloc: bool, addr: u64) -> bool {
        valid_level(level) && (self.fits(level, new_alloc, addr) || (level >= 0 && self.can_list(
            level == 0,
        )))
    }

    /// The codec after `addr` has been listed, and the handle that refers to
    /// its slot.
    pub open spec fn list_ptr(self, list_only: bool, addr: u64) -> (CodecView, u32) {
        (
            CodecView { masks: self.masks, table: self.table.list(addr) },
            table_handle(list_only, self.table.next_index()),
        )
    }

    /// The codec after `addr` has been compressed under `level` and
    /// `new_alloc`, and the handle that stands for it.
    pub open spec fn compress(self, level: i32, new_alloc: bool, addr: u64) -> (CodecView, u32) {
        if self.fits(level, new_alloc, addr) {
            (
                CodecView {
                    masks: self.masks.update(
                        mask_slot(level, new_alloc),
                        Some(high_bits(shift_of(level), addr)),
                    ),
                    table: self.table,
                },
                low_bits(shift_of(level), addr),
            )
        } else {
            self.list_ptr(level == 0, addr)
        }
    }

    /// Whether every mask that is set in `self` is the same in `after`.
    pub open spec fn masks_kept(self, after: CodecView) -> bool {
        forall|level: i32, new_alloc: bool|
            valid_level(level) && #[trigger] self.mask(level, new_alloc) is Some ==> after.mask(
                level,
                new_alloc,
            ) == self.mask(level, new_alloc)
    }

    /// Whether every handle that `self` can decompress, and whose table slot,
    /// if it has one, is taken, stands for the same address in `after`.
    pub open spec fn handles_kept(self, after: CodecView) -> bool {
        forall|level: i32, new_alloc: bool, handle: u32|
            #[trigger] self.resolvable(level, new_alloc, handle) && (uses_table(level, handle)
                ==> self.decompress(level, new_alloc, handle) != 0) ==> after.resolvable(
                level,
                new_alloc,
                handle,
            ) && after.decompress(level, new_alloc, handle) == self.decompress(
                level,
                new_alloc,
                handle,
            )
    }

    /// Whether `handle` refers to a slot of the table of `after` that holds
    /// `addr`, and that was free or not there in the table of `self`.
    pub open spec fn listed_in(self, after: CodecView, level: i32, handle: u32, addr: u64) -> bool {
        let index = table_index(level, handle);
        &&& uses_table(level, handle)
        &&& after.table.holds(index)
        &&& after.table.resolve(index) == addr
        &&& self.table.holds(index) ==> self.table.resolve(index) == 0
    }

    /// Whether `handle` can be decompressed under `level` and `new_alloc`: a
    /// reference into the table names one of its slots, and any other handle
    /// finds its mask set.
    pub open spec fn resolvable(self, level: i32, new_alloc: bool, handle: u32) -> bool {
        valid_level(level) && if uses_table(level, handle) {
            self.table.holds(table_index(level, handle))
        } else {
            self.mask(level, new_alloc) is Some
        }
    }

    /// The address that `handle` stands for under `level` and `new_alloc`.
    pub open spec fn decompress(self, level: i32, new_alloc: bool, handle: u32) -> u64 {
        if uses_table(level, handle) {
            self.table.resolve(table_index(level, handle))
        } else {
            rebuild(shift_of(level), self.mask(level, new_alloc).unwrap(), handle)
        }
    }

    /// The codec after the table slot of `handle`, if it has one, has been
    /// freed.
    pub open spec fn unlist_ptr(self, level: i32, handle: u32) -> CodecView {
        if uses_table(level, handle) {
            CodecView { masks: self.masks, table: self.table.unlist(table_index(level, handle)) }
        } else {
            self
        }
    }
}

/// The masks and the fallback table that every handle of one process shares.
pub struct Codec {
    masks: Vec<Option<u64>>,
    table: FallbackTable,
}

impl Codec {
    /// What the codec holds.
    pub closed spec fn view(&self) -> CodecView {
        CodecView { masks: self.masks@, table: self.table@ }
    }

    /// The invariant of the codec.
    pub open spec fn wf(&self) -> bool {
        self@.wf()
    }

    /// A codec with no mask set and an empty table.
    pub fn new() -> (codec: Self)
        ensures
            codec.wf(),
            forall|i: int| 0 <= i < 14 ==> codec@.masks[i] is None,
            codec@.table.slots.len() == 0,
            codec@.table.cursor == 0,
    {
        let mut masks: Vec<Option<u64>> = Vec::new();
        while masks.len() < MASK_SLOTS
            invariant
                masks.len() <= MASK_SLOTS,
                forall|i: int| 0 <= i < masks.len() ==> masks@[i] is None,
            decreases MASK_SLOTS - masks.len(),
        {
            masks.push(None);
        }
        Codec { masks, table: FallbackTable::new() }
    }

    /// The fallback table of the codec.
    pub fn table(&self) -> (table: &FallbackTable)
        ensures
            table@ == self@.table,
    {
        &self.table
    }

    /// The position of the mask of `level` and `new_alloc`.
    fn mask_index(level: i32, new_alloc: bool) -> (slot: usize)
        requires
            valid_level(level),
        ensures
            slot == mask_slot(level, new_alloc),
            slot < 14,
    {
        let base: usize = ((level + 3) * 2) as usize;
        if new_alloc {
            base + 1
        } else {
            base
        }
    }

    /// The mask of `level` and `new_alloc`, where it has been set.
    pub fn mask(&self, level: i32, new_alloc: bool) -> (mask: Option<u64>)
        requires
            self.wf(),
            valid_level(level),
        ensures
            mask == self@.mask(level, new_alloc),
    {
        self.masks[Self::mask_index(level, new_alloc)]
    }

    /// Whether the mask of `level` and `new_alloc` can represent `ptr`.
    pub fn fits(&self, level: i32, new_alloc: bool, ptr: u64) -> (ok: bool)
        requires
            self.wf(),
            valid_level(level),
        ensures
            ok == self@.fits(level, new_alloc, ptr),
    {
        if level == 0 {
            false
        } else {
            match self.mask(level, new_alloc) {
                None => true,
                Some(mask) => mask == mask_bits(shift_bits(level), ptr),
            }
        }
    }

    /// Whether the next listing returns an index that a handle can hold.
    pub fn can_list(&self, list_only: bool) -> (ok: bool)
        requires
            self.wf(),
        ensures
            ok == self@.can_list(list_only),
    {
        let at = self.table.scan(self.table.cursor());
        if list_only {
            at < LIST_ONLY_LIMIT
        } else {
            at < TAGGED_LIMIT
        }
    }

    /// Whether `ptr` can be compressed under `level` and `new_alloc`.
    pub fn can_compress(&self, level: i32, new_alloc: bool, ptr: u64) -> (ok: bool)
        requires
            self.wf(),
        ensures
            ok == self@.compressible(level, new_alloc, ptr),
    {
        if !is_valid_level(level) {
            false
        } else if self.fits(level, new_alloc, ptr) {
            true
        } else {
            level >= 0 && self.can_list(level == 0)
        }
    }

    /// Whether `first_ptr` can be compressed under `first_level` and
    /// `first_new`, and `ptr` under `level` and `new_alloc` after it.
    pub fn can_compress_both(
        &self,
        first_level: i32,
        first_new: bool,
        first_ptr: u64,
        level: i32,
        new_alloc: bool,
        ptr: u64,
    ) -> (ok: bool)
        requires
            self.wf(),
        ensures
            ok == (self@.compressible(first_level, first_new, first_ptr) && self@.compress(
                first_level,
                first_new,
                first_ptr,
            ).0.compressible(level, new_alloc, ptr)),
    {
        if !self.can_compress(first_level, first_new, first_ptr) || !is_valid_level(level) {
            return false;
        }
        let first_fits = self.fits(first_level, first_new, first_ptr);
        let fits = if level == 0 {
            false
        } else if first_fits && first_level == level && first_new == new_alloc {
            mask_bits(shift_bits(level), first_ptr) == mask_bits(shift_bits(level), ptr)
        } else {
            self.fits(level, new_alloc, ptr)
        };
        if fits {
            return true;
        }
        if level < 0 {
            return false;
        }
        proof {
            lemma_list(self@.table, first_ptr);
        }
        let at = self.table.scan(self.table.cursor());
        let next = if first_fits {
            at
        } else if at < self.table.len() {
            self.table.scan(at + 1)
        } else {
            at + 1
        };
        if level == 0 {
            next < LIST_ONLY_LIMIT
        } else {
            next < TAGGED_LIMIT
        }
    }

    /// Whether `handle` can be decompressed under `level` and `new_alloc`.
    pub fn can_decompress(&self, level: i32, new_alloc: bool, handle: u32) -> (ok: bool)
        requires
            self.wf(),
        ensures
            ok == self@.resolvable(level, new_alloc, handle),
    {
        if !is_valid_level(level) {
            false
        } else if level == 0 {
            self.table.holds(handle as usize)
        } else if level > 0 && listed(handle) {
            self.table.holds(untag(handle))
        } else {
            self.mask(level, new_alloc).is_some()
        }
    }

    /// Lists `ptr` in the fallback table and returns the handle that refers
    /// to its slot: the index itself where `list_only` holds, and the index
    /// under a marker bit where it does not.
    pub fn list_ptr(&mut self, list_only: bool, ptr: u64) -> (handle: u32)
        requires
            old(self).wf(),
            old(self)@.can_list(list_only),
        ensures
            final(self).wf(),
            (final(self)@, handle) == old(self)@.list_ptr(list_only, ptr),
    {
        let index = self.table.list(ptr);
        if list_only {
            index as u32
        } else {
            tag(index)
        }
    }

    /// Frees the table slot that `handle` refers to, if it refers to one.
    pub fn unlist_ptr(&mut self, level: i32, handle: u32)
        requires
            old(self).wf(),
            uses_table(level, handle) ==> old(self)@.table.holds(table_index(level, handle)),
        ensures
            final(self).wf(),
            final(self)@ == old(self)@.unlist_ptr(level, handle),
    {
        if level == 0 {
            self.table.unlist(handle as usize);
        } else if level > 0 {
            if listed(handle) {
                self.table.unlist(untag(handle));
            }
        }
    }

    /// Compresses `ptr` against the mask of `level` and `new_alloc`, where
    /// `level` is not zero. The first address sets the mask. A later one with
    /// the same high bits is shifted and cut to a handle. One with other high
    /// bits is listed in the fallback table.
    fn compress_masked(&mut self, level: i32, new_alloc: bool, ptr: u64) -> (handle: u32)
        requires
            old(self).wf(),
            level != 0,
            old(self)@.compressible(level, new_alloc, ptr),
        ensures
            final(self).wf(),
            (final(self)@, handle) == old(self)@.compress(level, new_alloc, ptr),
            old(self)@.masks_kept(final(self)@),
            old(self)@.handles_kept(final(self)@),
            !old(self)@.fits(level, new_alloc, ptr) ==> old(self)@.listed_in(
                final(self)@,
                level,
                handle,
                ptr,
            ),
            aligned(level, ptr) ==> final(self)@.resolvable(level, new_alloc, handle)
                && final(self)@.decompress(level, new_alloc, handle) == ptr,
    {
        proof {
            theorem_compress(old(self)@, level, new_alloc, ptr);
        }
        let shift = shift_bits(level);
        let high = mask_bits(shift, ptr);
        let slot = Self::mask_index(level, new_alloc);
        match self.masks[slot] {
            None => {
                self.masks[slot] = Some(high);
                pack(shift, ptr)
            },
            Some(mask) => {
                if mask == high {
                    assert(self@.masks =~= old(self)@.compress(level, new_alloc, ptr).0.masks);
                    pack(shift, ptr)
                } else {
                    self.list_ptr(false, ptr)
                }
            },
        }
    }

    /// Compresses `ptr`, an address that this library allocated, under
    /// `level`, which is not zero. The first such address sets the mask, and
    /// no later one changes it. An address with the high bits of the mask is
    /// shifted and cut to a handle. One with other high bits is listed in the
    /// fallback table, in a slot that was free or not there, and its handle
    /// carries the marker.
    pub fn global_compress_new(&mut self, level: i32, ptr: u64) -> (handle: u32)
        requires
            old(self).wf(),
            level != 0,
            old(self)@.compressible(level, true, ptr),
        ensures
            final(self).wf(),
            (final(self)@, handle) == old(self)@.compress(level, true, ptr),
            old(self)@.masks_kept(final(self)@),
            old(self)@.handles_kept(final(self)@),
            !old(self)@.fits(level, true, ptr) ==> old(self)@.listed_in(
                final(self)@,
                level,
                handle,
                ptr,
            ),
            aligned(level, ptr) ==> final(self)@.resolvable(level, true, handle)
                && final(self)@.decompress(level, true, handle) == ptr,
    {
        self.compress_masked(level, true, ptr)
    }

    /// Compresses `ptr`, the address of storage that the caller supplied,
    /// under `level`, which is not zero. The first such address sets the mask,
    /// and no later one changes it. An address with the high bits of the mask
    /// is shifted and cut to a handle. One with other high bits is listed in
    /// the fallback table, in a slot that was free or not there, and its
    /// handle carries the marker.
    pub fn global_compress(&mut self, level: i32, ptr: u64) -> (handle: u32)
        requires
            old(self).wf(),
            level != 0,
            old(self)@.compressible(level, false, ptr),
        ensures
            final(self).wf(),
            (final(self)@, handle) == old(self)@.compress(level, false, ptr),
            old(self)@.masks_kept(final(self)@),
            old(self)@.handles_kept(final(self)@),
            !old(self)@.fits(level, false, ptr) ==> old(self)@.listed_in(
                final(self)@,
                level,
                handle,
                ptr,
            ),
            aligned(level, ptr) ==> final(self)@.resolvable(level, false, handle)
                && final(self)@.decompress(level, false, handle) == ptr,
    {
        self.compress_masked(level, false, ptr)
    }

    /// Compresses `ptr` under `level` and `new_alloc`, and returns the handle
    /// that stands for it. Level zero lists every address in the fallback
    /// table. No mask that is set changes. A handle that refers to the table
    /// got a slot that was free or not there.
    pub fn compress(&mut self, level: i32, new_alloc: bool, ptr: u64) -> (handle: u32)
        requires
            old(self).wf(),
            old(self)@.compressible(level, new_alloc, ptr),
        ensures
            final(self).wf(),
            (final(self)@, handle) == old(self)@.compress(level, new_alloc, ptr),
            old(self)@.masks_kept(final(self)@),
            old(self)@.handles_kept(final(self)@),
            !old(self)@.fits(level, new_alloc, ptr) ==> old(self)@.listed_in(
                final(self)@,
                level,
                handle,
                ptr,
            ),
            aligned(level, ptr) ==> final(self)@.resolvable(level, new_alloc, handle)
                && final(self)@.decompress(level, new_alloc, handle) == ptr,
    {
        proof {
            theorem_compress(old(self)@, level, new_alloc, ptr);
        }
        if level == 0 {
            self.list_ptr(true, ptr)
        } else if new_alloc {
            self.global_compress_new(level, ptr)
        } else {
            self.global_compress(level, ptr)
        }
    }

    /// The address that `handle` stands for under `level` and `new_alloc`: the
    /// slot of the fallback table that the handle refers to, or the handle
    /// shifted back and joined with the mask.
    pub fn decompress(&self, level: i32, new_alloc: bool, handle: u32) -> (ptr: u64)
        requires
            self.wf(),
            self@.resolvable(level, new_alloc, handle),
        ensures
            ptr == self@.decompress(level, new_alloc, handle),
    {
        if level == 0 {
            self.table.resolve(handle as usize)
        } else if level > 0 && listed(handle) {
            self.table.resolve(untag(handle))
        } else {
            unpack(shift_bits(level), self.mask(level, new_alloc).unwrap(), handle)
        }
    }
}

} // verus!
