//! The shared handle: one of several owners of storage whose count of owners
//! lives in storage of its own.
//!
//! The counter is reached through a handle of level three, whatever the level
//! of the value, so that its block has one size for every type of value, and a
//! counter can be left behind when a handle moves to a copy.

use vstd::prelude::*;
use crate::codec::{Codec, CodecView};
use crate::counted::{access_for, is_shared, last_owner, owners_after_detach, Access};
use crate::counter::{Counter, MAX_COUNT};
use crate::level::{aligned, level_of, signed_level};
use crate::ptr::CmpsPtr;

verus! {

/// The compression level of the handle to a counter.
pub const COUNTER_LEVEL: i32 = 3;

/// One of the owners of a `T`, with a counter of type `C` in storage of its
/// own. With `COW` the handle copies shared storage before it is written.
pub struct CmpsShr<T, C: Counter, const COW: bool, const CMPS_LEVEL: u32, const STRICT: bool> {
    _ptr: CmpsPtr<T, CMPS_LEVEL, STRICT, true>,
    _rfc: CmpsPtr<C, 3, false, true>,
}

impl<T, C: Counter, const COW: bool, const CMPS_LEVEL: u32, const STRICT: bool> View for CmpsShr<
    T,
    C,
    COW,
    CMPS_LEVEL,
    STRICT,
> {
    type V = (u32, u32);

    /// The 32 bits of the handle to the value, and those of the handle to the
    /// counter.
    closed spec fn view(&self) -> (u32, u32) {
        (self._ptr@, self._rfc@)
    }
}

impl<T, C: Counter, const COW: bool, const CMPS_LEVEL: u32, const STRICT: bool> CmpsShr<
    T,
    C,
    COW,
    CMPS_LEVEL,
    STRICT,
> {
    /// Whether the level of this type of handle is supported.
    pub open spec fn valid() -> bool {
        CMPS_LEVEL <= 3
    }

    /// The compression level of the handle to the value.
    pub open spec fn level() -> i32 {
        signed_level(CMPS_LEVEL, STRICT)
    }

    /// Whether `codec` can decompress both handles.
    pub open spec fn bound(&self, codec: CodecView) -> bool {
        codec.resolvable(Self::level(), true, self@.0) && codec.resolvable(
            COUNTER_LEVEL,
            true,
            self@.1,
        )
    }

    /// The address of the value in `codec`.
    pub open spec fn addr(&self, codec: CodecView) -> u64 {
        codec.decompress(Self::level(), true, self@.0)
    }

    /// The address of the counter in `codec`.
    pub open spec fn counter_addr(&self, codec: CodecView) -> u64 {
        codec.decompress(COUNTER_LEVEL, true, self@.1)
    }

    /// Whether a handle can be made for a counter at `counter_ptr` and a value at
    /// `ptr`.
    pub fn can_new(codec: &Codec, ptr: u64, counter_ptr: u64) -> (ok: bool)
        requires
            codec.wf(),
        ensures
            ok == (Self::valid() && codec@.compressible(COUNTER_LEVEL, true, counter_ptr)
                && codec@.compress(COUNTER_LEVEL, true, counter_ptr).0.compressible(
                Self::level(),
                true,
                ptr,
            )),
    {
        CMPS_LEVEL <= 3 && codec.can_compress_both(
            COUNTER_LEVEL,
            true,
            counter_ptr,
            level_of(CMPS_LEVEL, STRICT),
            true,
            ptr,
        )
    }

    /// Whether a handle can be detached to a value at `fresh_ptr` and a
    /// counter at `fresh_counter_ptr`.
    pub fn can_detach(codec: &Codec, fresh_ptr: u64, fresh_counter_ptr: u64) -> (ok: bool)
        requires
            codec.wf(),
        ensures
            ok == (Self::valid() && codec@.compressible(Self::level(), true, fresh_ptr)
                && codec@.compress(Self::level(), true, fresh_ptr).0.compressible(
                COUNTER_LEVEL,
                true,
                fresh_counter_ptr,
            )),
    {
        CMPS_LEVEL <= 3 && codec.can_compress_both(
            level_of(CMPS_LEVEL, STRICT),
            true,
            fresh_ptr,
            COUNTER_LEVEL,
            true,
            fresh_counter_ptr,
        )
    }

    /// Whether `codec` can decompress both handles.
    pub fn is_bound(&self, codec: &Codec) -> (ok: bool)
        requires
            codec.wf(),
        ensures
            ok == (Self::valid() && self.bound(codec@)),
    {
        self._ptr.is_bound(codec) && self._rfc.is_bound(codec)
    }

    /// The first owner of the value which was allocated at `ptr`, with the
    /// counter `counter`, which was allocated at `counter_ptr`. The address
    /// of the counter is compressed first. The counter is set to one owner.
    pub fn new(codec: &mut Codec, ptr: u64, counter_ptr: u64, counter: &mut C) -> (handle: Self)
        requires
            Self::valid(),
            old(codec).wf(),
            old(codec)@.compressible(COUNTER_LEVEL, true, counter_ptr),
            old(codec)@.compress(COUNTER_LEVEL, true, counter_ptr).0.compressible(
                Self::level(),
                true,
                ptr,
            ),
        ensures
            final(codec).wf(),
            old(codec)@.masks_kept(final(codec)@),
            old(codec)@.handles_kept(final(codec)@),
            handle@.1 == old(codec)@.compress(COUNTER_LEVEL, true, counter_ptr).1,
            (final(codec)@, handle@.0) == old(codec)@.compress(
                COUNTER_LEVEL,
                true,
                counter_ptr,
            ).0.compress(Self::level(), true, ptr),
            aligned(Self::level(), ptr) && aligned(COUNTER_LEVEL, counter_ptr) && counter_ptr != 0
                ==> handle.bound(final(codec)@) && handle.addr(final(codec)@) == ptr
                && handle.counter_addr(final(codec)@) == counter_ptr,
            final(counter).count() == 1,
    {
        let rfc = CmpsPtr::new(codec, counter_ptr);
        counter.reset_count();
        CmpsShr { _ptr: CmpsPtr::new(codec, ptr), _rfc: rfc }
    }

    /// Moves the handle away from a value that it shares. `shared` is the
    /// counter of that value. `fresh_ptr` is the address of a copy of the
    /// value, and `fresh_counter` a counter for the copy, which was allocated
    /// at `fresh_counter_ptr`.
    ///
    /// Where the value has more than one owner, the handle gives its share up,
    /// becomes the one owner of the copy, and the result is `true`. The
    /// address of the copy is compressed before that of its counter. Where
    /// the handle is the only owner, nothing changes, the copy and its counter
    /// are left to the caller, and the result is `false`.
    pub fn detach(
        &mut self,
        codec: &mut Codec,
        shared: &mut C,
        fresh_ptr: u64,
        fresh_counter_ptr: u64,
        fresh_counter: &mut C,
    ) -> (moved: bool)
        requires
            Self::valid(),
            old(codec).wf(),
            old(shared).count() > 1 ==> old(codec)@.compressible(Self::level(), true, fresh_ptr),
            old(shared).count() > 1 ==> old(codec)@.compress(
                Self::level(),
                true,
                fresh_ptr,
            ).0.compressible(COUNTER_LEVEL, true, fresh_counter_ptr),
        ensures
            final(codec).wf(),
            old(codec)@.masks_kept(final(codec)@),
            old(codec)@.handles_kept(final(codec)@),
            moved == (old(shared).count() > 1),
            moved ==> final(self)@.0 == old(codec)@.compress(Self::level(), true, fresh_ptr).1,
            moved ==> (final(codec)@, final(self)@.1) == old(codec)@.compress(
                Self::level(),
                true,
                fresh_ptr,
            ).0.compress(COUNTER_LEVEL, true, fresh_counter_ptr),
            moved && aligned(Self::level(), fresh_ptr) && fresh_ptr != 0 && aligned(
                COUNTER_LEVEL,
                fresh_counter_ptr,
            ) ==> final(self).bound(final(codec)@) && final(self).addr(final(codec)@)
                == fresh_ptr && final(self).counter_addr(final(codec)@) == fresh_counter_ptr,
            final(shared).count() == owners_after_detach(old(shared).count()),
            moved ==> final(fresh_counter).count() == 1,
            !moved ==> final(codec)@ == old(codec)@ && final(self)@ == old(self)@,
            !moved ==> *final(shared) == *old(shared) && *final(fresh_counter) == *old(
                fresh_counter,
            ),
    {
        if is_shared(shared) {
            let ptr = CmpsPtr::new(codec, fresh_ptr);
            self._ptr = ptr;
            shared.decrease_count();
            let rfc = CmpsPtr::new(codec, fresh_counter_ptr);
            fresh_counter.reset_count();
            self._rfc = rfc;
            true
        } else {
            false
        }
    }

    /// What has to happen before the value is written: under copy on write, a
    /// value with more than one owner is copied first. `shared` is the counter
    /// of the value.
    pub fn ptr_mut(&self, codec: &Codec, shared: &C) -> (access: Access)
        requires
            Self::valid(),
            codec.wf(),
            self.bound(codec@),
        ensures
            access == access_for(COW, shared.count(), self.addr(codec@)),
    {
        let ptr = self._ptr.ptr_mut(codec);
        if COW && is_shared(shared) {
            Access::Detach(ptr)
        } else {
            Access::Direct(ptr)
        }
    }

    /// The address to read the value from.
    pub fn ptr(&self, codec: &Codec) -> (ptr: u64)
        requires
            Self::valid(),
            codec.wf(),
            self.bound(codec@),
        ensures
            ptr == self.addr(codec@),
    {
        self._ptr.ptr(codec)
    }

    /// The address of the counter.
    pub fn counter_ptr(&self, codec: &Codec) -> (ptr: u64)
        requires
            codec.wf(),
            self.bound(codec@),
        ensures
            ptr == self.counter_addr(codec@),
    {
        self._rfc.ptr_mut(codec)
    }

    /// One more owner of the same value, whose counter is `shared`.
    pub fn clone(&self, shared: &mut C) -> (copy: Self)
        requires
            old(shared).count() < MAX_COUNT,
        ensures
            copy@ == self@,
            final(shared).count() == old(shared).count() + 1,
    {
        shared.increase_count();
        CmpsShr { _ptr: self._ptr, _rfc: self._rfc }
    }

    /// Gives the handle up. `shared` is the counter of its value. The last
    /// owner frees the table slots of both handles, where they have any, and
    /// gets the address of the value and that of the counter to free them.
    pub fn drop(self, codec: &mut Codec, shared: &mut C) -> (freed: Option<(u64, u64)>)
        requires
            Self::valid(),
            old(codec).wf(),
            old(shared).count() > 0,
            last_owner(old(shared).count() as int) ==> self.bound(old(codec)@),
        ensures
            final(codec).wf(),
            final(shared).count() == old(shared).count() - 1,
            freed == if last_owner(old(shared).count() as int) {
                Some((self.addr(old(codec)@), self.counter_addr(old(codec)@)))
            } else {
                None
            },
            final(codec)@ == if last_owner(old(shared).count() as int) {
                old(codec)@.unlist_ptr(Self::level(), self@.0).unlist_ptr(COUNTER_LEVEL, self@.1)
            } else {
                old(codec)@
            },
    {
        if shared.decrease_count() == 0 {
            let value = self._ptr.ptr(codec);
            let counter = self._rfc.ptr(codec);
            self._ptr.unlist(codec);
            self._rfc.unlist(codec);
            Some((value, counter))
        } else {
            None
        }
    }
}

} // verus!
