//! The counted handle: one of several owners of storage that holds its own
//! count of owners.
//!
//! The handle decides and keeps the books. Its caller allocates, copies and
//! frees the storage, and hands in the counter that lives in it.

use vstd::prelude::*;
use crate::codec::{Codec, CodecView};
use crate::counter::{Counter, MAX_COUNT};
use crate::level::{aligned, signed_level};
use crate::ptr::CmpsPtr;

verus! {

/// What has to happen before a value is written through a counted handle.
#[derive(Clone, Copy, Debug, PartialEq, Eq)]
pub enum Access {
    /// The storage at this address is written in place.
    Direct(u64),
    /// The storage at this address has other owners: it is copied, the handle
    /// is detached to the copy, and the copy is written.
    Detach(u64),
}

/// The access that a handle grants to storage at `addr` with `count` owners:
/// under copy on write, shared storage is copied first.
pub open spec fn access_for(cow: bool, count: u32, addr: u64) -> Access {
    if cow && count > 1 {
        Access::Detach(addr)
    } else {
        Access::Direct(addr)
    }
}

/// Whether a handle that is dropped while its storage has `owners` owners is
/// the last owner, the one that frees the storage.
pub open spec fn last_owner(owners: int) -> bool {
    owners == 1
}

/// The owners that are left to storage with `owners` owners once one of its
/// handles has been detached: one less where the storage is shared, and as
/// many as before where the handle is the only owner and stays.
pub open spec fn owners_after_detach(owners: u32) -> int {
    if owners > 1 {
        owners - 1
    } else {
        owners as int
    }
}

/// Whether the storage that `shared` counts the owners of has more than one
/// owner.
pub fn is_shared<C: Counter>(shared: &C) -> (more: bool)
    ensures
        more == (shared.count() > 1),
{
    shared.current_count() > 1
}

/// One of the owners of a `T`, which counts its owners itself. With `COW` the
/// handle copies shared storage before it is written.
pub struct CmpsCnt<T: Counter, const COW: bool, const CMPS_LEVEL: u32, const STRICT: bool> {
    _ptr: CmpsPtr<T, CMPS_LEVEL, STRICT, true>,
}

impl<T: Counter, const COW: bool, const CMPS_LEVEL: u32, const STRICT: bool> View for CmpsCnt<
    T,
    COW,
    CMPS_LEVEL,
    STRICT,
> {
    type V = u32;

    /// The 32 bits of the handle.
    closed spec fn view(&self) -> u32 {
        self._ptr@
    }
}

impl<T: Counter, const COW: bool, const CMPS_LEVEL: u32, const STRICT: bool> CmpsCnt<
    T,
    COW,
    CMPS_LEVEL,
    STRICT,
> {
    /// Whether the level of this type of handle is supported.
    pub open spec fn valid() -> bool {
        CMPS_LEVEL <= 3
    }

    /// The compression level of this type of handle.
    pub open spec fn level() -> i32 {
        signed_level(CMPS_LEVEL, STRICT)
    }

    /// Whether `codec` can decompress this handle.
    pub open spec fn bound(&self, codec: CodecView) -> bool {
        codec.resolvable(Self::level(), true, self@)
    }

    /// The address that this handle stands for in `codec`.
    pub open spec fn addr(&self, codec: CodecView) -> u64 {
        codec.decompress(Self::level(), true, self@)
    }

    /// Whether a handle of this type can be made for `ptr`.
    pub fn can_new(codec: &Codec, ptr: u64) -> (ok: bool)
        requires
            codec.wf(),
        ensures
            ok == (Self::valid() && codec@.compressible(Self::level(), true, ptr)),
    {
        CmpsPtr::<T, CMPS_LEVEL, STRICT, true>::can_new(codec, ptr)
    }

    /// Whether `codec` can decompress this handle.
    pub fn is_bound(&self, codec: &Codec) -> (ok: bool)
        requires
            codec.wf(),
        ensures
            ok == (Self::valid() && self.bound(codec@)),
    {
        self._ptr.is_bound(codec)
    }

    /// The first owner of the storage which was allocated at `ptr`, and whose
    /// counter is `value`. The counter is set to one owner.
    pub fn new(codec: &mut Codec, ptr: u64, value: &mut T) -> (handle: Self)
        requires
            Self::valid(),
            old(codec).wf(),
            old(codec)@.compressible(Self::level(), true, ptr),
        ensures
            final(codec).wf(),
            old(codec)@.masks_kept(final(codec)@),
            old(codec)@.handles_kept(final(codec)@),
            (final(codec)@, handle@) == old(codec)@.compress(Self::level(), true, ptr),
            aligned(Self::level(), ptr) ==> handle.bound(final(codec)@) && handle.addr(
                final(codec)@,
            ) == ptr,
            final(value).count() == 1,
    {
        let rfc = CmpsPtr::new(codec, ptr);
        value.reset_count();
        CmpsCnt { _ptr: rfc }
    }

    /// Moves the handle away from storage that it shares. `shared` is the
    /// counter of that storage. `fresh_ptr` is the address of a copy of the
    /// storage, and `fresh` the counter in the copy.
    ///
    /// Where the storage has more than one owner, the handle gives its share
    /// up, becomes the one owner of the copy, and the result is `true`. Where
    /// the handle is the only owner, nothing changes, the copy is left to the
    /// caller, and the result is `false`.
    pub fn detach(
        &mut self,
        codec: &mut Codec,
        shared: &mut T,
        fresh_ptr: u64,
        fresh: &mut T,
    ) -> (moved: bool)
        requires
            Self::valid(),
            old(codec).wf(),
            old(shared).count() > 1 ==> old(codec)@.compressible(Self::level(), true, fresh_ptr),
        ensures
            final(codec).wf(),
            old(codec)@.masks_kept(final(codec)@),
            old(codec)@.handles_kept(final(codec)@),
            moved == (old(shared).count() > 1),
            moved ==> (final(codec)@, final(self)@) == old(codec)@.compress(
                Self::level(),
                true,
                fresh_ptr,
            ),
            moved && aligned(Self::level(), fresh_ptr) ==> final(self).bound(final(codec)@)
                && final(self).addr(final(codec)@) == fresh_ptr,
            final(shared).count() == owners_after_detach(old(shared).count()),
            moved ==> final(fresh).count() == 1,
            !moved ==> final(codec)@ == old(codec)@ && final(self)@ == old(self)@,
            !moved ==> *final(shared) == *old(shared) && *final(fresh) == *old(fresh),
    {
        if is_shared(shared) {
            let ptr = CmpsPtr::new(codec, fresh_ptr);
            fresh.reset_count();
            shared.decrease_count();
            self._ptr = ptr;
            true
        } else {
            false
        }
    }

    /// What has to happen before the value is written: under copy on write,
    /// storage with more than one owner is copied first.
    pub fn ptr_mut(&self, codec: &Codec, shared: &T) -> (access: Access)
        requires
            Self::valid(),
            codec.wf(),
            self.bound(codec@),
        ensures
            access == access_for(COW, shared.count(), self.addr(codec@)),
    {
        let ptr = self._ptr.ptr_mut(codec);
        if COW && is_shared(shared) {
            Access::Detach(ptr)
        } else {
            Access::Direct(ptr)
        }
    }

    /// The address to read the value from.
    pub fn ptr(&self, codec: &Codec) -> (ptr: u64)
        requires
            Self::valid(),
            codec.wf(),
            self.bound(codec@),
        ensures
            ptr == self.addr(codec@),
    {
        self._ptr.ptr(codec)
    }

    /// One more owner of the same storage, whose counter is `shared`.
    pub fn clone(&self, shared: &mut T) -> (copy: Self)
        requires
            old(shared).count() < MAX_COUNT,
        ensures
            copy@ == self@,
            final(shared).count() == old(shared).count() + 1,
    {
        shared.increase_count();
        CmpsCnt { _ptr: self._ptr }
    }

    /// Gives the handle up. `shared` is the counter of its storage. The last
    /// owner frees the table slot of the handle, if it has one, and gets the
    /// address of the storage to free it.
    pub fn drop(self, codec: &mut Codec, shared: &mut T) -> (freed: Option<u64>)
        requires
            Self::valid(),
            old(codec).wf(),
            old(shared).count() > 0,
            last_owner(old(shared).count() as int) ==> self.bound(old(codec)@),
        ensures
            final(codec).wf(),
            final(shared).count() == old(shared).count() - 1,
            freed == if last_owner(old(shared).count() as int) {
                Some(self.addr(old(codec)@))
            } else {
                None
            },
            final(codec)@ == if last_owner(old(shared).count() as int) {
                old(codec)@.unlist_ptr(Self::level(), self@)
            } else {
                old(codec)@
            },
    {
        if shared.decrease_count() == 0 {
            let freed = self._ptr.ptr(codec);
            self._ptr.unlist(codec);
            Some(freed)
        } else {
            None
        }
    }
}

} // verus!
