//! Handles without a count of owners: the plain compressed pointer, the
//! borrowed handle that never frees, and the unique handle that frees once.
//!
//! A handle is four bytes wide. Its level, its strictness and the origin of
//! its address are parameters of its type, so that handles of different
//! configurations cannot be mixed up. The level is written as a magnitude of
//! at most three and a flag: the flag makes the level negative, that is
//! strict.

use vstd::prelude::*;
use std::marker::PhantomData;
use crate::codec::{Codec, CodecView};
use crate::level::{aligned, level_of, signed_level};

verus! {

/// A compressed pointer to a `T`.
pub struct CmpsPtr<T, const CMPS_LEVEL: u32, const STRICT: bool, const NEW_ALLOC: bool> {
    _phantom: PhantomData<T>,
    _ptr: u32,
}

impl<T, const CMPS_LEVEL: u32, const STRICT: bool, const NEW_ALLOC: bool> View for CmpsPtr<
    T,
    CMPS_LEVEL,
    STRICT,
    NEW_ALLOC,
> {
    type V = u32;

    /// The 32 bits of the handle.
    closed spec fn view(&self) -> u32 {
        self._ptr
    }
}

impl<T, const CMPS_LEVEL: u32, const STRICT: bool, const NEW_ALLOC: bool> CmpsPtr<
    T,
    CMPS_LEVEL,
    STRICT,
    NEW_ALLOC,
> {
    /// Whether the level of this type of handle is supported.
    pub open spec fn valid() -> bool {
        CMPS_LEVEL <= 3
    }

    /// The compression level of this type of handle.
    pub open spec fn level() -> i32 {
        signed_level(CMPS_LEVEL, STRICT)
    }

    /// Whether `codec` can decompress this handle.
    pub open spec fn bound(&self, codec: CodecView) -> bool {
        codec.resolvable(Self::level(), NEW_ALLOC, self@)
    }

    /// The address that this handle stands for in `codec`.
    pub open spec fn addr(&self, codec: CodecView) -> u64 {
        codec.decompress(Self::level(), NEW_ALLOC, self@)
    }

    /// Whether the level of this type of handle is supported.
    pub fn is_valid() -> (ok: bool)
        ensures
            ok == Self::valid(),
    {
        CMPS_LEVEL <= 3
    }

    /// The 32 bits of the handle.
    pub fn handle(&self) -> (bits: u32)
        ensures
            bits == self@,
    {
        self._ptr
    }

    /// Whether a handle of this type can be made for `ptr`.
    pub fn can_new(codec: &Codec, ptr: u64) -> (ok: bool)
        requires
            codec.wf(),
        ensures
            ok == (Self::valid() && codec@.compressible(Self::level(), NEW_ALLOC, ptr)),
    {
        CMPS_LEVEL <= 3 && codec.can_compress(level_of(CMPS_LEVEL, STRICT), NEW_ALLOC, ptr)
    }

    /// Whether `codec` can decompress this handle.
    pub fn is_bound(&self, codec: &Codec) -> (ok: bool)
        requires
            codec.wf(),
        ensures
            ok == (Self::valid() && self.bound(codec@)),
    {
        CMPS_LEVEL <= 3 && codec.can_decompress(
            level_of(CMPS_LEVEL, STRICT),
            NEW_ALLOC,
            self._ptr,
        )
    }

    /// The address that this handle stands for: for a handle that `new` or
    /// `set_ptr` made of an aligned address, that address.
    pub fn get_ptr(&self, codec: &Codec) -> (ptr: u64)
        requires
            Self::valid(),
            codec.wf(),
            self.bound(codec@),
        ensures
            ptr == self.addr(codec@),
    {
        codec.decompress(level_of(CMPS_LEVEL, STRICT), NEW_ALLOC, self._ptr)
    }

    /// The address to read the value from.
    pub fn ptr(&self, codec: &Codec) -> (ptr: u64)
        requires
            Self::valid(),
            codec.wf(),
            self.bound(codec@),
        ensures
            ptr == self.addr(codec@),
    {
        self.get_ptr(codec)
    }

    /// The address to write the value to.
    pub fn ptr_mut(&self, codec: &Codec) -> (ptr: u64)
        requires
            Self::valid(),
            codec.wf(),
            self.bound(codec@),
        ensures
            ptr == self.addr(codec@),
    {
        self.get_ptr(codec)
    }

    /// The 32 bits that stand for `ptr`.
    fn compress(codec: &mut Codec, ptr: u64) -> (bits: u32)
        requires
            Self::valid(),
            old(codec).wf(),
            old(codec)@.compressible(Self::level(), NEW_ALLOC, ptr),
        ensures
            final(codec).wf(),
            old(codec)@.masks_kept(final(codec)@),
            old(codec)@.handles_kept(final(codec)@),
            (final(codec)@, bits) == old(codec)@.compress(Self::level(), NEW_ALLOC, ptr),
            aligned(Self::level(), ptr) ==> final(codec)@.resolvable(
                Self::level(),
                NEW_ALLOC,
                bits,
            ) && final(codec)@.decompress(Self::level(), NEW_ALLOC, bits) == ptr,
    {
        codec.compress(level_of(CMPS_LEVEL, STRICT), NEW_ALLOC, ptr)
    }

    /// Points the handle at `ptr`. The table slot that the handle may have
    /// held stays listed.
    pub fn set_ptr(&mut self, codec: &mut Codec, ptr: u64)
        requires
            Self::valid(),
            old(codec).wf(),
            old(codec)@.compressible(Self::level(), NEW_ALLOC, ptr),
        ensures
            final(codec).wf(),
            old(codec)@.masks_kept(final(codec)@),
            old(codec)@.handles_kept(final(codec)@),
            (final(codec)@, final(self)@) == old(codec)@.compress(Self::level(), NEW_ALLOC, ptr),
            aligned(Self::level(), ptr) ==> final(self).bound(final(codec)@) && final(self).addr(
                final(codec)@,
            ) == ptr,
    {
        self._ptr = Self::compress(codec, ptr);
    }

    /// A handle that stands for `ptr`.
    pub fn new(codec: &mut Codec, ptr: u64) -> (handle: Self)
        requires
            Self::valid(),
            old(codec).wf(),
            old(codec)@.compressible(Self::level(), NEW_ALLOC, ptr),
        ensures
            final(codec).wf(),
            old(codec)@.masks_kept(final(codec)@),
            old(codec)@.handles_kept(final(codec)@),
            (final(codec)@, handle@) == old(codec)@.compress(Self::level(), NEW_ALLOC, ptr),
            aligned(Self::level(), ptr) ==> handle.bound(final(codec)@) && handle.addr(
                final(codec)@,
            ) == ptr,
    {
        CmpsPtr { _ptr: Self::compress(codec, ptr), _phantom: PhantomData }
    }

    /// A handle of the given 32 bits.
    fn new_copy(ptr: u32) -> (handle: Self)
        ensures
            handle@ == ptr,
    {
        CmpsPtr { _phantom: PhantomData, _ptr: ptr }
    }

    /// Frees the table slot of the handle, if it has one.
    pub(crate) fn unlist(&self, codec: &mut Codec)
        requires
            Self::valid(),
            old(codec).wf(),
            self.bound(old(codec)@),
        ensures
            final(codec).wf(),
            final(codec)@ == old(codec)@.unlist_ptr(Self::level(), self@),
    {
        codec.unlist_ptr(level_of(CMPS_LEVEL, STRICT), self._ptr);
    }
}

impl<T, const CMPS_LEVEL: u32, const STRICT: bool, const NEW_ALLOC: bool> Clone for CmpsPtr<
    T,
    CMPS_LEVEL,
    STRICT,
    NEW_ALLOC,
> {
    /// A second handle of the same 32 bits.
    fn clone(&self) -> (copy: Self)
        ensures
            copy == *self,
    {
        Self::new_copy(self._ptr)
    }
}

impl<T, const CMPS_LEVEL: u32, const STRICT: bool, const NEW_ALLOC: bool> Copy for CmpsPtr<
    T,
    CMPS_LEVEL,
    STRICT,
    NEW_ALLOC,
> {

}

/// A handle to storage that the caller owns. It never frees anything.
pub struct CmpsRef<T, const CMPS_LEVEL: u32, const STRICT: bool> {
    _ptr: CmpsPtr<T, CMPS_LEVEL, STRICT, false>,
}

impl<T, const CMPS_LEVEL: u32, const STRICT: bool> View for CmpsRef<T, CMPS_LEVEL, STRICT> {
    type V = u32;

    /// The 32 bits of the handle.
    closed spec fn view(&self) -> u32 {
        self._ptr@
    }
}

impl<T, const CMPS_LEVEL: u32, const STRICT: bool> CmpsRef<T, CMPS_LEVEL, STRICT> {
    /// Whether the level of this type of handle is supported.
    pub open spec fn valid() -> bool {
        CMPS_LEVEL <= 3
    }

    /// The compression level of this type of handle.
    pub open spec fn level() -> i32 {
        signed_level(CMPS_LEVEL, STRICT)
    }

    /// Whether `codec` can decompress this handle.
    pub open spec fn bound(&self, codec: CodecView) -> bool {
        codec.resolvable(Self::level(), false, self@)
    }

    /// The address that this handle stands for in `codec`.
    pub open spec fn addr(&self, codec: CodecView) -> u64 {
        codec.decompress(Self::level(), false, self@)
    }

    /// Whether a handle of this type can be made for `ptr`.
    pub fn can_new(codec: &Codec, ptr: u64) -> (ok: bool)
        requires
            codec.wf(),
        ensures
            ok == (Self::valid() && codec@.compressible(Self::level(), false, ptr)),
    {
        CmpsPtr::<T, CMPS_LEVEL, STRICT, false>::can_new(codec, ptr)
    }

    /// Whether `codec` can decompress this handle.
    pub fn is_bound(&self, codec: &Codec) -> (ok: bool)
        requires
            codec.wf(),
        ensures
            ok == (Self::valid() && self.bound(codec@)),
    {
        self._ptr.is_bound(codec)
    }

    /// A handle to the storage at `ptr`, which the caller owns.
    pub fn new(codec: &mut Codec, ptr: u64) -> (handle: Self)
        requires
            Self::valid(),
            old(codec).wf(),
            old(codec)@.compressible(Self::level(), false, ptr),
        ensures
            final(codec).wf(),
            old(codec)@.masks_kept(final(codec)@),
            old(codec)@.handles_kept(final(codec)@),
            (final(codec)@, handle@) == old(codec)@.compress(Self::level(), false, ptr),
            aligned(Self::level(), ptr) ==> handle.bound(final(codec)@) && handle.addr(
                final(codec)@,
            ) == ptr,
    {
        CmpsRef { _ptr: CmpsPtr::new(codec, ptr) }
    }

    /// Points the handle at the storage at `ptr`.
    pub fn set_ptr(&mut self, codec: &mut Codec, ptr: u64)
        requires
            Self::valid(),
            old(codec).wf(),
            old(codec)@.compressible(Self::level(), false, ptr),
        ensures
            final(codec).wf(),
            old(codec)@.masks_kept(final(codec)@),
            old(codec)@.handles_kept(final(codec)@),
            (final(codec)@, final(self)@) == old(codec)@.compress(Self::level(), false, ptr),
            aligned(Self::level(), ptr) ==> final(self).bound(final(codec)@) && final(self).addr(
                final(codec)@,
            ) == ptr,
    {
        self._ptr.set_ptr(codec, ptr);
    }

    /// The address to read the value from.
    pub fn ptr(&self, codec: &Codec) -> (ptr: u64)
        requires
            Self::valid(),
            codec.wf(),
            self.bound(codec@),
        ensures
            ptr == self.addr(codec@),
    {
        self._ptr.ptr(codec)
    }

    /// The address to write the value to.
    pub fn ptr_mut(&self, codec: &Codec) -> (ptr: u64)
        requires
            Self::valid(),
            codec.wf(),
            self.bound(codec@),
        ensures
            ptr == self.addr(codec@),
    {
        self._ptr.ptr_mut(codec)
    }
}

/// The one handle to storage that it owns.
pub struct CmpsUnq<T, const CMPS_LEVEL: u32, const STRICT: bool> {
    _ptr: CmpsPtr<T, CMPS_LEVEL, STRICT, true>,
}

impl<T, const CMPS_LEVEL: u32, const STRICT: bool> View for CmpsUnq<T, CMPS_LEVEL, STRICT> {
    type V = u32;

    /// The 32 bits of the handle.
    closed spec fn view(&self) -> u32 {
        self._ptr@
    }
}

impl<T, const CMPS_LEVEL: u32, const STRICT: bool> CmpsUnq<T, CMPS_LEVEL, STRICT> {
    /// Whether the level of this type of handle is supported.
    pub open spec fn valid() -> bool {
        CMPS_LEVEL <= 3
    }

    /// The compression level of this type of handle.
    pub open spec fn level() -> i32 {
        signed_level(CMPS_LEVEL, STRICT)
    }

    /// Whether `codec` can decompress this handle.
    pub open spec fn bound(&self, codec: CodecView) -> bool {
        codec.resolvable(Self::level(), true, self@)
    }

    /// The address that this handle stands for in `codec`.
    pub open spec fn addr(&self, codec: CodecView) -> u64 {
        codec.decompress(Self::level(), true, self@)
    }

    /// Whether a handle of this type can be made for `ptr`.
    pub fn can_new(codec: &Codec, ptr: u64) -> (ok: bool)
        requires
            codec.wf(),
        ensures
            ok == (Self::valid() && codec@.compressible(Self::level(), true, ptr)),
    {
        CmpsPtr::<T, CMPS_LEVEL, STRICT, true>::can_new(codec, ptr)
    }

    /// Whether `codec` can decompress this handle.
    pub fn is_bound(&self, codec: &Codec) -> (ok: bool)
        requires
            codec.wf(),
        ensures
            ok == (Self::valid() && self.bound(codec@)),
    {
        self._ptr.is_bound(codec)
    }

    /// The handle that owns the storage which was allocated at `ptr`.
    pub fn new(codec: &mut Codec, ptr: u64) -> (handle: Self)
        requires
            Self::valid(),
            old(codec).wf(),
            old(codec)@.compressible(Self::level(), true, ptr),
        ensures
            final(codec).wf(),
            old(codec)@.masks_kept(final(codec)@),
            old(codec)@.handles_kept(final(codec)@),
            (final(codec)@, handle@) == old(codec)@.compress(Self::level(), true, ptr),
            aligned(Self::level(), ptr) ==> handle.bound(final(codec)@) && handle.addr(
                final(codec)@,
            ) == ptr,
    {
        CmpsUnq { _ptr: CmpsPtr::new(codec, ptr) }
    }

    /// The address to write the value to.
    pub fn ptr_mut(&self, codec: &Codec) -> (ptr: u64)
        requires
            Self::valid(),
            codec.wf(),
            self.bound(codec@),
        ensures
            ptr == self.addr(codec@),
    {
        self._ptr.ptr_mut(codec)
    }

    /// The address to read the value from.
    pub fn ptr(&self, codec: &Codec) -> (ptr: u64)
        requires
            Self::valid(),
            codec.wf(),
            self.bound(codec@),
        ensures
            ptr == self.addr(codec@),
    {
        self._ptr.ptr(codec)
    }

    /// Gives the handle up. Its table slot, if it has one, is freed, and the
    /// address of the storage is returned for the caller to free.
    pub fn drop(self, codec: &mut Codec) -> (freed: u64)
        requires
            Self::valid(),
            old(codec).wf(),
            self.bound(old(codec)@),
        ensures
            final(codec).wf(),
            final(codec)@ == old(codec)@.unlist_ptr(Self::level(), self@),
            freed == self.addr(old(codec)@),
    {
        let freed = self._ptr.ptr(codec);
        self._ptr.unlist(codec);
        freed
    }
}

} // verus!
