//! Compact 32-bit handles that stand in for 64-bit heap addresses.
//!
//! A [`Codec`] turns an address into a handle of four bytes and back. It keeps
//! the high bits that the addresses of one compression level and one origin
//! share, the mask, and shifts the alignment bits out of the low end. An
//! address that the mask cannot represent goes to a [`FallbackTable`], and its
//! handle holds an index.
//!
//! The handles are built on the codec: [`CmpsRef`] to storage that the caller
//! owns, [`CmpsUnq`] as the one owner of its storage, and [`CmpsCnt`] and
//! [`CmpsShr`] as one owner among several, with a [`Counter`] of the owners and
//! an optional copy on write.
//!
//! The library computes handles and addresses and keeps the counts. It does
//! not touch the storage itself: allocating, copying, dereferencing and
//! freeing are left to the caller, who is told which address to use and when
//! to free it.

pub mod codec;
pub mod counted;
pub mod counter;
pub mod level;
pub mod ptr;
pub mod shared;
pub mod table;
pub mod theorems;

pub use crate::codec::Codec;
pub use crate::counted::{Access, CmpsCnt};
pub use crate::counter::{AtomicCounter, Counter};
pub use crate::ptr::{CmpsPtr, CmpsRef, CmpsUnq};
pub use crate::shared::CmpsShr;
pub use crate::table::FallbackTable;
