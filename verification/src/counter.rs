//! Counters of owners: a plain integer for handles that stay on one thread,
//! and an atomic counter for handles that are shared between threads.

use vstd::prelude::*;
use std::sync::atomic::AtomicU32;
use std::sync::atomic::Ordering;

verus! {

/// The largest count that a counter holds.
pub const MAX_COUNT: u32 = 0xffff_ffff;

/// A count of the owners of one piece of storage.
///
/// A counter is created with one owner. It never goes below zero, and the
/// storage that it guards is freed when it reaches zero. A handle that is
/// cloned or dropped on more than one thread needs a counter that is safe to
/// change from several threads, such as `AtomicCounter`.
pub trait Counter {
    /// The number of owners: what `current_count` returns.
    spec fn count(&self) -> u32;

    /// Adds one owner and returns the new count.
    fn increase_count(&mut self) -> (n: usize)
        requires
            old(self).count() < MAX_COUNT,
        ensures
            final(self).count() == old(self).count() + 1,
            n == final(self).count(),
    ;

    /// Takes one owner away and returns the new count.
    fn decrease_count(&mut self) -> (n: usize)
        requires
            old(self).count() > 0,
        ensures
            final(self).count() == old(self).count() - 1,
            n == final(self).count(),
    ;

    /// The number of owners.
    fn current_count(&self) -> (n: usize)
        ensures
            n == self.count(),
    ;

    /// Sets the count to one owner.
    fn reset_count(&mut self)
        ensures
            final(self).count() == 1,
    ;
}

/// The plain counter, for handles that stay on one thread.
impl Counter for u32 {
    open spec fn count(&self) -> u32 {
        *self
    }

    fn increase_count(&mut self) -> (n: usize) {
        let cnt: u32 = *self + 1;
        *self = cnt;
        cnt as usize
    }

    fn decrease_count(&mut self) -> (n: usize) {
        let cnt: u32 = *self - 1;
        *self = cnt;
        cnt as usize
    }

    fn current_count(&self) -> (n: usize) {
        *self as usize
    }

    fn reset_count(&mut self) {
        *self = 1;
    }
}

/// A counter in an atomic integer, for handles that are cloned and dropped on
/// more than one thread. Every change is one atomic operation with
/// sequentially consistent ordering.
///
/// The integer is hidden from the verifier and private to this module: the
/// standard library changes an atomic through a shared borrow, which the
/// verifier takes to change nothing. Only the functions below reach the
/// integer, and each of them that changes it takes an exclusive borrow.
#[verifier::external_body]
pub struct AtomicCounter {
    cell: AtomicU32,
}

/// The integer that an atomic counter holds.
pub uninterp spec fn atomic_count(counter: AtomicCounter) -> u32;

/// Calls `AtomicU32::new`.
///
/// Not proved, and taken from the documentation of the standard library: the
/// call makes an atomic integer that holds `count`.
#[verifier::external_body]
fn atomic_new(count: u32) -> (counter: AtomicCounter)
    ensures
        atomic_count(counter) == count,
{
    AtomicCounter { cell: AtomicU32::new(count) }
}

/// Calls `AtomicU32::fetch_add` with sequentially consistent ordering.
///
/// Not proved, and taken from the documentation of the standard library: the
/// call adds `amount` to the integer in the counter, wrapping around on
/// overflow, and returns the integer that was there before.
#[verifier::external_body]
fn atomic_fetch_add(counter: &mut AtomicCounter, amount: u32) -> (previous: u32)
    ensures
        previous == atomic_count(*old(counter)),
        atomic_count(*final(counter)) == (previous + amount) % 0x1_0000_0000,
{
    counter.cell.fetch_add(amount, Ordering::SeqCst)
}

/// Calls `AtomicU32::fetch_sub` with sequentially consistent ordering.
///
/// Not proved, and taken from the documentation of the standard library: the
/// call subtracts `amount` from the integer in the counter, wrapping around
/// on overflow, and returns the integer that was there before.
#[verifier::external_body]
fn atomic_fetch_sub(counter: &mut AtomicCounter, amount: u32) -> (previous: u32)
    ensures
        previous == atomic_count(*old(counter)),
        atomic_count(*final(counter)) == (previous - amount) % 0x1_0000_0000,
{
    counter.cell.fetch_sub(amount, Ordering::SeqCst)
}

/// Calls `AtomicU32::load` with sequentially consistent ordering.
///
/// Not proved, and taken from the documentation of the standard library: the
/// call returns the integer in the counter.
#[verifier::external_body]
fn atomic_load(counter: &AtomicCounter) -> (value: u32)
    ensures
        value == atomic_count(*counter),
{
    counter.cell.load(Ordering::SeqCst)
}

/// Calls `AtomicU32::store` with sequentially consistent ordering.
///
/// Not proved, and taken from the documentation of the standard library: the
/// call puts `value` in the counter.
#[verifier::external_body]
fn atomic_store(counter: &mut AtomicCounter, value: u32)
    ensures
        atomic_count(*final(counter)) == value,
{
    counter.cell.store(value, Ordering::SeqCst)
}

impl AtomicCounter {
    /// An atomic counter of `count` owners.
    pub fn new(count: u32) -> (counter: Self)
        ensures
            counter.count() == count,
    {
        atomic_new(count)
    }
}

impl Counter for AtomicCounter {
    open spec fn count(&self) -> u32 {
        atomic_count(*self)
    }

    fn increase_count(&mut self) -> (n: usize) {
        let previous: u32 = atomic_fetch_add(self, 1);
        (previous + 1) as usize
    }

    fn decrease_count(&mut self) -> (n: usize) {
        let previous: u32 = atomic_fetch_sub(self, 1);
        (previous - 1) as usize
    }

    fn current_count(&self) -> (n: usize) {
        atomic_load(self) as usize
    }

    fn reset_count(&mut self) {
        atomic_store(self, 1);
    }
}

} // verus!
