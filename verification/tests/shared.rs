use rcmpsptr::codec::Codec;
use rcmpsptr::counted::Access;
use rcmpsptr::counter::{AtomicCounter, Counter};
use rcmpsptr::shared::{CmpsShr, COUNTER_LEVEL};
use std::collections::HashMap;
use std::mem::size_of;

const A: u64 = 0x7f12_3456_7890;
const A_COUNT: u64 = 0x7f12_3456_7990;
const B: u64 = 0x7f12_3456_78a0;
const B_COUNT: u64 = 0x7f12_3456_79a0;
const FAR: u64 = 0x7f92_3456_7890;
const FAR_COUNT: u64 = 0x7f92_3456_7990;

#[derive(Clone, Debug, PartialEq)]
struct Pair {
    x: i32,
    y: i32,
}

#[test]
fn shared_handle_is_eight_bytes_wide() {
    assert_eq!(size_of::<CmpsShr<Pair, u32, true, 3, false>>(), 8);
    assert_eq!(size_of::<CmpsShr<[u8; 64], AtomicCounter, false, 0, false>>(), 8);
    assert_eq!(COUNTER_LEVEL, 3);
}

#[test]
fn new_shared_handle_has_one_owner() {
    let mut codec = Codec::new();
    let mut counter: u32 = 55;
    assert!(CmpsShr::<Pair, u32, false, 2, false>::can_new(&codec, A, A_COUNT));
    let handle = CmpsShr::<Pair, u32, false, 2, false>::new(&mut codec, A, A_COUNT, &mut counter);
    assert_eq!(counter, 1);
    assert!(handle.is_bound(&codec));
    assert_eq!(handle.ptr(&codec), A);
    assert_eq!(handle.counter_ptr(&codec), A_COUNT);
    assert_eq!(codec.mask(2, true), Some(0x7f12_0000_0000));
    assert_eq!(codec.mask(3, true), Some(0x7f10_0000_0000));
}

#[test]
fn counter_is_compressed_before_the_value() {
    let mut codec = Codec::new();
    let mut counter: u32 = 0;
    let handle = CmpsShr::<Pair, u32, false, 3, false>::new(&mut codec, FAR, A_COUNT, &mut counter);
    assert_eq!(codec.mask(3, true), Some(0x7f10_0000_0000));
    assert_eq!(codec.table().len(), 1);
    assert_eq!(codec.table().resolve(1), FAR);
    assert_eq!(handle.ptr(&codec), FAR);
    assert_eq!(handle.counter_ptr(&codec), A_COUNT);
}

#[test]
fn strict_value_with_a_counter_elsewhere() {
    let mut codec = Codec::new();
    let mut counter: u32 = 0;
    let mut other: u32 = 0;
    let a = CmpsShr::<Pair, u32, false, 3, true>::new(&mut codec, A, FAR_COUNT, &mut counter);
    assert_eq!(codec.mask(-3, true), Some(0x7f10_0000_0000));
    assert_eq!(codec.mask(3, true), Some(0x7f90_0000_0000));
    assert!(CmpsShr::<Pair, u32, false, 3, true>::can_new(&codec, B, B_COUNT));
    assert!(!CmpsShr::<Pair, u32, false, 3, true>::can_new(&codec, FAR, B_COUNT));
    assert!(!CmpsShr::<Pair, u32, false, 4, true>::can_new(&codec, B, B_COUNT));
    let b = CmpsShr::<Pair, u32, false, 3, true>::new(&mut codec, B, B_COUNT, &mut other);
    assert_eq!(b.counter_ptr(&codec), B_COUNT);
    assert_eq!(b.ptr(&codec), B);
    assert_eq!(a.ptr(&codec), A);
    assert_eq!(a.counter_ptr(&codec), FAR_COUNT);
    assert_eq!(codec.table().resolve(1), B_COUNT);
}

#[test]
fn clone_adds_an_owner_of_the_same_value_and_counter() {
    let mut codec = Codec::new();
    let mut counter = AtomicCounter::new(0);
    let a = CmpsShr::<Pair, AtomicCounter, false, 3, false>::new(&mut codec, A, A_COUNT, &mut counter);
    let b = a.clone(&mut counter);
    assert_eq!(counter.current_count(), 2);
    assert_eq!(b.ptr(&codec), A);
    assert_eq!(b.counter_ptr(&codec), A_COUNT);
    assert_eq!(a.ptr(&codec), A);
}

#[test]
fn value_and_counter_are_freed_by_the_last_drop_only() {
    for clones in [0usize, 1, 3, 17] {
        let mut codec = Codec::new();
        let mut counter = AtomicCounter::new(0);
        let first =
            CmpsShr::<Pair, AtomicCounter, false, 1, false>::new(&mut codec, A, A_COUNT, &mut counter);
        let mut owners = Vec::new();
        for _ in 0..clones {
            owners.push(first.clone(&mut counter));
        }
        owners.push(first);
        assert_eq!(counter.current_count(), clones + 1);
        let mut freed = Vec::new();
        let mut left = owners.len();
        for owner in owners {
            left -= 1;
            let outcome = owner.drop(&mut codec, &mut counter);
            assert_eq!(outcome.is_some(), left == 0);
            assert_eq!(counter.current_count(), left);
            if let Some(pair) = outcome {
                freed.push(pair);
            }
        }
        assert_eq!(freed, vec![(A, A_COUNT)]);
    }
}

#[test]
fn last_drop_frees_both_table_slots() {
    let mut codec = Codec::new();
    let mut near: u32 = 0;
    let mut far: u32 = 0;
    let a = CmpsShr::<Pair, u32, false, 3, false>::new(&mut codec, A, A_COUNT, &mut near);
    let b = CmpsShr::<Pair, u32, false, 3, false>::new(&mut codec, FAR, FAR_COUNT, &mut far);
    let c = b.clone(&mut far);
    assert_eq!(codec.table().len(), 2);
    assert_eq!(codec.table().resolve(1), FAR_COUNT);
    assert_eq!(codec.table().resolve(2), FAR);
    assert_eq!(c.drop(&mut codec, &mut far), None);
    assert_eq!(codec.table().resolve(1), FAR_COUNT);
    assert_eq!(codec.table().resolve(2), FAR);
    assert_eq!(b.drop(&mut codec, &mut far), Some((FAR, FAR_COUNT)));
    assert_eq!(codec.table().resolve(1), 0);
    assert_eq!(codec.table().resolve(2), 0);
    assert_eq!(a.drop(&mut codec, &mut near), Some((A, A_COUNT)));
}

#[test]
fn write_access_follows_the_policy_and_the_count() {
    let mut codec = Codec::new();
    let mut counter: u32 = 0;
    let mut other: u32 = 0;
    let a = CmpsShr::<Pair, u32, true, 3, false>::new(&mut codec, A, A_COUNT, &mut counter);
    let p = CmpsShr::<Pair, u32, false, 3, false>::new(&mut codec, B, B_COUNT, &mut other);
    assert_eq!(a.ptr_mut(&codec, &counter), Access::Direct(A));
    let b = a.clone(&mut counter);
    let q = p.clone(&mut other);
    assert_eq!(a.ptr_mut(&codec, &counter), Access::Detach(A));
    assert_eq!(b.ptr_mut(&codec, &counter), Access::Detach(A));
    assert_eq!(p.ptr_mut(&codec, &other), Access::Direct(B));
    assert_eq!(q.ptr_mut(&codec, &other), Access::Direct(B));
}

#[test]
fn detach_of_the_only_owner_keeps_value_and_counter() {
    let mut codec = Codec::new();
    let mut counter: u32 = 0;
    let mut spare: u32 = 9;
    let mut a = CmpsShr::<Pair, u32, true, 3, false>::new(&mut codec, A, A_COUNT, &mut counter);
    assert!(!a.detach(&mut codec, &mut counter, FAR, FAR_COUNT, &mut spare));
    assert_eq!(a.ptr(&codec), A);
    assert_eq!(a.counter_ptr(&codec), A_COUNT);
    assert_eq!(counter, 1);
    assert_eq!(spare, 9);
    assert_eq!(codec.table().len(), 0);
}

#[test]
fn detach_moves_one_owner_to_a_copy_with_a_counter_of_its_own() {
    let mut codec = Codec::new();
    let mut counter = AtomicCounter::new(0);
    let mut fresh = AtomicCounter::new(0);
    let a = CmpsShr::<Pair, AtomicCounter, true, 3, false>::new(&mut codec, A, A_COUNT, &mut counter);
    let mut b = a.clone(&mut counter);
    let c = a.clone(&mut counter);
    assert!(CmpsShr::<Pair, AtomicCounter, true, 3, false>::can_detach(&codec, B, B_COUNT));
    assert!(b.detach(&mut codec, &mut counter, B, B_COUNT, &mut fresh));
    assert_eq!(counter.current_count(), 2);
    assert_eq!(fresh.current_count(), 1);
    assert_eq!(b.ptr(&codec), B);
    assert_eq!(b.counter_ptr(&codec), B_COUNT);
    assert_eq!(a.ptr(&codec), A);
    assert_eq!(a.counter_ptr(&codec), A_COUNT);
    assert_eq!(c.ptr(&codec), A);
    assert_eq!(b.ptr_mut(&codec, &fresh), Access::Direct(B));
    assert_eq!(b.drop(&mut codec, &mut fresh), Some((B, B_COUNT)));
    assert_eq!(a.drop(&mut codec, &mut counter), None);
    assert_eq!(c.drop(&mut codec, &mut counter), Some((A, A_COUNT)));
}

#[test]
fn detach_lists_the_copy_before_its_counter() {
    let mut codec = Codec::new();
    let mut counter: u32 = 0;
    let mut fresh: u32 = 0;
    let a = CmpsShr::<Pair, u32, true, 3, false>::new(&mut codec, A, A_COUNT, &mut counter);
    let mut b = a.clone(&mut counter);
    assert!(b.detach(&mut codec, &mut counter, FAR, FAR_COUNT, &mut fresh));
    assert_eq!(codec.table().resolve(1), FAR);
    assert_eq!(codec.table().resolve(2), FAR_COUNT);
    assert_eq!(b.ptr(&codec), FAR);
    assert_eq!(b.counter_ptr(&codec), FAR_COUNT);
    assert_eq!(a.ptr(&codec), A);
}

#[test]
fn copy_on_write_isolates_the_writer_of_a_shared_value() {
    let mut codec = Codec::new();
    let mut values: HashMap<u64, Pair> = HashMap::new();
    let mut counter = AtomicCounter::new(0);
    let mut fresh = AtomicCounter::new(0);
    values.insert(A, Pair { x: 1, y: 2 });
    let a = CmpsShr::<Pair, AtomicCounter, true, 3, false>::new(&mut codec, A, A_COUNT, &mut counter);
    let mut b = a.clone(&mut counter);

    let from = match b.ptr_mut(&codec, &counter) {
        Access::Detach(addr) => addr,
        Access::Direct(_) => panic!("the value has two owners"),
    };
    let copy = values[&from].clone();
    values.insert(B, copy);
    assert!(b.detach(&mut codec, &mut counter, B, B_COUNT, &mut fresh));
    let target = match b.ptr_mut(&codec, &fresh) {
        Access::Direct(addr) => addr,
        Access::Detach(_) => panic!("the copy has one owner"),
    };
    values.get_mut(&target).unwrap().x = 42;

    assert_eq!(values[&a.ptr(&codec)], Pair { x: 1, y: 2 });
    assert_eq!(values[&b.ptr(&codec)], Pair { x: 42, y: 2 });
    assert_eq!(counter.current_count(), 1);
    assert_eq!(fresh.current_count(), 1);
}
