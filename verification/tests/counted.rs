use rcmpsptr::codec::Codec;
use rcmpsptr::counted::{Access, CmpsCnt};
use rcmpsptr::counter::Counter;
use std::collections::HashMap;
use std::mem::size_of;

const A: u64 = 0x7f12_3456_7890;
const B: u64 = 0x7f12_3456_78a0;
const FAR: u64 = 0x7f92_3456_7890;

#[derive(Clone, Debug, PartialEq)]
struct Node {
    field: i32,
    cnt: u32,
}

impl Counter for Node {
    fn count(&self) -> u32 {
        self.cnt
    }

    fn increase_count(&mut self) -> usize {
        self.cnt += 1;
        self.cnt as usize
    }

    fn decrease_count(&mut self) -> usize {
        self.cnt -= 1;
        self.cnt as usize
    }

    fn current_count(&self) -> usize {
        self.cnt as usize
    }

    fn reset_count(&mut self) {
        self.cnt = 1;
    }
}

#[test]
fn counted_handle_is_four_bytes_wide() {
    assert_eq!(size_of::<CmpsCnt<Node, true, 3, false>>(), 4);
    assert_eq!(size_of::<CmpsCnt<u32, false, 0, false>>(), 4);
}

#[test]
fn new_counted_handle_has_one_owner() {
    let mut codec = Codec::new();
    let mut node = Node { field: 7, cnt: 99 };
    assert!(CmpsCnt::<Node, false, 3, false>::can_new(&codec, A));
    let handle = CmpsCnt::<Node, false, 3, false>::new(&mut codec, A, &mut node);
    assert_eq!(node.cnt, 1);
    assert_eq!(node.field, 7);
    assert!(handle.is_bound(&codec));
    assert_eq!(handle.ptr(&codec), A);
    assert_eq!(codec.mask(3, true), Some(0x7f10_0000_0000));
}

#[test]
fn clone_adds_an_owner_of_the_same_storage() {
    let mut codec = Codec::new();
    let mut node = Node { field: 7, cnt: 0 };
    let a = CmpsCnt::<Node, false, 3, false>::new(&mut codec, A, &mut node);
    let b = a.clone(&mut node);
    let c = b.clone(&mut node);
    assert_eq!(node.cnt, 3);
    assert_eq!(a.ptr(&codec), A);
    assert_eq!(b.ptr(&codec), A);
    assert_eq!(c.ptr(&codec), A);
}

#[test]
fn storage_is_freed_by_the_last_drop_only() {
    for clones in [0usize, 1, 2, 5, 40] {
        let mut codec = Codec::new();
        let mut node = Node { field: 0, cnt: 0 };
        let first = CmpsCnt::<Node, false, 2, false>::new(&mut codec, A, &mut node);
        let mut owners = Vec::new();
        for _ in 0..clones {
            owners.push(first.clone(&mut node));
        }
        owners.push(first);
        assert_eq!(node.cnt as usize, clones + 1);
        let mut freed = Vec::new();
        let mut left = owners.len();
        for owner in owners {
            left -= 1;
            let outcome = owner.drop(&mut codec, &mut node);
            assert_eq!(outcome.is_some(), left == 0);
            assert_eq!(node.cnt as usize, left);
            if let Some(addr) = outcome {
                freed.push(addr);
            }
        }
        assert_eq!(freed, vec![A]);
    }
}

#[test]
fn last_drop_frees_the_table_slot() {
    let mut codec = Codec::new();
    let mut near = Node { field: 0, cnt: 0 };
    let mut far = Node { field: 0, cnt: 0 };
    let a = CmpsCnt::<Node, false, 3, false>::new(&mut codec, A, &mut near);
    let b = CmpsCnt::<Node, false, 3, false>::new(&mut codec, FAR, &mut far);
    let c = b.clone(&mut far);
    assert_eq!(codec.table().resolve(1), FAR);
    assert_eq!(b.drop(&mut codec, &mut far), None);
    assert_eq!(codec.table().resolve(1), FAR);
    assert_eq!(c.ptr(&codec), FAR);
    assert_eq!(c.drop(&mut codec, &mut far), Some(FAR));
    assert_eq!(codec.table().resolve(1), 0);
    assert_eq!(a.drop(&mut codec, &mut near), Some(A));
}

#[test]
fn write_is_in_place_without_copy_on_write() {
    let mut codec = Codec::new();
    let mut node = Node { field: 1, cnt: 0 };
    let a = CmpsCnt::<Node, false, 3, false>::new(&mut codec, A, &mut node);
    assert_eq!(a.ptr_mut(&codec, &node), Access::Direct(A));
    let b = a.clone(&mut node);
    assert_eq!(a.ptr_mut(&codec, &node), Access::Direct(A));
    assert_eq!(b.ptr_mut(&codec, &node), Access::Direct(A));
}

#[test]
fn write_asks_for_a_copy_of_shared_storage_under_copy_on_write() {
    let mut codec = Codec::new();
    let mut node = Node { field: 1, cnt: 0 };
    let a = CmpsCnt::<Node, true, 3, false>::new(&mut codec, A, &mut node);
    assert_eq!(a.ptr_mut(&codec, &node), Access::Direct(A));
    let b = a.clone(&mut node);
    assert_eq!(a.ptr_mut(&codec, &node), Access::Detach(A));
    assert_eq!(b.ptr_mut(&codec, &node), Access::Detach(A));
    assert_eq!(b.drop(&mut codec, &mut node), None);
    assert_eq!(a.ptr_mut(&codec, &node), Access::Direct(A));
}

#[test]
fn detach_of_the_only_owner_changes_nothing() {
    let mut codec = Codec::new();
    let mut node = Node { field: 1, cnt: 0 };
    let mut spare = Node { field: 5, cnt: 9 };
    let mut a = CmpsCnt::<Node, true, 3, false>::new(&mut codec, A, &mut node);
    assert!(!a.detach(&mut codec, &mut node, FAR, &mut spare));
    assert_eq!(a.ptr(&codec), A);
    assert_eq!(node, Node { field: 1, cnt: 1 });
    assert_eq!(spare, Node { field: 5, cnt: 9 });
    assert_eq!(codec.table().len(), 0);
}

#[test]
fn detach_moves_one_owner_to_the_copy() {
    let mut codec = Codec::new();
    let mut node = Node { field: 1, cnt: 0 };
    let a = CmpsCnt::<Node, true, 3, false>::new(&mut codec, A, &mut node);
    let mut b = a.clone(&mut node);
    let c = a.clone(&mut node);
    let mut copy = node.clone();
    assert!(b.detach(&mut codec, &mut node, B, &mut copy));
    assert_eq!(node.cnt, 2);
    assert_eq!(copy.cnt, 1);
    assert_eq!(a.ptr(&codec), A);
    assert_eq!(c.ptr(&codec), A);
    assert_eq!(b.ptr(&codec), B);
    assert_eq!(b.ptr_mut(&codec, &copy), Access::Direct(B));
    assert_eq!(a.ptr_mut(&codec, &node), Access::Detach(A));
}

#[test]
fn detach_to_a_far_copy_uses_the_table() {
    let mut codec = Codec::new();
    let mut node = Node { field: 1, cnt: 0 };
    let a = CmpsCnt::<Node, true, 1, false>::new(&mut codec, A, &mut node);
    let mut b = a.clone(&mut node);
    let mut copy = node.clone();
    assert!(b.detach(&mut codec, &mut node, FAR, &mut copy));
    assert_eq!(b.ptr(&codec), FAR);
    assert_eq!(a.ptr(&codec), A);
    assert_eq!(codec.table().resolve(1), FAR);
    assert_eq!(b.drop(&mut codec, &mut copy), Some(FAR));
    assert_eq!(codec.table().resolve(1), 0);
    assert_eq!(a.drop(&mut codec, &mut node), Some(A));
}

#[test]
fn copy_on_write_isolates_the_writer() {
    let mut codec = Codec::new();
    let mut memory: HashMap<u64, Node> = HashMap::new();
    memory.insert(A, Node { field: 1, cnt: 0 });
    let a = CmpsCnt::<Node, true, 3, false>::new(&mut codec, A, memory.get_mut(&A).unwrap());
    let mut b = a.clone(memory.get_mut(&A).unwrap());
    assert_eq!(memory[&A].cnt, 2);

    let access = b.ptr_mut(&codec, &memory[&A]);
    assert_eq!(access, Access::Detach(A));
    let mut shared = memory.remove(&A).unwrap();
    let mut copy = shared.clone();
    assert!(b.detach(&mut codec, &mut shared, B, &mut copy));
    memory.insert(A, shared);
    memory.insert(B, copy);
    let target = match b.ptr_mut(&codec, &memory[&b.ptr(&codec)]) {
        Access::Direct(addr) => addr,
        Access::Detach(_) => panic!("the copy has one owner"),
    };
    memory.get_mut(&target).unwrap().field = 42;

    assert_eq!(memory[&a.ptr(&codec)].field, 1);
    assert_eq!(memory[&b.ptr(&codec)].field, 42);
    assert_eq!(memory[&a.ptr(&codec)].cnt, 1);
    assert_eq!(memory[&b.ptr(&codec)].cnt, 1);
    assert_eq!(a.ptr(&codec), A);
    assert_eq!(b.ptr(&codec), B);
}

#[test]
fn plain_integer_is_its_own_counter() {
    let mut codec = Codec::new();
    let mut count: u32 = 0;
    let a = CmpsCnt::<u32, false, 0, false>::new(&mut codec, A, &mut count);
    let b = a.clone(&mut count);
    assert_eq!(count, 2);
    assert_eq!(a.ptr(&codec), A);
    assert_eq!(a.drop(&mut codec, &mut count), None);
    assert_eq!(b.drop(&mut codec, &mut count), Some(A));
    assert_eq!(count, 0);
    assert_eq!(codec.table().resolve(1), 0);
}
