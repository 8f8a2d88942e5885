use pi_kernel::stack_vec::{Overflow, StackVec};

#[test]
fn pushes_fill_capacity_then_overflow() {
    let mut v = StackVec::new(vec![0u32; 3]);
    assert_eq!(v.capacity(), 3);
    assert!(v.is_empty());
    assert_eq!(v.push(10), Ok(()));
    assert_eq!(v.push(20), Ok(()));
    assert_eq!(v.push(30), Ok(()));
    assert!(v.is_full());
    assert_eq!(v.push(40), Err(Overflow));
    assert_eq!(v.len(), 3);
    assert_eq!(v.get(0), 10);
    assert_eq!(v.get(1), 20);
    assert_eq!(v.get(2), 30);
}

#[test]
fn zero_capacity_refuses_every_push() {
    let mut v: StackVec<u8> = StackVec::new(Vec::new());
    assert_eq!(v.push(1), Err(Overflow));
    assert_eq!(v.len(), 0);
    assert!(v.is_empty());
}

#[test]
fn pop_removes_last_and_frees_a_slot() {
    let mut v = StackVec::new(vec![0u8; 2]);
    assert_eq!(v.pop(), None);
    v.push(1).unwrap();
    v.push(2).unwrap();
    assert_eq!(v.push(3), Err(Overflow));
    assert_eq!(v.pop(), Some(2));
    assert_eq!(v.len(), 1);
    assert_eq!(v.push(4), Ok(()));
    assert_eq!(v.get(1), 4);
}
