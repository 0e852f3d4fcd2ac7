use atomic_queue::MyAtomicQueue;

#[test]
fn push_two_elements_succesful() {
    let mut q = MyAtomicQueue::new(2);

    assert_eq!(q.push('a'), Ok(()));
    // The final offset is never usable: a queue of capacity 2 accepts one value.
    assert_eq!(q.push('b'), Err('b'));
}

#[test]
fn pop_element() {
    let mut q = MyAtomicQueue::new(3);

    assert_eq!(q.push(10), Ok(()));
    assert_eq!(q.push(20), Ok(()));
    assert_eq!(q.push(30), Err(30));

    assert_eq!(q.pop(), Some(10));
    assert!(!q.pop().is_none());
}

#[test]
fn get_capacity() {
    let q = MyAtomicQueue::<i32>::new(50);

    assert_eq!(q.capacity(), 50);
}

#[test]
fn get_len() {
    let mut q = MyAtomicQueue::new(100);

    assert_eq!(q.len(), 0);

    q.push(10).unwrap();
    assert_eq!(q.len(), 1);

    q.push(20).unwrap();
    assert_eq!(q.len(), 2);
}

#[test]
fn check_emptiness() {
    let mut q = MyAtomicQueue::new(100);

    assert!(q.is_empty());

    q.push(1).unwrap();
    assert!(!q.is_empty());
}

#[test]
fn check_fulness() {
    let mut q = MyAtomicQueue::new(1);

    // tail - head + 1 == capacity already holds for a fresh queue of capacity 1.
    assert!(q.is_full());

    assert_eq!(q.push(1), Err(1));
    assert!(q.is_full());
}

#[test]
fn fresh_queue_is_empty_for_several_capacities() {
    for c in [1usize, 2, 3, 17, 1000] {
        let q = MyAtomicQueue::<u8>::new(c);
        assert_eq!(q.len(), 0);
        assert!(q.is_empty());
        assert_eq!(q.capacity(), c);
    }
}

#[test]
fn one_push_gives_length_one() {
    let mut q = MyAtomicQueue::new(5);
    assert_eq!(q.push(7u64), Ok(()));
    assert_eq!(q.len(), 1);
    assert!(!q.is_empty());
}

#[test]
fn push_after_capacity_minus_one_is_refused() {
    let c: usize = 6;
    let mut q = MyAtomicQueue::new(c);
    for i in 0..(c - 1) {
        assert_eq!(q.push(i as u32), Ok(()));
    }
    assert_eq!(q.len(), c - 1);
    assert_eq!(q.push(99), Err(99));
    assert_eq!(q.len(), c - 1);
}

#[test]
fn refused_value_is_returned_unchanged() {
    let mut q = MyAtomicQueue::new(1);
    let s = String::from("payload");
    assert_eq!(q.push(s), Err(String::from("payload")));
}

#[test]
fn pop_on_empty_returns_none() {
    let mut q = MyAtomicQueue::<i64>::new(4);
    assert_eq!(q.pop(), None);
    assert_eq!(q.pop(), None);
    assert!(q.is_empty());
    assert_eq!(q.push(-3), Ok(()));
    assert_eq!(q.pop(), Some(-3));
    assert_eq!(q.pop(), None);
}

#[test]
fn values_come_out_in_push_order() {
    let mut q = MyAtomicQueue::new(10);
    for v in [5, 3, 8, 1] {
        q.push(v).unwrap();
    }
    assert_eq!(q.pop(), Some(5));
    q.push(9).unwrap();
    assert_eq!(q.pop(), Some(3));
    assert_eq!(q.pop(), Some(8));
    assert_eq!(q.pop(), Some(1));
    assert_eq!(q.pop(), Some(9));
    assert_eq!(q.pop(), None);
}

#[test]
fn distinct_pushes_all_land_once() {
    let n: usize = 8;
    let mut q = MyAtomicQueue::new(n + 1);
    let mut ok: usize = 0;
    for v in 0..n {
        if q.push(100 + v).is_ok() {
            ok += 1;
        }
    }
    assert_eq!(ok, n);
    assert_eq!(q.len(), ok);
    let mut seen = Vec::new();
    while let Some(v) = q.pop() {
        assert!(!seen.contains(&v));
        seen.push(v);
    }
    assert_eq!(seen, (0..n).map(|v| 100 + v).collect::<Vec<_>>());
}

#[test]
fn round_trip_returns_the_value() {
    let mut q = MyAtomicQueue::new(2);
    let v = vec![1u8, 2, 3];
    assert_eq!(q.push(v.clone()), Ok(()));
    assert_eq!(q.pop(), Some(v));
    assert_eq!(q.pop(), None);
    assert!(q.is_empty());
}

#[test]
fn capacity_three_scenario() {
    let mut q = MyAtomicQueue::new(3);
    assert_eq!(q.push(10), Ok(()));
    assert_eq!(q.push(20), Ok(()));
    assert_eq!(q.push(30), Err(30));
    assert_eq!(q.pop(), Some(10));
    assert_eq!(q.pop(), Some(20));
    assert_eq!(q.pop(), None);
}

#[test]
fn offsets_are_not_reused_after_pop() {
    let mut q = MyAtomicQueue::new(3);
    assert_eq!(q.push('x'), Ok(()));
    assert_eq!(q.pop(), Some('x'));
    assert_eq!(q.push('y'), Ok(()));
    assert_eq!(q.push('z'), Err('z'));
    assert_eq!(q.pop(), Some('y'));
    assert_eq!(q.push('w'), Err('w'));
    assert_eq!(q.pop(), None);
}

#[test]
fn len_and_full_follow_the_cursors() {
    let mut q = MyAtomicQueue::new(4);
    assert!(!q.is_full());
    q.push(1).unwrap();
    q.push(2).unwrap();
    assert_eq!(q.len(), 2);
    assert!(!q.is_full());
    q.push(3).unwrap();
    assert_eq!(q.len(), 3);
    assert!(q.is_full());
    assert_eq!(q.pop(), Some(1));
    assert_eq!(q.len(), 2);
    assert!(!q.is_full());
    assert!(!q.is_empty());
}
