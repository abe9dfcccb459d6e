use linked_stack::List;

#[test]
fn basics() {
    let mut list = List::new();

    // Check empty list behaves right
    assert_eq!(list.pop(), None);

    // Populate list
    list.push(1);
    list.push(2);
    list.push(3);

    // Check normal removal
    assert_eq!(list.pop(), Some(3));
    assert_eq!(list.pop(), Some(2));

    // Push some more just to make sure nothing's corrupted
    list.push(4);
    list.push(5);

    // Check normal removal
    assert_eq!(list.pop(), Some(5));
    assert_eq!(list.pop(), Some(4));

    // Check exhaustion
    assert_eq!(list.pop(), Some(1));
    assert_eq!(list.pop(), None);
}

#[test]
fn pops_come_out_in_reverse_push_order() {
    let mut list = List::new();
    let values = [7, -3, 0, i32::MAX, i32::MIN, 42];
    for v in values {
        list.push(v);
    }
    for v in values.iter().rev() {
        assert_eq!(list.pop(), Some(*v));
    }
    assert_eq!(list.pop(), None);
}

#[test]
fn pop_on_empty_stays_empty() {
    let mut list = List::new();
    for _ in 0..5 {
        assert_eq!(list.pop(), None);
    }
    list.push(9);
    assert_eq!(list.pop(), Some(9));
    for _ in 0..3 {
        assert_eq!(list.pop(), None);
    }
}

#[test]
fn interleaved_operations_follow_current_top() {
    let mut list = List::new();
    list.push(1);
    list.push(2);
    assert_eq!(list.pop(), Some(2));
    list.push(3);
    list.push(4);
    assert_eq!(list.pop(), Some(4));
    list.push(5);
    assert_eq!(list.pop(), Some(5));
    assert_eq!(list.pop(), Some(3));
    list.push(6);
    assert_eq!(list.pop(), Some(6));
    assert_eq!(list.pop(), Some(1));
    assert_eq!(list.pop(), None);
}

#[test]
fn dropping_a_long_list_does_not_overflow_the_stack() {
    let mut list = List::new();
    for i in 0..100_000 {
        list.push(i);
    }
    drop(list);
}

#[test]
fn dropping_a_long_list_after_some_pops() {
    let mut list = List::new();
    for i in 0..200_000 {
        list.push(i);
    }
    assert_eq!(list.pop(), Some(199_999));
    assert_eq!(list.pop(), Some(199_998));
}

#[test]
fn round_trip_matches_a_new_list() {
    let mut list = List::new();
    for i in 0..1000 {
        list.push(i * 3);
    }
    for i in (0..1000).rev() {
        assert_eq!(list.pop(), Some(i * 3));
    }
    let mut fresh = List::new();
    assert_eq!(list.pop(), fresh.pop());
    list.push(11);
    fresh.push(11);
    assert_eq!(list.pop(), fresh.pop());
    assert_eq!(list.pop(), None);
}
