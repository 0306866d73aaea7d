use toy_vec::ToyVec;

#[test]
fn new_is_empty_with_no_storage() {
    let v: ToyVec<i32> = ToyVec::new();
    assert_eq!(v.len(), 0);
    assert_eq!(v.capacity(), 0);
}

#[test]
fn with_capacity_prefills_storage() {
    let v: ToyVec<i32> = ToyVec::with_capacity(7);
    assert_eq!(v.len(), 0);
    assert_eq!(v.capacity(), 7);
}

#[test]
fn append_then_get() {
    let mut v: ToyVec<i32> = ToyVec::new();
    for (l, value) in [5, -3, 40, 0].into_iter().enumerate() {
        assert_eq!(v.len(), l);
        v.push(value);
        assert_eq!(v.get(l), Some(&value));
        assert_eq!(v.len(), l + 1);
    }
}

#[test]
fn push_pop_round_trip() {
    let mut v: ToyVec<i32> = ToyVec::new();
    v.push(10);
    v.push(20);
    let before = v.len();
    v.push(99);
    assert_eq!(v.pop(), Some(99));
    assert_eq!(v.len(), before);
    assert_eq!(v.get(0), Some(&10));
    assert_eq!(v.get(1), Some(&20));
}

#[test]
fn out_of_range_read_is_none() {
    let mut v: ToyVec<i32> = ToyVec::with_capacity(4);
    v.push(1);
    v.push(2);
    assert_eq!(v.get(2), None);
    assert_eq!(v.get(3), None);
    assert_eq!(v.get(4), None);
    assert_eq!(v.get(v.capacity()), None);
    assert_eq!(v.get(v.capacity() + 1000), None);
}

#[test]
fn empty_pop_is_none() {
    let mut fresh: ToyVec<i32> = ToyVec::new();
    assert_eq!(fresh.pop(), None);
    let mut zero_cap: ToyVec<i32> = ToyVec::with_capacity(0);
    assert_eq!(zero_cap.pop(), None);
    let mut roomy: ToyVec<i32> = ToyVec::with_capacity(5);
    assert_eq!(roomy.pop(), None);
}

#[test]
fn pop_does_not_shrink_capacity() {
    let mut v: ToyVec<i32> = ToyVec::new();
    for i in 0..5 {
        v.push(i);
    }
    let cap = v.capacity();
    while v.pop().is_some() {}
    assert_eq!(v.len(), 0);
    assert_eq!(v.capacity(), cap);
}

#[test]
fn growth_doubles_from_zero() {
    let mut v: ToyVec<u8> = ToyVec::with_capacity(0);
    let expected = [1, 2, 4, 4, 8, 8, 8, 8, 16];
    for (i, cap) in expected.into_iter().enumerate() {
        v.push(i as u8);
        assert_eq!(v.len(), i + 1);
        assert_eq!(v.capacity(), cap);
    }
}

#[test]
fn growth_within_capacity_keeps_it() {
    let mut v: ToyVec<i32> = ToyVec::with_capacity(3);
    v.push(1);
    v.push(2);
    v.push(3);
    assert_eq!(v.capacity(), 3);
    v.push(4);
    assert_eq!(v.capacity(), 6);
}

#[test]
fn growth_preserves_elements() {
    let mut v: ToyVec<usize> = ToyVec::new();
    for i in 0..100 {
        v.push(i * i);
    }
    assert_eq!(v.len(), 100);
    assert_eq!(v.capacity(), 128);
    for i in 0..100 {
        assert_eq!(v.get(i), Some(&(i * i)));
    }
}

#[test]
fn get_or_returns_element_or_default() {
    let mut v: ToyVec<i32> = ToyVec::new();
    v.push(8);
    v.push(9);
    assert_eq!(*v.get_or(0, &-1), 8);
    assert_eq!(*v.get_or(1, &-1), 9);
    assert_eq!(*v.get_or(2, &-1), -1);
    assert_eq!(*v.get_or(1000, &7), 7);
}

#[test]
fn iteration_yields_all_elements_in_order() {
    let values = [3, 1, 4, 1, 5, 9, 2, 6];
    let mut v: ToyVec<i32> = ToyVec::new();
    for value in values {
        v.push(value);
    }
    let mut it = v.iter();
    let mut seen: Vec<i32> = Vec::new();
    while let Some(e) = it.next() {
        seen.push(*e);
    }
    assert_eq!(seen, values.to_vec());
    assert_eq!(it.next(), None);
    assert_eq!(it.next(), None);
}

#[test]
fn iteration_of_empty_container_is_exhausted_at_once() {
    let v: ToyVec<i32> = ToyVec::new();
    let mut it = v.iter();
    assert_eq!(it.next(), None);
    assert_eq!(it.next(), None);
}

#[test]
fn length_never_exceeds_capacity() {
    let mut v: ToyVec<i32> = ToyVec::new();
    assert!(v.len() <= v.capacity());
    for i in 0..20 {
        v.push(i);
        assert!(v.len() <= v.capacity());
    }
    for _ in 0..25 {
        v.pop();
        assert!(v.len() <= v.capacity());
    }
    for i in 0..40 {
        v.push(i);
        assert!(v.len() <= v.capacity());
    }
}

#[test]
fn owned_elements_move_in_and_out() {
    let mut v: ToyVec<String> = ToyVec::new();
    v.push(String::from("alpha"));
    v.push(String::from("beta"));
    v.push(String::from("gamma"));
    assert_eq!(v.get(1).map(String::as_str), Some("beta"));
    assert_eq!(v.pop(), Some(String::from("gamma")));
    assert_eq!(v.pop(), Some(String::from("beta")));
    assert_eq!(v.pop(), Some(String::from("alpha")));
    assert_eq!(v.pop(), None);
}

#[test]
fn concrete_scenario() {
    let mut c: ToyVec<i32> = ToyVec::with_capacity(0);
    c.push(1);
    c.push(2);
    c.push(3);
    assert_eq!(c.len(), 3);
    assert_eq!(c.capacity(), 4);
    assert_eq!(c.get(1), Some(&2));
    assert_eq!(c.get(5), None);
    assert_eq!(c.pop(), Some(3));
    assert_eq!(c.len(), 2);
    assert_eq!(c.capacity(), 4);
    let mut it = c.iter();
    assert_eq!(it.next(), Some(&1));
    assert_eq!(it.next(), Some(&2));
    assert_eq!(it.next(), None);
}
