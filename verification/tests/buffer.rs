use phi_accrual_failure_detector::buffer::CircleBuffer;

#[test]
fn lib_circle_buffer() {
    let mut buf = CircleBuffer::new(3);

    assert_eq!(buf.len(), 0);
    assert_eq!(buf.push(1), None);
    assert_eq!(buf.len(), 1);
    assert_eq!(buf.push(2), None);
    assert_eq!(buf.len(), 2);
    assert_eq!(buf.push(3), None);
    assert_eq!(buf.len(), 3);
    assert_eq!(buf.push(4), Some(1));
    assert_eq!(buf.len(), 4);
    assert_eq!(buf.push(5), Some(2));
    assert_eq!(buf.len(), 5);
    assert_eq!(buf.push(6), Some(3));
    assert_eq!(buf.len(), 6);
    assert_eq!(buf.push(7), Some(4));
    assert_eq!(buf.len(), 7);
}

#[test]
fn tests_circle_buffer() {
    let mut buf = CircleBuffer::new(3);

    assert_eq!(buf.len(), 0);
    assert_eq!(buf.push(1), None);
    assert_eq!(buf.len(), 1);
    assert_eq!(buf.push(2), None);
    assert_eq!(buf.len(), 2);
    assert_eq!(buf.push(3), None);
    assert_eq!(buf.len(), 3);
    assert_eq!(buf.push(4), Some(1));
    assert_eq!(buf.len(), 4);
    assert_eq!(buf.push(5), Some(2));
    assert_eq!(buf.len(), 5);
    assert_eq!(buf.push(6), Some(3));
    assert_eq!(buf.len(), 6);
    assert_eq!(buf.push(7), Some(4));
    assert_eq!(buf.len(), 7);
}

#[test]
fn push_beyond_capacity_returns_item_pushed_capacity_earlier() {
    let capacity: usize = 5;
    let mut buf = CircleBuffer::new(capacity);
    let items: Vec<u32> = (0..23).map(|i| i * i + 7).collect();
    for (i, item) in items.iter().enumerate() {
        let evicted = buf.push(*item);
        if i < capacity {
            assert_eq!(evicted, None);
        } else {
            assert_eq!(evicted, Some(items[i - capacity]));
        }
        assert_eq!(buf.len(), i + 1);
    }
}

#[test]
fn full_ring_holds_exactly_the_latest_items() {
    let capacity: usize = 4;
    let mut buf = CircleBuffer::new(capacity);
    for item in 0..11u64 {
        buf.push(item);
    }
    // What is pushed out next is what the ring held, oldest first.
    let mut held = Vec::new();
    for filler in 100..104u64 {
        held.push(buf.push(filler));
    }
    assert_eq!(held, vec![Some(7), Some(8), Some(9), Some(10)]);
    assert_eq!(buf.push(0), Some(100));
}

#[test]
fn ring_of_one_slot_hands_back_the_previous_item() {
    let mut buf = CircleBuffer::new(1);
    assert_eq!(buf.push('a'), None);
    assert_eq!(buf.push('b'), Some('a'));
    assert_eq!(buf.push('c'), Some('b'));
    assert_eq!(buf.len(), 3);
}

#[test]
fn ring_moves_items_that_cannot_be_copied() {
    let mut buf = CircleBuffer::new(2);
    assert_eq!(buf.push(String::from("one")), None);
    assert_eq!(buf.push(String::from("two")), None);
    assert_eq!(buf.push(String::from("three")), Some(String::from("one")));
    assert_eq!(buf.push(String::from("four")), Some(String::from("two")));
    assert_eq!(buf.len(), 4);
}

#[test]
fn count_is_not_capped_at_capacity() {
    let mut buf = CircleBuffer::new(2);
    for item in 0..1000u32 {
        buf.push(item);
    }
    assert_eq!(buf.len(), 1000);
}

#[test]
fn clone_goes_its_own_way() {
    let mut buf = CircleBuffer::new(2);
    buf.push(1);
    buf.push(2);
    let mut copy = buf.clone();
    assert_eq!(buf.push(3), Some(1));
    assert_eq!(copy.len(), 2);
    assert_eq!(copy.push(30), Some(1));
    assert_eq!(copy.push(40), Some(2));
    assert_eq!(copy.push(50), Some(30));
    assert_eq!(buf.push(4), Some(2));
    assert_eq!(buf.push(5), Some(3));
}
