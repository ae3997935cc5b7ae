use sidecar_supervisor::slot::{HandleSlot, SlotOp};

#[test]
fn new_slot_is_empty() {
    let slot: HandleSlot<u32> = HandleSlot::new();
    assert!(!slot.is_occupied());
}

#[test]
fn take_on_empty_slot_returns_none_every_time() {
    let mut slot: HandleSlot<u32> = HandleSlot::new();
    for _ in 0..5 {
        assert_eq!(slot.take(), None);
        assert!(!slot.is_occupied());
    }
}

#[test]
fn take_after_put_returns_the_handle() {
    let mut slot: HandleSlot<u32> = HandleSlot::new();
    slot.put(4242);
    assert!(slot.is_occupied());
    assert_eq!(slot.take(), Some(4242));
    assert!(!slot.is_occupied());
}

#[test]
fn second_take_finds_the_slot_empty() {
    let mut slot: HandleSlot<String> = HandleSlot::new();
    slot.put(String::from("child"));
    assert_eq!(slot.take(), Some(String::from("child")));
    assert_eq!(slot.take(), None);
    assert_eq!(slot.take(), None);
}

#[test]
fn put_discards_the_previous_content() {
    let mut slot: HandleSlot<u32> = HandleSlot::new();
    slot.put(1);
    slot.put(2);
    assert_eq!(slot.take(), Some(2));
    assert_eq!(slot.take(), None);
}

#[test]
fn apply_returns_what_each_operation_hands_out() {
    let mut slot: HandleSlot<u32> = HandleSlot::new();
    assert_eq!(slot.apply(SlotOp::Take), None);
    assert_eq!(slot.apply(SlotOp::Put(7)), None);
    assert!(slot.is_occupied());
    assert_eq!(slot.apply(SlotOp::Take), Some(7));
    assert!(!slot.is_occupied());
    assert_eq!(slot.apply(SlotOp::Take), None);
}

#[test]
fn no_handle_is_returned_by_two_takes() {
    let ops: Vec<SlotOp<u32>> = vec![
        SlotOp::Take,
        SlotOp::Put(1),
        SlotOp::Put(2),
        SlotOp::Take,
        SlotOp::Take,
        SlotOp::Put(3),
        SlotOp::Take,
        SlotOp::Take,
        SlotOp::Put(4),
    ];
    let mut slot: HandleSlot<u32> = HandleSlot::new();
    let mut returned: Vec<u32> = Vec::new();
    for op in ops {
        if let Some(handle) = slot.apply(op) {
            assert!(!returned.contains(&handle));
            returned.push(handle);
        }
    }
    assert_eq!(returned, vec![2, 3]);
    assert_eq!(slot.take(), Some(4));
}

#[test]
fn guarded_put_and_take_use_the_slot_when_the_lock_is_held() {
    let mut slot: HandleSlot<u32> = HandleSlot::new();
    HandleSlot::put_guarded(Some(&mut slot), 9);
    assert!(slot.is_occupied());
    assert_eq!(HandleSlot::take_guarded(Some(&mut slot)), Some(9));
    assert!(!slot.is_occupied());
    assert_eq!(HandleSlot::take_guarded(Some(&mut slot)), None);
}

#[test]
fn guarded_put_and_take_do_nothing_without_the_lock() {
    let mut slot: HandleSlot<u32> = HandleSlot::new();
    slot.put(5);
    HandleSlot::put_guarded(None, 6);
    assert_eq!(HandleSlot::<u32>::take_guarded(None), None);
    assert_eq!(slot.take(), Some(5));
}
