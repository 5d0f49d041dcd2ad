use aurelis::error::AppError;
use aurelis::inventory::{find_next_available_slot, GiveItemProgress, GiveItemStep};

#[test]
fn next_slot_is_the_first_gap() {
    assert_eq!(find_next_available_slot(&vec![], 56), Some(0));
    assert_eq!(find_next_available_slot(&vec![0, 1, 3], 56), Some(2));
    assert_eq!(find_next_available_slot(&vec![2, 0, 1], 4), Some(3));
    assert_eq!(find_next_available_slot(&vec![0, 1, 2], 3), None);
    assert_eq!(find_next_available_slot(&vec![], 0), None);
    assert_eq!(find_next_available_slot(&vec![], -5), None);
}

#[test]
fn full_inventory_has_no_slot() {
    let occupied: Vec<i16> = (0..56).collect();
    assert_eq!(find_next_available_slot(&occupied, 56), None);
}

#[test]
fn unstackable_items_fill_one_slot_each() {
    let mut p = GiveItemProgress::new(Some(3), 1);
    let mut placed = Vec::new();
    loop {
        match p.next_step() {
            GiveItemStep::Done => break,
            GiveItemStep::LookForStack => panic!("no stacks for single items"),
            GiveItemStep::LookForFreeSlot => {
                let add = p.free_slot(Some(placed.len() as i16)).unwrap();
                placed.push(add);
            }
        }
    }
    assert_eq!(placed, vec![1, 1, 1]);
    assert_eq!(p.given(), 3);
    assert_eq!(p.remaining(), 0);
}

#[test]
fn stackable_items_top_up_then_open_new_stacks() {
    // max stack 10, asked for 25; one stack holds 7 already
    let mut p = GiveItemProgress::new(Some(25), 10);
    assert_eq!(p.next_step(), GiveItemStep::LookForStack);
    assert_eq!(p.stack_found(7), 3);
    assert_eq!(p.remaining(), 22);
    assert_eq!(p.next_step(), GiveItemStep::LookForStack);
    // no stack with room: new stacks
    assert_eq!(p.free_slot(Some(4)).unwrap(), 10);
    assert_eq!(p.free_slot(Some(5)).unwrap(), 10);
    assert_eq!(p.remaining(), 2);
    assert_eq!(p.stack_found(0), 2);
    assert_eq!(p.next_step(), GiveItemStep::Done);
    assert_eq!(p.given(), 25);
}

#[test]
fn default_quantity_is_one_and_stack_limit_at_least_one() {
    let mut p = GiveItemProgress::new(None, 0);
    assert_eq!(p.remaining(), 1);
    assert_eq!(p.next_step(), GiveItemStep::LookForFreeSlot);
    assert_eq!(p.free_slot(Some(0)).unwrap(), 1);
    assert_eq!(p.next_step(), GiveItemStep::Done);
}

#[test]
fn non_positive_quantity_places_nothing() {
    let p = GiveItemProgress::new(Some(-3), 5);
    assert_eq!(p.next_step(), GiveItemStep::Done);
    assert_eq!(p.given(), 0);
}

#[test]
fn full_inventory_stops_handing_out() {
    let mut p = GiveItemProgress::new(Some(2), 1);
    assert_eq!(p.free_slot(Some(0)).unwrap(), 1);
    match p.free_slot(None) {
        Err(AppError::BadRequest(m)) => assert_eq!(m, "Inventory is full"),
        other => panic!("unexpected: {other:?}"),
    }
    assert_eq!(p.remaining(), 1);
    assert_eq!(p.given(), 1);
}
