//! Ordered lists that remember a focus.

use std::str::FromStr;

use mochi::model::{CycleDirection, Ring};

fn ring() -> Ring<u32> {
    Ring::from_vec(vec![0, 1, 2, 3])
}

#[test]
fn a_new_ring_is_empty_and_focuses_nothing() {
    let r: Ring<u32> = Ring::new();
    assert!(r.is_empty());
    assert_eq!(r.len(), 0);
    assert_eq!(r.focused(), None);
    assert_eq!(r.focused_idx(), 0);
    assert_eq!(r.next_idx(CycleDirection::Next), None);
}

#[test]
fn focus_rejects_out_of_range() {
    let mut r = ring();
    assert!(r.focus(3));
    assert_eq!(r.focused(), Some(&3));
    assert!(!r.focus(4));
    assert_eq!(r.focused_idx(), 3);
    r.focus_clamped(99);
    assert_eq!(r.focused_idx(), 3);
}

#[test]
fn cycle_focus_wraps_both_ways() {
    let mut r = ring();
    assert_eq!(r.cycle_focus(CycleDirection::Previous), Some(3));
    assert_eq!(r.cycle_focus(CycleDirection::Next), Some(0));
    for _ in 0..4 {
        r.cycle_focus(CycleDirection::Next);
    }
    assert_eq!(r.focused_idx(), 0, "a full lap returns to the start");
}

#[test]
fn move_focused_swaps_and_follows() {
    let mut r = ring();
    assert_eq!(r.move_focused(CycleDirection::Next), Some(1));
    assert_eq!(r.elements(), &[1, 0, 2, 3]);
    assert_eq!(r.focused(), Some(&0));

    assert_eq!(r.move_focused(CycleDirection::Previous), Some(0));
    assert_eq!(r.elements(), &[0, 1, 2, 3]);
    assert_eq!(r.focused(), Some(&0));

    assert_eq!(r.move_focused(CycleDirection::Previous), Some(3));
    assert_eq!(r.elements(), &[3, 1, 2, 0]);
}

#[test]
fn move_focused_on_a_single_element_is_a_no_op() {
    let mut r = Ring::from_vec(vec![7]);
    assert_eq!(r.move_focused(CycleDirection::Next), Some(0));
    assert_eq!(r.elements(), &[7]);
}

#[test]
fn insert_keeps_the_same_element_focused() {
    let mut r = ring();
    r.focus(2);
    r.insert(0, 99);
    assert_eq!(r.elements(), &[99, 0, 1, 2, 3]);
    assert_eq!(r.focused(), Some(&2), "still on the same value");

    r.insert(5, 100);
    assert_eq!(
        r.focused(),
        Some(&2),
        "inserting after the focus changes nothing"
    );
}

#[test]
fn insert_focused_focuses_the_new_element() {
    let mut r = ring();
    let idx = r.insert_focused(2, 99);
    assert_eq!(idx, 2);
    assert_eq!(r.focused(), Some(&99));
}

#[test]
fn push_focused_focuses_the_tail() {
    let mut r = ring();
    assert_eq!(r.push_focused(9), 4);
    assert_eq!(r.focused(), Some(&9));
}

#[test]
fn remove_before_the_focus_keeps_the_same_element() {
    let mut r = ring();
    r.focus(2);
    assert_eq!(r.remove(0), Some(0));
    assert_eq!(r.focused(), Some(&2));
}

#[test]
fn removing_the_focus_lands_on_the_next_element() {
    let mut r = ring();
    r.focus(1);
    assert_eq!(r.remove(1), Some(1));
    assert_eq!(r.elements(), &[0, 2, 3]);
    assert_eq!(r.focused(), Some(&2));
}

#[test]
fn removing_the_last_element_clamps_the_focus() {
    let mut r = ring();
    r.focus(3);
    assert_eq!(r.remove_focused(), Some(3));
    assert_eq!(r.focused(), Some(&2));
    assert_eq!(r.remove(99), None);
}

#[test]
fn remove_from_an_empty_ring_is_none() {
    let mut r: Ring<u32> = Ring::new();
    assert_eq!(r.remove_focused(), None);
    assert_eq!(r.remove(0), None);
}

#[test]
fn swap_validates_indices() {
    let mut r = ring();
    assert!(r.swap(0, 3));
    assert_eq!(r.elements(), &[3, 1, 2, 0]);
    assert!(!r.swap(0, 4));
}

#[test]
fn iteration_and_collection() {
    let r: Ring<u32> = Ring::from_vec((0..3).collect());
    assert_eq!(r.iter().sum::<u32>(), 3);
    assert_eq!((&r).into_iter().count(), 3);
    let mut r2 = r.clone();
    for e in &mut r2 {
        *e += 1;
    }
    assert_eq!(r2.into_vec(), vec![1, 2, 3]);
    assert_eq!(r.position(|e| *e == 2), Some(2));
    assert_eq!(r.position(|e| *e == 9), None);
}

#[test]
fn a_ring_can_be_made_from_a_vec_and_walked_over_mutably() {
    let mut r: Ring<u32> = Ring::from(vec![1, 2, 3]);
    assert_eq!(r, Ring::from_vec(vec![1, 2, 3]));
    assert_eq!(r.focused(), Some(&1));
    r.focus(1);
    for e in &mut r {
        *e *= 10;
    }
    assert_eq!(r.elements(), &[10, 20, 30]);
    assert_eq!(r.focused(), Some(&20));
    assert_eq!((&mut Ring::<u32>::new()).into_iter().count(), 0);
    assert_eq!(r.into_iter().collect::<Vec<u32>>(), vec![10, 20, 30]);
}

#[test]
fn rings_with_the_same_focus_are_equal_however_they_got_there() {
    let mut shrunk = Ring::from_vec(vec![7, 8]);
    shrunk.focus(1);
    assert_eq!(shrunk.remove(1), Some(8));
    assert_eq!(shrunk, Ring::from_vec(vec![7]));

    let mut emptied = Ring::from_vec(vec![7]);
    assert_eq!(emptied.remove_focused(), Some(7));
    assert_eq!(emptied, Ring::new());

    let mut clamped = Ring::from_vec(vec![7, 8]);
    clamped.focus_clamped(99);
    let mut focused = Ring::from_vec(vec![7, 8]);
    focused.focus(1);
    assert_eq!(clamped, focused);
    assert_eq!(format!("{clamped:?}"), format!("{focused:?}"));

    let mut empty: Ring<u32> = Ring::new();
    empty.focus_clamped(5);
    assert_eq!(empty, Ring::new());
}

#[test]
fn clear_resets_the_focus() {
    let mut r = ring();
    r.focus(3);
    r.clear();
    assert!(r.is_empty());
    assert_eq!(r.focused_idx(), 0);
}

#[test]
fn cycle_direction_parses_and_inverts() {
    assert_eq!(CycleDirection::from_str("next"), Ok(CycleDirection::Next));
    assert_eq!(
        CycleDirection::from_str("prev"),
        Ok(CycleDirection::Previous)
    );
    assert!(CycleDirection::from_str("sideways").is_err());
    assert_eq!(CycleDirection::Next.opposite(), CycleDirection::Previous);
    assert_eq!(CycleDirection::Next.to_string(), "next");
    assert_eq!(CycleDirection::Next.step(0, 0), None);
}
