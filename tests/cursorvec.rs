use cursorvec::{is_true, CursorState, CursorVec};

fn words() -> Vec<&'static str> {
    vec!["first", "second", "third", "fourth", "fifth"]
}

#[test]
fn new_container_is_empty() {
    let mut v: CursorVec<i32> = CursorVec::new();
    assert_eq!(None, v.get_cursor());
    assert_eq!(CursorState::EmptyContainer, v.get_current());
    assert_eq!(CursorState::EmptyContainer, v.move_next_and_get());
    assert_eq!(CursorState::EmptyContainer, v.move_prev_and_get());
    assert_eq!(CursorState::EmptyContainer, v.move_next_nth_and_get(3));
    assert_eq!(CursorState::EmptyContainer, v.move_prev_nth_and_get(3));
    assert_eq!(None, v.move_prev_and_get_always());
    assert_eq!(None, v.move_next_nth_and_get_always(2));
    assert_eq!(None, v.move_prev_nth_and_get_always(2));
    assert_eq!(Err("empty container".to_string()), v.move_next());
    assert_eq!(Err("empty container".to_string()), v.move_prev());
}

#[test]
fn default_is_empty() {
    let v: CursorVec<u8> = CursorVec::default();
    assert!(v.is_empty());
    assert_eq!(None, v.get_cursor());
}

#[test]
fn forward_scenario_without_rotation() {
    let mut v = CursorVec::new().with_container(words());
    assert_eq!(CursorState::Valid(&"first"), v.get_current());
    assert_eq!(Some(&"second"), v.move_next_and_get().value());
    assert_eq!(Some(&"fifth"), v.move_next_nth_and_get(3).value());
    assert_eq!(CursorState::MaxOut, v.move_next_and_get());
}

#[test]
fn backward_scenario_without_rotation() {
    let mut v = CursorVec::new().with_container(words());
    assert!(is_true(v.set_cursor(4)));
    assert_eq!(Some(&"fourth"), v.move_prev_and_get().value());
    assert_eq!(Some(&"first"), v.move_prev_nth_and_get(3).value());
    assert_eq!(CursorState::MinOut, v.move_prev_and_get());
    assert_eq!(Some(0), v.get_cursor());
}

#[test]
fn repeated_move_at_end_never_drifts() {
    let mut v = CursorVec::new().with_container(words());
    assert!(is_true(v.set_cursor(4)));
    for _ in 0..5 {
        assert_eq!(CursorState::MaxOut, v.move_next_and_get());
        assert_eq!(Some(4), v.get_cursor());
        assert_eq!(CursorState::Valid(&"fifth"), v.get_current());
    }
}

#[test]
fn nth_move_past_end_stops_at_last() {
    let mut v = CursorVec::new().with_container(words());
    assert_eq!(CursorState::MaxOut, v.move_next_nth_and_get(10));
    assert_eq!(Some(4), v.get_cursor());
    assert_eq!(CursorState::MinOut, v.move_prev_nth_and_get(10));
    assert_eq!(Some(0), v.get_cursor());
}

#[test]
fn rotating_step_wraps_to_first() {
    let mut v = CursorVec::new().rotatable(true).with_container(words());
    assert!(is_true(v.set_cursor(4)));
    assert_eq!(CursorState::Valid(&"first"), v.move_next_and_get());
    assert_eq!(Some(0), v.get_cursor());
    assert_eq!(CursorState::Valid(&"fifth"), v.move_prev_and_get());
}

#[test]
fn rotating_nth_move_wraps() {
    let mut v = CursorVec::new()
        .rotatable(true)
        .with_container(vec![1, 2, 3, 4, 5, 6, 7, 8]);
    assert_eq!(Some(&3), v.move_next_nth_and_get(10).value());
    assert_eq!(Some(&7), v.move_next_nth_and_get_always(4));
    assert_eq!(Some(&1), v.move_prev_nth_and_get(14).value());
}

#[test]
fn always_variants_return_current_on_failure() {
    let mut v = CursorVec::new().with_container(words());
    assert_eq!(Some(&"first"), v.move_prev_and_get_always());
    assert_eq!(Some(&"second"), v.move_next_and_get_always());
    assert!(is_true(v.set_cursor(0)));
    assert_eq!(Some(&"fifth"), v.move_next_nth_and_get_always(10000));
    assert_eq!(Some(&"fifth"), v.move_next_and_get_always());
    assert_eq!(Some(&"first"), v.move_prev_nth_and_get_always(10000));
    assert_eq!(Some(&"third"), v.move_next_nth_and_get_always(2));
    assert_eq!(Some(&"second"), v.move_prev_nth_and_get_always(1));
}

#[test]
fn plain_moves() {
    let mut v = CursorVec::new().with_container(vec![10, 20]);
    assert_eq!(Ok(()), v.move_next());
    assert_eq!(Err("Cursor out of range".to_string()), v.move_next());
    assert_eq!(Ok(()), v.move_prev());
    assert_eq!(Err("Cursor out of range".to_string()), v.move_prev());
    v.set_rotatable(true);
    assert_eq!(Ok(()), v.move_prev());
    assert_eq!(Some(1), v.get_cursor());
}

#[test]
fn set_cursor_round_trip() {
    let mut v: CursorVec<i32> = CursorVec::new();
    let s = vec![5, 6, 7];
    v.set_container(s.clone());
    for k in 0..s.len() {
        assert!(is_true(v.set_cursor(k)));
        assert_eq!(CursorState::Valid(&s[k]), v.get_current());
    }
    assert_eq!(Err("Cursor out of range".to_string()), v.set_cursor(s.len()));
    assert_eq!(CursorState::Valid(&7), v.get_current());
    assert_eq!(Some(2), v.get_cursor());
}

#[test]
fn modify_keeps_even_and_clamps_cursor() {
    let mut v = CursorVec::new().with_container(vec![1, 2, 3, 4, 5, 6]);
    assert!(is_true(v.set_cursor(5)));
    v.modify(|cont| cont.retain(|num| *num % 2 == 0));
    assert_eq!(&vec![2, 4, 6], v.container());
    assert_eq!(Some(2), v.get_cursor());
    assert_eq!(CursorState::Valid(&6), v.get_current());
}

#[test]
fn modify_drain_moves_cursor_to_zero() {
    let mut v = CursorVec::new().with_container(vec![1, 2, 3]);
    assert!(is_true(v.set_cursor(2)));
    v.modify(|cont| {
        cont.drain(1..);
    });
    assert_eq!(Some(0), v.get_cursor());
}

#[test]
fn modify_to_empty() {
    let mut v = CursorVec::new().with_container(vec![1, 2, 3]);
    assert!(is_true(v.set_cursor(2)));
    v.modify(|cont| cont.clear());
    assert_eq!(None, v.get_cursor());
    assert_eq!(CursorState::EmptyContainer, v.get_current());
    v.set_container(vec![4, 5]);
    assert_eq!(Some(0), v.get_cursor());
}

#[test]
fn direct_truncation_needs_update() {
    let mut v = CursorVec::new()
        .rotatable(true)
        .with_container(vec![1, 2, 3, 4, 5, 6, 7, 8]);
    assert_eq!(Some(&3), v.move_next_nth_and_get(10).value());
    assert_eq!(Some(&7), v.move_next_nth_and_get_always(4));
    v.drain(5..);
    v.update_cursor();
    assert_eq!(Some(&5), v.get_current().value());
    v.drain(1..);
    assert_eq!(CursorState::OutOfRange, v.get_current());
    v.update_cursor();
    assert_ne!(CursorState::OutOfRange, v.get_current());
    assert_eq!(CursorState::Valid(&1), v.get_current());
}

#[test]
fn truncation_through_container_mut() {
    let mut v = CursorVec::new().with_container(vec![1, 2, 3, 4]);
    assert!(is_true(v.set_cursor(3)));
    v.container_mut().truncate(2);
    assert_eq!(CursorState::OutOfRange, v.get_current());
    v.update_cursor();
    assert_eq!(Some(1), v.get_cursor());
    assert_eq!(CursorState::Valid(&2), v.get_current());
}

#[test]
fn update_cursor_twice_equals_once() {
    let mut v = CursorVec::new().with_container(vec![1, 2, 3, 4, 5, 6]);
    assert!(is_true(v.set_cursor(5)));
    v.retain(|num| num % 2 == 0);
    v.update_cursor();
    let once = v.get_cursor();
    v.update_cursor();
    assert_eq!(once, v.get_cursor());
    assert_eq!(Some(2), once);
}

#[test]
fn replace_container_then_set_cursor() {
    let mut v = CursorVec::new().with_container(vec![1, 2, 3, 4, 5, 6, 7, 8]);
    v.set_container(vec![1, 2, 3, 4, 5, 6, 7, 8]);
    assert!(is_true(v.set_cursor(6)));
    assert_eq!(Some(&7), v.get_current().value());
    v.modify(|cont| cont.retain(|num| *num % 2 == 0));
    assert_eq!(Some(3), v.get_cursor());
    assert_eq!(Some(&8), v.get_current().value());
}

#[test]
fn owned_elements_without_copy() {
    let mut v = CursorVec::new().with_container(vec![String::from("a"), String::from("b")]);
    assert_eq!(Some(&String::from("b")), v.move_next_and_get().value());
    v.push(String::from("c"));
    v.update_cursor();
    assert_eq!(Some(&String::from("c")), v.move_next_and_get_always());
}
