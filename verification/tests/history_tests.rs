use gnome_shot::annotations::{Annotation, Color, LineAnnotation, Point, RectAnnotation};
use gnome_shot::history::History;

fn red() -> Color {
    Color::new(1000, 0, 0, 1000)
}

fn line(x: i64) -> Annotation {
    Annotation::Line(LineAnnotation::new(
        Point::new(0, 0),
        Point::new(x, x),
        red(),
        2000,
    ))
}

#[test]
fn new_history_is_empty() {
    let h = History::new();
    assert!(!h.can_undo());
    assert!(!h.can_redo());
}

#[test]
fn push_adds_then_equal_undos_restore_empty_list() {
    let mut h = History::new();
    let mut list: Vec<Annotation> = Vec::new();
    for i in 0..5 {
        let a = line(1000 * (i + 1));
        list.push(a);
        h.push_add(a);
    }
    assert_eq!(list.len(), 5);
    for _ in 0..5 {
        assert!(h.undo(&mut list));
    }
    assert_eq!(list.len(), 0);
    assert!(!h.can_undo());
}

#[test]
fn undo_then_redo_is_roundtrip_on_list() {
    let mut h = History::new();
    let mut list: Vec<Annotation> = Vec::new();
    let a = line(9000);
    list.push(a);
    h.push_add(a);
    let before = list.clone();
    assert!(h.undo(&mut list));
    assert_eq!(list.len(), 0);
    assert!(h.redo(&mut list));
    assert_eq!(list, before);
}

#[test]
fn undo_then_redo_roundtrip_for_remove() {
    let mut h = History::new();
    let a = line(7000);
    let b = line(8000);
    let mut list: Vec<Annotation> = vec![a];
    // Record that `b` was removed from index 1, then undo re-inserts it.
    h.push_remove(1, b);
    let before = list.clone();
    assert!(h.undo(&mut list));
    assert_eq!(list, vec![a, b]);
    assert!(h.redo(&mut list));
    assert_eq!(list, before);
}

#[test]
fn new_edit_after_undo_clears_redo() {
    let mut h = History::new();
    let mut list: Vec<Annotation> = Vec::new();
    let a = line(9000);
    list.push(a);
    h.push_add(a);
    assert!(h.undo(&mut list));
    assert!(h.can_redo());
    let b = line(12000);
    list.push(b);
    h.push_add(b);
    assert!(!h.can_redo());

    assert!(h.undo(&mut list));
    assert!(h.can_redo());
    h.push_remove(0, b);
    assert!(!h.can_redo());
}

#[test]
fn undo_redo_underflow_are_noops() {
    let mut h = History::new();
    let mut list: Vec<Annotation> = Vec::new();
    assert!(!h.undo(&mut list));
    assert!(!h.redo(&mut list));
    assert_eq!(list.len(), 0);
}

#[test]
fn redo_of_out_of_range_remove_skips_list_but_moves_action() {
    let mut h = History::new();
    let a = line(5000);
    let extra = line(6000);
    let mut list: Vec<Annotation> = vec![extra];
    h.push_remove(0, a);
    // Undo re-inserts `a` at index 0 and queues the remove for redo.
    assert!(h.undo(&mut list));
    assert_eq!(list.len(), 2);
    // The list shrinks independently of the history.
    list.clear();
    // Redo of the remove finds index 0 out of range: the list mutation is
    // skipped, but the action still transitions back to the undo stack.
    assert!(h.redo(&mut list));
    assert_eq!(list.len(), 0);
    assert!(h.can_undo());
    assert!(!h.can_redo());
}

#[test]
fn clear_empties_both_stacks() {
    let mut h = History::new();
    let mut list: Vec<Annotation> = Vec::new();
    let a = Annotation::Rectangle(RectAnnotation::new(
        Point::new(0, 0),
        Point::new(1000, 1000),
        red(),
        2000,
        true,
    ));
    list.push(a);
    h.push_add(a);
    assert!(h.undo(&mut list));
    assert!(h.can_redo());
    h.clear();
    assert!(!h.can_undo());
    assert!(!h.can_redo());
}
