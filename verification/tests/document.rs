use azusa_lens::document::AnnotationDocument;

#[derive(Debug, Clone, PartialEq)]
enum Shape {
    Line { from: (f32, f32), to: (f32, f32) },
    Rectangle { origin: (f32, f32), width: f32, height: f32 },
}

fn line(offset: f32) -> Shape {
    Shape::Line { from: (offset, offset), to: (offset + 8.0, offset + 8.0) }
}

#[test]
fn divergent_edit_clears_redo_history() {
    let mut document = AnnotationDocument::default();
    document.push(line(0.0));
    document.push(line(10.0));

    assert!(document.undo());
    assert!(document.can_redo());

    document.push(line(20.0));

    assert!(!document.can_redo());
    assert!(!document.redo());
    assert_eq!(document.items().len(), 2);
}

#[test]
fn command_history_keeps_only_the_latest_hundred_edits() {
    let mut document = AnnotationDocument::default();
    for index in 0..101 {
        document.push(line(index as f32));
    }

    for _ in 0..100 {
        assert!(document.undo());
    }

    assert!(!document.can_undo());
    assert_eq!(document.items().len(), 1);
}

#[test]
fn history_supports_undo_and_redo() {
    let mut document = AnnotationDocument::default();
    document.push(line(0.0));
    assert!(document.can_undo());
    assert!(!document.can_redo());

    document.undo();
    assert!(!document.can_undo());
    assert!(document.can_redo());

    document.redo();
    assert!(document.can_undo());
    assert!(!document.can_redo());
}

#[test]
fn history_tracks_replace_remove_batch_and_clear() {
    let mut document = AnnotationDocument::default();
    let first = line(0.0);
    let second = Shape::Rectangle { origin: (2.0, 3.0), width: 10.0, height: 12.0 };

    document.push(first.clone());
    assert!(document.replace(0, second.clone()));
    assert_eq!(document.items(), std::slice::from_ref(&second));
    assert!(document.undo());
    assert_eq!(document.items(), std::slice::from_ref(&first));
    assert!(document.redo());
    assert_eq!(document.items(), std::slice::from_ref(&second));

    assert!(document.remove(0));
    assert!(document.items().is_empty());
    assert!(document.undo());
    assert_eq!(document.items(), std::slice::from_ref(&second));

    document.extend(vec![first.clone(), second.clone()]);
    assert_eq!(document.items().len(), 3);
    assert!(document.undo());
    assert_eq!(document.items(), std::slice::from_ref(&second));
    assert!(document.redo());
    assert_eq!(document.items().len(), 3);

    assert!(document.clear());
    assert!(document.items().is_empty());
    assert!(document.undo());
    assert_eq!(document.items().len(), 3);
}

#[test]
fn reset_discards_items_and_history() {
    let mut document = AnnotationDocument::default();
    document.push(line(0.0));
    document.reset();
    assert!(document.items().is_empty());
    assert!(!document.can_undo());
    assert!(!document.can_redo());
}

#[test]
fn refused_edits_leave_no_history() {
    let mut document = AnnotationDocument::default();
    assert!(!document.remove(0));
    assert!(!document.replace(0, line(1.0)));
    assert!(!document.clear());
    document.extend(Vec::new());
    assert!(!document.can_undo());
    document.push(line(1.0));
    assert!(!document.replace(0, line(1.0)));
    assert!(document.undo());
    assert!(!document.undo());
    assert!(document.items().is_empty());
}

#[test]
fn undo_then_redo_returns_to_the_same_items() {
    let mut document = AnnotationDocument::default();
    document.push(line(1.0));
    document.push(line(2.0));
    let before = document.items().to_vec();
    assert!(document.undo());
    assert!(document.redo());
    assert_eq!(document.items(), before.as_slice());
}
