use engine::DraggableSnapType;
use engine::Drawable;
use engine::Rect;

fn filled(x: usize, y: usize, w: usize, h: usize, tag: Option<DraggableSnapType>) -> Drawable {
    Drawable::Rectangle(Rect::new(x, y, w, h), (1, 2, 3, 4), tag)
}

#[test]
fn contains_is_inclusive_on_all_edges() {
    let d = filled(10, 20, 5, 6, None);
    assert!(d.contains((10, 20)));
    assert!(d.contains((15, 26)));
    assert!(d.contains((12, 23)));
    assert!(!d.contains((16, 23)));
    assert!(!d.contains((12, 27)));
    assert!(!d.contains((9, 23)));
}

#[test]
fn get_rect_and_coords_report_the_bounding_box() {
    let d = Drawable::Text(Rect::new(7, 8, 30, 40), "hi".to_string(), 10);
    let r = d.get_rect();
    assert_eq!((r.x, r.y, r.w, r.h), (7, 8, 30, 40));
    assert_eq!(d.get_coords(), (7, 8));
}

#[test]
fn move_to_repositions_absolutely() {
    let mut d = filled(10, 20, 5, 6, None);
    d.move_to((100, 200));
    assert_eq!(d.get_coords(), (100, 200));
    let r = d.get_rect();
    assert_eq!((r.w, r.h), (5, 6));
}

#[test]
fn shift_is_relative_and_clamps_at_zero() {
    let mut d = filled(10, 20, 5, 6, None);
    d.shift((-3, 4));
    assert_eq!(d.get_coords(), (7, 24));
    d.shift((-100, -100));
    assert_eq!(d.get_coords(), (0, 0));
}

#[test]
fn text_blocks_carry_no_drag_capability() {
    let t = Drawable::Text(Rect::new(0, 0, 1, 1), "x".to_string(), 10);
    assert!(t.get_drag_type().is_none());
    assert!(!t.is_draggable());
}

#[test]
fn drag_capability_comes_from_the_tag() {
    let draggable = filled(0, 0, 1, 1, Some(DraggableSnapType::Card(true, false)));
    let accepting = filled(0, 0, 1, 1, Some(DraggableSnapType::Card(false, true)));
    let inert = filled(0, 0, 1, 1, None);
    assert!(draggable.is_draggable());
    assert!(!accepting.is_draggable());
    assert!(!inert.is_draggable());
    assert!(accepting.is_releasable(&draggable));
    assert!(!inert.is_releasable(&draggable));
    assert!(!draggable.is_releasable(&draggable));
}

#[test]
fn clone_keeps_every_field() {
    let t = Drawable::Text(Rect::new(1, 2, 3, 4), "payload".to_string(), 12);
    match t.clone() {
        Drawable::Text(r, s, size) => {
            assert_eq!((r.x, r.y, r.w, r.h), (1, 2, 3, 4));
            assert_eq!(s, "payload");
            assert_eq!(size, 12);
        }
        _ => panic!("clone keeps the variant"),
    }
}
