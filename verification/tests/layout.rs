use conrod_graph_widget::event::NodeId;
use conrod_graph_widget::geometry::Point;
use conrod_graph_widget::layout::Layout;
use std::collections::HashMap;

#[test]
fn new_layout_places_nothing() {
    let layout = Layout::new();
    assert_eq!(layout.get(0), None);
    assert!(layout.is_empty());
}

#[test]
fn insert_and_get() {
    let mut layout = Layout::new();
    assert_eq!(layout.insert(3, Point { x: 1, y: 2 }), None);
    assert_eq!(layout.get(3), Some(Point { x: 1, y: 2 }));
    assert_eq!(layout.insert(3, Point { x: 5, y: 6 }), Some(Point { x: 1, y: 2 }));
    assert_eq!(layout.get(3), Some(Point { x: 5, y: 6 }));
    assert_eq!(layout.get(4), None);
}

#[test]
fn point_or_origin_falls_back_to_the_centre() {
    let mut layout = Layout::new();
    layout.insert(1, Point { x: -300, y: 0 });
    assert_eq!(layout.point_or_origin(1), Point { x: -300, y: 0 });
    assert_eq!(layout.point_or_origin(2), Point { x: 0, y: 0 });
}

#[test]
fn from_and_into_a_plain_map() {
    let mut map: HashMap<NodeId, Point> = HashMap::new();
    map.insert(1, Point { x: -100, y: 100 });
    map.insert(2, Point { x: 300, y: 0 });
    let layout = Layout::from(map.clone());
    assert_eq!(layout.get(1), Some(Point { x: -100, y: 100 }));
    assert_eq!(layout.get(2), Some(Point { x: 300, y: 0 }));
    assert_eq!(layout.get(3), None);
    let back: HashMap<NodeId, Point> = layout.into();
    assert_eq!(back, map);
}

#[test]
fn deref_gives_the_plain_map() {
    let mut layout = Layout::new();
    layout.insert(1, Point { x: 1, y: 1 });
    assert_eq!(layout.len(), 1);
    assert!(layout.contains_key(&1));
    if let Some(point) = layout.get_mut(&1) {
        point.x = 42;
    }
    assert_eq!(layout.get(1), Some(Point { x: 42, y: 1 }));
    layout.remove(&1);
    assert_eq!(layout.get(1), None);
}

#[test]
fn a_clone_holds_the_same_positions() {
    let mut layout = conrod_graph_widget::Layout::new();
    layout.insert(1, conrod_graph_widget::Point { x: 7, y: -7 });
    let copy = layout.clone();
    assert_eq!(copy, layout);
    layout.insert(1, Point { x: 0, y: 0 });
    assert_eq!(copy.get(1), Some(Point { x: 7, y: -7 }));
    assert_ne!(copy, layout);
}
