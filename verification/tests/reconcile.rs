use conrod_graph_widget::event::{Event, NodeEvent, NodeId, NodeSocket};
use conrod_graph_widget::geometry::{Point, Range, Rect, Scalar};
use conrod_graph_widget::layout::Layout;
use conrod_graph_widget::shared::{Drags, Shared};
use std::any::TypeId;

struct Content;

fn host() -> conrod::Ui {
    conrod::UiBuilder::new([900.0, 500.0]).build()
}

fn point(x: Scalar, y: Scalar) -> Point {
    Point { x, y }
}

fn socket(id: NodeId, socket_index: usize) -> NodeSocket {
    NodeSocket { id, socket_index }
}

fn layout(entries: &[(NodeId, Point)]) -> Layout {
    let mut layout = Layout::new();
    for &(id, p) in entries {
        layout.insert(id, p);
    }
    layout
}

fn drags(entries: &[(NodeId, Point)]) -> Drags {
    let mut drags = Drags::new();
    for &(id, by) in entries {
        drags.insert(id, by);
    }
    drags
}

// Draws every node of the graph, as the caller does in the second stage of a session.
fn draw_nodes(shared: &mut Shared, ui: &mut conrod::UiCell) {
    let ids = shared.node_ids().clone();
    for id in ids {
        shared.next_id_for_node(TypeId::of::<Content>(), id, ui);
    }
}

fn drain(shared: &mut Shared) -> Vec<Event> {
    let mut events = Vec::new();
    while let Some(event) = shared.pop_event() {
        events.push(event);
    }
    events
}

#[test]
fn new_state_is_empty() {
    let mut shared = Shared::new();
    assert!(shared.node_ids().is_empty());
    assert!(shared.edges().is_empty());
    assert_eq!(shared.pending_events(), 0);
    assert_eq!(shared.pop_event(), None);
    assert_eq!(shared.node_point(0), None);
    assert_eq!(shared.node_widget_id(0), None);
    assert_eq!(shared.node_at(0), None);
    assert_eq!(shared.edge_at(0), None);
}

#[test]
fn drags_default_to_nothing() {
    let mut d = Drags::new();
    assert_eq!(d.delta_of(1), point(0, 0));
    d.insert(1, point(3, -4));
    assert_eq!(d.delta_of(1), point(3, -4));
    assert_eq!(d.delta_of(2), point(0, 0));
    d.insert(1, point(5, 5));
    assert_eq!(d.delta_of(1), point(5, 5));
}

#[test]
fn reconcile_takes_over_nodes_and_edges() {
    let mut shared = Shared::new();
    let l = layout(&[(1, point(-100, 100)), (2, point(100, 0))]);
    let edges = vec![(socket(1, 0), socket(2, 1)), (socket(1, 1), socket(2, 0))];
    shared.reconcile(&vec![1, 2, 3], &edges, &l, &Drags::new());
    assert_eq!(shared.node_ids(), &vec![1, 2, 3]);
    assert_eq!(shared.edges(), &edges);
    assert_eq!(shared.node_point(1), Some(point(-100, 100)));
    assert_eq!(shared.node_point(2), Some(point(100, 0)));
    // A node that the layout does not know sits at the centre.
    assert_eq!(shared.node_point(3), Some(point(0, 0)));
    assert_eq!(shared.node_point(4), None);
    assert_eq!(shared.pending_events(), 0);
    assert_eq!(shared.node_at(0), Some((1, point(-100, 100))));
    assert_eq!(shared.node_at(2), Some((3, point(0, 0))));
    assert_eq!(shared.node_at(3), None);
    assert_eq!(shared.edge_at(1), Some((socket(1, 1), socket(2, 0))));
    assert_eq!(shared.edge_at(2), None);
}

#[test]
fn reconcile_follows_the_new_graph() {
    let mut shared = Shared::new();
    let l = layout(&[(1, point(1, 1)), (2, point(2, 2)), (3, point(3, 3)), (4, point(4, 4))]);
    let none = Drags::new();
    shared.reconcile(&vec![1, 2, 3], &vec![(socket(1, 0), socket(2, 0))], &l, &none);
    // A node is put in the middle, an edge is added.
    let edges = vec![(socket(1, 0), socket(2, 0)), (socket(4, 0), socket(3, 0))];
    shared.reconcile(&vec![1, 4, 2, 3], &edges, &l, &none);
    assert_eq!(shared.node_ids(), &vec![1, 4, 2, 3]);
    assert_eq!(shared.edges(), &edges);
    assert_eq!(shared.node_point(4), Some(point(4, 4)));
    // Nodes and edges go.
    shared.reconcile(&vec![1, 4], &Vec::new(), &l, &none);
    assert_eq!(shared.node_ids(), &vec![1, 4]);
    assert!(shared.edges().is_empty());
    assert_eq!(shared.node_point(2), None);
    assert_eq!(shared.node_point(3), None);
    assert_eq!(shared.node_point(1), Some(point(1, 1)));
    // The whole graph goes.
    shared.reconcile(&Vec::new(), &Vec::new(), &l, &none);
    assert!(shared.node_ids().is_empty());
    assert_eq!(shared.node_point(1), None);
}

#[test]
fn reconcile_follows_the_layout() {
    let mut shared = Shared::new();
    let none = Drags::new();
    shared.reconcile(&vec![1], &Vec::new(), &layout(&[(1, point(5, 5))]), &none);
    assert_eq!(shared.node_point(1), Some(point(5, 5)));
    shared.reconcile(&vec![1], &Vec::new(), &layout(&[(1, point(-8, 13))]), &none);
    assert_eq!(shared.node_point(1), Some(point(-8, 13)));
    shared.reconcile(&vec![1], &Vec::new(), &Layout::new(), &none);
    assert_eq!(shared.node_point(1), Some(point(0, 0)));
}

#[test]
fn a_drag_is_ignored_for_a_node_without_a_widget() {
    let mut shared = Shared::new();
    let l = layout(&[(1, point(10, 10))]);
    // The node has never been drawn, so there is no widget that could have been dragged.
    shared.reconcile(&vec![1], &Vec::new(), &l, &drags(&[(1, point(3, 3))]));
    assert_eq!(shared.node_point(1), Some(point(10, 10)));
    assert_eq!(shared.pending_events(), 0);
}

#[test]
fn drag_round_trip() {
    let mut host = host();
    let mut ui = host.set_widgets();
    let mut shared = Shared::new();
    let l = layout(&[(1, point(10, 20)), (2, point(-30, 40))]);
    shared.reconcile(&vec![1, 2], &Vec::new(), &l, &Drags::new());
    draw_nodes(&mut shared, &mut ui);
    shared.reconcile(&vec![1, 2], &Vec::new(), &l, &drags(&[(2, point(7, -9))]));
    assert_eq!(shared.node_point(1), Some(point(10, 20)));
    assert_eq!(shared.node_point(2), Some(point(-23, 31)));
    assert_eq!(
        drain(&mut shared),
        vec![Event::Node(NodeEvent::Dragged {
            node_id: 2,
            from: point(-30, 40),
            to: point(-23, 31),
        })]
    );
}

#[test]
fn a_drag_along_one_axis_counts() {
    let mut host = host();
    let mut ui = host.set_widgets();
    let mut shared = Shared::new();
    let l = layout(&[(1, point(0, 0)), (2, point(0, 0))]);
    shared.reconcile(&vec![1, 2], &Vec::new(), &l, &Drags::new());
    draw_nodes(&mut shared, &mut ui);
    shared.reconcile(&vec![1, 2], &Vec::new(), &l, &drags(&[(1, point(4, 0)), (2, point(0, -4))]));
    assert_eq!(
        drain(&mut shared),
        vec![
            Event::Node(NodeEvent::Dragged { node_id: 1, from: point(0, 0), to: point(4, 0) }),
            Event::Node(NodeEvent::Dragged { node_id: 2, from: point(0, 0), to: point(0, -4) }),
        ]
    );
}

#[test]
fn a_drag_by_nothing_is_no_drag() {
    let mut host = host();
    let mut ui = host.set_widgets();
    let mut shared = Shared::new();
    let l = layout(&[(1, point(10, 20))]);
    shared.reconcile(&vec![1], &Vec::new(), &l, &Drags::new());
    draw_nodes(&mut shared, &mut ui);
    shared.reconcile(&vec![1], &Vec::new(), &l, &drags(&[(1, point(0, 0))]));
    assert_eq!(shared.node_point(1), Some(point(10, 20)));
    assert_eq!(shared.pending_events(), 0);
}

#[test]
fn a_widget_counts_for_one_frame_only() {
    let mut host = host();
    let mut ui = host.set_widgets();
    let mut shared = Shared::new();
    let l = layout(&[(1, point(10, 20))]);
    shared.reconcile(&vec![1], &Vec::new(), &l, &Drags::new());
    draw_nodes(&mut shared, &mut ui);
    assert!(shared.node_widget_id(1).is_some());
    // Reconciliation clears the mappings from nodes to widgets.
    shared.reconcile(&vec![1], &Vec::new(), &l, &Drags::new());
    assert_eq!(shared.node_widget_id(1), None);
    // The node is not drawn in this frame, so a drag reported in the next one finds no widget.
    shared.reconcile(&vec![1], &Vec::new(), &l, &drags(&[(1, point(1, 1))]));
    assert_eq!(shared.node_point(1), Some(point(10, 20)));
    assert_eq!(shared.pending_events(), 0);
}

#[test]
fn a_drag_stops_at_the_bounds() {
    let mut host = host();
    let mut ui = host.set_widgets();
    let mut shared = Shared::new();
    let l = layout(&[(1, point(Scalar::MAX - 1, Scalar::MIN + 1))]);
    shared.reconcile(&vec![1], &Vec::new(), &l, &Drags::new());
    draw_nodes(&mut shared, &mut ui);
    shared.reconcile(&vec![1], &Vec::new(), &l, &drags(&[(1, point(5, -5))]));
    let to = point(Scalar::MAX, Scalar::MIN);
    assert_eq!(shared.node_point(1), Some(to));
    assert_eq!(
        drain(&mut shared),
        vec![Event::Node(NodeEvent::Dragged {
            node_id: 1,
            from: point(Scalar::MAX - 1, Scalar::MIN + 1),
            to,
        })]
    );
}

#[test]
fn events_wait_in_the_order_in_which_they_occurred() {
    let mut host = host();
    let mut ui = host.set_widgets();
    let mut shared = Shared::new();
    let l = layout(&[(1, point(0, 0)), (2, point(10, 10)), (3, point(20, 20))]);
    let nodes = vec![1, 2, 3];
    shared.reconcile(&nodes, &Vec::new(), &l, &Drags::new());
    draw_nodes(&mut shared, &mut ui);
    shared.reconcile(&nodes, &Vec::new(), &l, &drags(&[(3, point(1, 1)), (1, point(2, 2))]));
    draw_nodes(&mut shared, &mut ui);
    // The caller has not asked for the events of the last frame yet.
    assert_eq!(shared.pending_events(), 2);
    shared.reconcile(&nodes, &Vec::new(), &l, &drags(&[(2, point(3, 3))]));
    assert_eq!(shared.pending_events(), 3);
    let dragged = |node_id, from, to| Event::Node(NodeEvent::Dragged { node_id, from, to });
    assert_eq!(shared.pop_event(), Some(dragged(1, point(0, 0), point(2, 2))));
    assert_eq!(shared.pending_events(), 2);
    assert_eq!(shared.pop_event(), Some(dragged(3, point(20, 20), point(21, 21))));
    assert_eq!(shared.pop_event(), Some(dragged(2, point(10, 10), point(13, 13))));
    assert_eq!(shared.pop_event(), None);
    assert_eq!(shared.pop_event(), None);
    assert_eq!(shared.pending_events(), 0);
}

#[test]
fn a_node_that_is_given_twice_is_placed_once_and_told_of_twice() {
    let mut host = host();
    let mut ui = host.set_widgets();
    let mut shared = Shared::new();
    let l = layout(&[(1, point(0, 0))]);
    shared.reconcile(&vec![1, 1], &Vec::new(), &l, &Drags::new());
    assert_eq!(shared.node_ids(), &vec![1, 1]);
    draw_nodes(&mut shared, &mut ui);
    shared.reconcile(&vec![1, 1], &Vec::new(), &l, &drags(&[(1, point(1, 2))]));
    assert_eq!(shared.node_point(1), Some(point(1, 2)));
    let event = Event::Node(NodeEvent::Dragged { node_id: 1, from: point(0, 0), to: point(1, 2) });
    assert_eq!(drain(&mut shared), vec![event, event]);
}

#[test]
fn reconciliation_resets_the_pool() {
    let mut host = host();
    let mut ui = host.set_widgets();
    let mut shared = Shared::new();
    let l = Layout::new();
    shared.reconcile(&vec![1, 2], &Vec::new(), &l, &Drags::new());
    let t = TypeId::of::<Content>();
    let a = shared.next_id_for_node(t, 1, &mut ui);
    let b = shared.next_id_for_node(t, 2, &mut ui);
    let wire = shared.next_id_for_edge(TypeId::of::<NodeSocket>(), &mut ui);
    let grown = ui.widget_graph().node_count();
    shared.reconcile(&vec![2, 1], &Vec::new(), &l, &Drags::new());
    // Identifiers go by the order of the requests, not by the node.
    assert_eq!(shared.next_id_for_node(t, 2, &mut ui), a);
    assert_eq!(shared.next_id_for_node(t, 1, &mut ui), b);
    assert_eq!(
        shared.next_id_for_edge(TypeId::of::<NodeSocket>(), &mut ui),
        wire
    );
    assert_eq!(shared.node_widget_id(2), Some(a));
    assert_eq!(shared.node_widget_id(1), Some(b));
    assert_eq!(ui.widget_graph().node_count(), grown);
}

#[test]
fn has_spare_after_reconciliation() {
    let mut host = host();
    let mut ui = host.set_widgets();
    let mut shared = Shared::new();
    let l = Layout::new();
    let t = TypeId::of::<Content>();
    shared.reconcile(&vec![1], &Vec::new(), &l, &Drags::new());
    assert!(!shared.has_spare(t));
    shared.next_id_for_node(t, 1, &mut ui);
    assert!(!shared.has_spare(t));
    shared.reconcile(&vec![1], &Vec::new(), &l, &Drags::new());
    assert!(shared.has_spare(t));
    assert!(!shared.has_spare(TypeId::of::<NodeSocket>()));
}

#[test]
fn node_rect_falls_back_to_the_position() {
    let mut host = host();
    let mut ui = host.set_widgets();
    let mut shared = Shared::new();
    let l = layout(&[(1, point(-300, 0)), (2, point(100, 0))]);
    shared.reconcile(&vec![1, 2], &Vec::new(), &l, &Drags::new());
    let host = Rect { x: Range { start: -340, end: -260 }, y: Range { start: -15, end: 15 } };
    // No node has been drawn yet: what the host says of some rectangle does not count.
    assert_eq!(shared.node_rect(1, None), Rect::at_point(point(-300, 0)));
    assert_eq!(shared.node_rect(1, Some(host)), Rect::at_point(point(-300, 0)));
    shared.next_id_for_node(TypeId::of::<Content>(), 1, &mut ui);
    assert_eq!(shared.node_rect(1, Some(host)), host);
    // The node is drawn, but the host does not know its rectangle.
    assert_eq!(shared.node_rect(1, None), Rect::at_point(point(-300, 0)));
    assert_eq!(shared.node_rect(2, Some(host)), Rect::at_point(point(100, 0)));
    // A node that the graph does not have.
    assert_eq!(shared.node_rect(9, None), Rect::at_point(point(0, 0)));
    assert_eq!(shared.node_rect(9, Some(host)), Rect::at_point(point(0, 0)));
}
