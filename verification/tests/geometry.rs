use conrod_graph_widget::geometry::{
    range_scalar, socket_point, Direction, Point, Range, Rect, Scalar, SocketLayout,
    SocketLayouts, SocketSide, PAD, SOCKET_PADDING,
};

fn rect(x: (Scalar, Scalar), y: (Scalar, Scalar)) -> Rect {
    Rect { x: Range { start: x.0, end: x.1 }, y: Range { start: y.0, end: y.1 } }
}

#[test]
fn padding_constants() {
    assert_eq!(SOCKET_PADDING, 10);
    assert_eq!(PAD, 5);
    assert_eq!(PAD * 2, SOCKET_PADDING);
}

#[test]
fn origin_is_the_centre() {
    assert_eq!(Point::origin(), Point { x: 0, y: 0 });
}

#[test]
fn is_zero_only_for_no_displacement() {
    assert!(Point { x: 0, y: 0 }.is_zero());
    assert!(!Point { x: 1, y: 0 }.is_zero());
    assert!(!Point { x: 0, y: -1 }.is_zero());
    assert!(!Point { x: 3, y: 4 }.is_zero());
}

#[test]
fn moved_by_adds_each_coordinate() {
    let p = Point { x: 100, y: 0 };
    assert_eq!(p.moved_by(Point { x: 10, y: 10 }), Point { x: 110, y: 10 });
    assert_eq!(p.moved_by(Point { x: -250, y: -7 }), Point { x: -150, y: -7 });
    assert_eq!(p.moved_by(Point { x: 0, y: 0 }), p);
}

#[test]
fn moved_by_stops_at_the_bounds() {
    let far = Point { x: Scalar::MAX, y: Scalar::MIN };
    assert_eq!(far.moved_by(Point { x: 1, y: -1 }), far);
    assert_eq!(
        far.moved_by(Point { x: Scalar::MAX, y: Scalar::MIN }),
        Point { x: Scalar::MAX, y: Scalar::MIN }
    );
    assert_eq!(
        far.moved_by(Point { x: -1, y: 1 }),
        Point { x: Scalar::MAX - 1, y: Scalar::MIN + 1 }
    );
    assert_eq!(
        Point { x: Scalar::MAX - 3, y: 0 }.moved_by(Point { x: 3, y: 0 }),
        Point { x: Scalar::MAX, y: 0 }
    );
}

#[test]
fn rect_at_point_has_no_size() {
    let r = Rect::at_point(Point { x: -100, y: 100 });
    assert_eq!(r, rect((-100, -100), (100, 100)));
}

#[test]
fn default_layouts_go_down_the_sides() {
    assert_eq!(
        SocketLayout::default_input(),
        SocketLayout { side: SocketSide::Left, direction: Direction::Backwards }
    );
    assert_eq!(
        SocketLayout::default_output(),
        SocketLayout { side: SocketSide::Right, direction: Direction::Backwards }
    );
}

#[test]
fn range_scalar_forwards() {
    let range = Range { start: -50, end: 50 };
    assert_eq!(range_scalar(0, range, Direction::Forwards), -45);
    assert_eq!(range_scalar(1, range, Direction::Forwards), -35);
    assert_eq!(range_scalar(2, range, Direction::Forwards), -25);
    assert_eq!(range_scalar(7, range, Direction::Forwards), 25);
}

#[test]
fn range_scalar_backwards() {
    let range = Range { start: -50, end: 50 };
    assert_eq!(range_scalar(0, range, Direction::Backwards), 45);
    assert_eq!(range_scalar(1, range, Direction::Backwards), 35);
    assert_eq!(range_scalar(2, range, Direction::Backwards), 25);
    assert_eq!(range_scalar(7, range, Direction::Backwards), -25);
}

#[test]
fn range_scalar_ignores_the_far_end() {
    let a = Range { start: 3, end: 1000 };
    let b = Range { start: 3, end: -1000 };
    assert_eq!(range_scalar(4, a, Direction::Forwards), range_scalar(4, b, Direction::Forwards));
    assert_eq!(range_scalar(4, a, Direction::Forwards), 48);
    let c = Range { start: 77, end: 9 };
    let d = Range { start: -77, end: 9 };
    assert_eq!(range_scalar(4, c, Direction::Backwards), range_scalar(4, d, Direction::Backwards));
    assert_eq!(range_scalar(4, c, Direction::Backwards), -36);
}

#[test]
fn range_scalar_stops_at_the_bounds() {
    let high = Range { start: Scalar::MAX - 7, end: Scalar::MAX };
    assert_eq!(range_scalar(0, high, Direction::Forwards), Scalar::MAX - 2);
    assert_eq!(range_scalar(1, high, Direction::Forwards), Scalar::MAX);
    assert_eq!(range_scalar(usize::MAX, high, Direction::Forwards), Scalar::MAX);
    let low = Range { start: Scalar::MIN, end: Scalar::MIN + 7 };
    assert_eq!(range_scalar(0, low, Direction::Backwards), Scalar::MIN + 2);
    assert_eq!(range_scalar(1, low, Direction::Backwards), Scalar::MIN);
    assert_eq!(range_scalar(usize::MAX, low, Direction::Backwards), Scalar::MIN);
    let middle = Range { start: 0, end: 0 };
    assert_eq!(range_scalar(usize::MAX, middle, Direction::Forwards), Scalar::MAX);
    assert_eq!(range_scalar(usize::MAX, middle, Direction::Backwards), Scalar::MIN);
}

#[test]
fn socket_point_on_each_side() {
    let r = rect((-40, 60), (-20, 30));
    let xy = Point { x: 10, y: 5 };
    let at =
        |side, direction, index| socket_point(index, r, xy, &SocketLayout { side, direction });
    assert_eq!(at(SocketSide::Left, Direction::Backwards, 0), Point { x: -40, y: 25 });
    assert_eq!(at(SocketSide::Left, Direction::Forwards, 0), Point { x: -40, y: -15 });
    assert_eq!(at(SocketSide::Right, Direction::Backwards, 2), Point { x: 60, y: 5 });
    assert_eq!(at(SocketSide::Right, Direction::Forwards, 2), Point { x: 60, y: 5 });
    assert_eq!(at(SocketSide::Bottom, Direction::Forwards, 1), Point { x: -25, y: -20 });
    assert_eq!(at(SocketSide::Bottom, Direction::Backwards, 1), Point { x: 45, y: -20 });
    assert_eq!(at(SocketSide::Top, Direction::Forwards, 3), Point { x: -5, y: 30 });
    assert_eq!(at(SocketSide::Top, Direction::Backwards, 3), Point { x: 25, y: 30 });
}

#[test]
fn right_backwards_anchors() {
    let r = rect((0, 100), (-20, 20));
    let layout = SocketLayout { side: SocketSide::Right, direction: Direction::Backwards };
    let xy = Point { x: 50, y: 0 };
    let first = socket_point(0, r, xy, &layout);
    let second = socket_point(1, r, xy, &layout);
    assert_eq!(first, Point { x: r.x.end, y: r.y.end - PAD });
    assert_eq!(second, Point { x: r.x.end, y: r.y.end - PAD - SOCKET_PADDING });
    assert_eq!(first, Point { x: 100, y: 15 });
    assert_eq!(second, Point { x: 100, y: 5 });
}

#[test]
fn anchors_keep_the_order_of_their_indices() {
    let r = rect((-30, 30), (-80, 80));
    let xy = Point { x: 0, y: 0 };
    let sides = [SocketSide::Left, SocketSide::Right, SocketSide::Top, SocketSide::Bottom];
    for side in sides {
        for index in 0..20usize {
            let forwards = SocketLayout { side, direction: Direction::Forwards };
            let backwards = SocketLayout { side, direction: Direction::Backwards };
            let f0 = socket_point(index, r, xy, &forwards);
            let f1 = socket_point(index + 1, r, xy, &forwards);
            let b0 = socket_point(index, r, xy, &backwards);
            let b1 = socket_point(index + 1, r, xy, &backwards);
            match side {
                SocketSide::Left | SocketSide::Right => {
                    assert_eq!(f0.x, f1.x);
                    assert_eq!(f1.y - f0.y, SOCKET_PADDING);
                    assert_eq!(b0.y - b1.y, SOCKET_PADDING);
                }
                SocketSide::Top | SocketSide::Bottom => {
                    assert_eq!(f0.y, f1.y);
                    assert_eq!(f1.x - f0.x, SOCKET_PADDING);
                    assert_eq!(b0.x - b1.x, SOCKET_PADDING);
                }
            }
        }
    }
}

#[test]
fn sockets_of_an_undrawn_node_are_at_its_position() {
    let xy = Point { x: 100, y: 0 };
    let at = Rect::at_point(xy);
    assert!(at.is_degenerate());
    let layouts = SocketLayouts {
        input: SocketLayout::default_input(),
        output: SocketLayout::default_output(),
    };
    assert_eq!(socket_point(0, at, xy, &layouts.output), xy);
    assert_eq!(socket_point(1, at, xy, &layouts.output), xy);
    assert_eq!(socket_point(0, at, xy, &layouts.input), xy);
    assert_eq!(socket_point(2, at, xy, &layouts.input), xy);
    let sides = [SocketSide::Left, SocketSide::Right, SocketSide::Top, SocketSide::Bottom];
    for side in sides {
        for direction in [Direction::Forwards, Direction::Backwards] {
            for index in [0usize, 1, 7, usize::MAX] {
                assert_eq!(socket_point(index, at, xy, &SocketLayout { side, direction }), xy);
            }
        }
    }
}

#[test]
fn a_rectangle_without_area_has_no_sides_for_sockets() {
    let xy = Point { x: 3, y: 4 };
    let layout = SocketLayout::default_output();
    // No width, no height, or neither: the socket is at the node's position.
    let flat = rect((-40, 40), (7, 7));
    let thin = rect((9, 9), (-20, 20));
    let dot = rect((1, 1), (2, 2));
    assert!(flat.is_degenerate());
    assert!(thin.is_degenerate());
    assert!(dot.is_degenerate());
    assert_eq!(socket_point(0, flat, xy, &layout), xy);
    assert_eq!(socket_point(1, thin, xy, &layout), xy);
    assert_eq!(socket_point(2, dot, xy, &layout), xy);
    // One unit of width and height is an area.
    let small = rect((0, 1), (0, 1));
    assert!(!small.is_degenerate());
    assert_eq!(socket_point(0, small, xy, &layout), Point { x: 1, y: -4 });
    // A rectangle whose ranges run backwards has an area too.
    let turned = rect((40, -40), (20, -20));
    assert!(!turned.is_degenerate());
    assert_eq!(socket_point(0, turned, xy, &layout), Point { x: -40, y: -25 });
}
