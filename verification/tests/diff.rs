use conrod_graph_widget::diff::{apply_diff, iter_diff, update_retained, Element, IterDiff};
use conrod_graph_widget::event::{NodeId, NodeSocket};

fn socket(id: NodeId, socket_index: usize) -> NodeSocket {
    NodeSocket { id, socket_index }
}

#[test]
fn same_tells_node_ids_apart() {
    assert!(7u64.same(&7));
    assert!(!7u64.same(&8));
}

#[test]
fn same_tells_edges_apart() {
    let edge = (socket(1, 0), socket(2, 3));
    assert!(edge.same(&(socket(1, 0), socket(2, 3))));
    assert!(!edge.same(&(socket(1, 1), socket(2, 3))));
    assert!(!edge.same(&(socket(1, 0), socket(2, 2))));
    assert!(!edge.same(&(socket(9, 0), socket(2, 3))));
    assert!(!edge.same(&(socket(1, 0), socket(9, 3))));
    assert!(!edge.same(&(socket(2, 3), socket(1, 0))));
}

#[test]
fn iter_diff_of_equal_sequences() {
    let a: Vec<NodeId> = vec![1, 2, 3];
    assert!(iter_diff(&a, &vec![1, 2, 3]).is_none());
    let empty: Vec<NodeId> = Vec::new();
    assert!(iter_diff(&empty, &Vec::new()).is_none());
}

#[test]
fn iter_diff_first_mismatch() {
    let a: Vec<NodeId> = vec![1, 2, 3, 4];
    match iter_diff(&a, &vec![1, 2, 9, 4, 5]) {
        Some(IterDiff::FirstMismatch(i, rest)) => {
            assert_eq!(i, 2);
            assert_eq!(rest, vec![9, 4, 5]);
        }
        other => panic!("{:?}", other),
    }
    match iter_diff(&a, &vec![0]) {
        Some(IterDiff::FirstMismatch(i, rest)) => {
            assert_eq!(i, 0);
            assert_eq!(rest, vec![0]);
        }
        other => panic!("{:?}", other),
    }
    match iter_diff(&a, &vec![1, 2, 3, 5]) {
        Some(IterDiff::FirstMismatch(i, rest)) => {
            assert_eq!(i, 3);
            assert_eq!(rest, vec![5]);
        }
        other => panic!("{:?}", other),
    }
}

#[test]
fn iter_diff_longer() {
    let a: Vec<NodeId> = vec![1, 2];
    match iter_diff(&a, &vec![1, 2, 3, 4]) {
        Some(IterDiff::Longer(rest)) => assert_eq!(rest, vec![3, 4]),
        other => panic!("{:?}", other),
    }
    let empty: Vec<NodeId> = Vec::new();
    match iter_diff(&empty, &vec![5]) {
        Some(IterDiff::Longer(rest)) => assert_eq!(rest, vec![5]),
        other => panic!("{:?}", other),
    }
}

#[test]
fn iter_diff_shorter() {
    let a: Vec<NodeId> = vec![1, 2, 3];
    match iter_diff(&a, &vec![1]) {
        Some(IterDiff::Shorter(total)) => assert_eq!(total, 1),
        other => panic!("{:?}", other),
    }
    match iter_diff(&a, &Vec::new()) {
        Some(IterDiff::Shorter(total)) => assert_eq!(total, 0),
        other => panic!("{:?}", other),
    }
}

#[test]
fn iter_diff_of_edges() {
    let a = vec![(socket(1, 0), socket(2, 0)), (socket(2, 0), socket(3, 0))];
    let b = vec![(socket(1, 0), socket(2, 0)), (socket(2, 1), socket(3, 0))];
    match iter_diff(&a, &b) {
        Some(IterDiff::FirstMismatch(i, rest)) => {
            assert_eq!(i, 1);
            assert_eq!(rest, vec![(socket(2, 1), socket(3, 0))]);
        }
        other => panic!("{:?}", other),
    }
}

#[test]
fn apply_diff_each_way() {
    let mut v: Vec<NodeId> = vec![1, 2, 3, 4];
    apply_diff(&mut v, None);
    assert_eq!(v, vec![1, 2, 3, 4]);
    apply_diff(&mut v, Some(IterDiff::FirstMismatch(1, vec![7, 8])));
    assert_eq!(v, vec![1, 7, 8]);
    apply_diff(&mut v, Some(IterDiff::Longer(vec![9, 10])));
    assert_eq!(v, vec![1, 7, 8, 9, 10]);
    apply_diff(&mut v, Some(IterDiff::Shorter(2)));
    assert_eq!(v, vec![1, 7]);
}

#[test]
fn apply_diff_keeps_what_is_there_when_asked_for_more() {
    let mut v: Vec<NodeId> = vec![1, 2];
    apply_diff(&mut v, Some(IterDiff::Shorter(5)));
    assert_eq!(v, vec![1, 2]);
    apply_diff(&mut v, Some(IterDiff::FirstMismatch(9, vec![3])));
    assert_eq!(v, vec![1, 2, 3]);
}

fn check_update(retained: Vec<NodeId>, new: Vec<NodeId>, expected_kept: usize) {
    let mut v = retained.clone();
    let kept = update_retained(&mut v, &new);
    assert_eq!(kept, expected_kept);
    assert_eq!(v, new);
    let mut spliced: Vec<NodeId> = retained[..kept].to_vec();
    spliced.extend_from_slice(&new[kept..]);
    assert_eq!(v, spliced);
}

#[test]
fn update_retained_identical() {
    check_update(vec![1, 2, 3], vec![1, 2, 3], 3);
    check_update(vec![], vec![], 0);
}

#[test]
fn update_retained_pure_extension() {
    check_update(vec![1, 2], vec![1, 2, 3, 4], 2);
    check_update(vec![], vec![1], 0);
}

#[test]
fn update_retained_pure_truncation() {
    check_update(vec![1, 2, 3, 4], vec![1, 2], 2);
    check_update(vec![1, 2, 3, 4], vec![], 0);
}

#[test]
fn update_retained_insertion_in_the_middle() {
    check_update(vec![1, 2, 3, 4], vec![1, 9, 2, 3, 4], 1);
}

#[test]
fn update_retained_removal_in_the_middle() {
    check_update(vec![1, 2, 3, 4], vec![1, 3, 4], 1);
}

#[test]
fn update_retained_mismatch_then_shorter_or_longer() {
    check_update(vec![1, 2, 3, 4], vec![1, 2, 5], 2);
    check_update(vec![1, 2, 3], vec![1, 2, 5, 6, 7], 2);
    check_update(vec![1, 2, 3], vec![4, 5, 6], 0);
}

#[test]
fn update_retained_edges() {
    let mut retained = vec![(socket(0, 1), socket(2, 0)), (socket(0, 0), socket(3, 1))];
    let new = vec![
        (socket(0, 1), socket(2, 0)),
        (socket(0, 0), socket(3, 1)),
        (socket(1, 0), socket(3, 0)),
    ];
    assert_eq!(update_retained(&mut retained, &new), 2);
    assert_eq!(retained, new);
    let fewer = vec![(socket(0, 1), socket(2, 0))];
    assert_eq!(update_retained(&mut retained, &fewer), 1);
    assert_eq!(retained, fewer);
}
