//! Checks of the index translation and the value-transfer model.

use riqtshaw::text::dec_string;
use riqtshaw::translator::{
    complex_transfer_required, complex_transfers, row_from_boundary, TreeLayout,
};

fn sample_tree() -> TreeLayout {
    // root
    //  └─ 0
    //     ├─ 1
    //     └─ 2
    TreeLayout {
        parent_of: vec![None, Some(0), Some(0)],
        row_of: vec![0, 0, 1],
        root_children: vec![0],
        child_lists: vec![vec![1, 2], vec![], vec![]],
    }
}

#[test]
fn negative_row_translates_to_absent() {
    assert_eq!(row_from_boundary(-1), None);
    assert_eq!(row_from_boundary(i32::MIN), None);
    assert_eq!(row_from_boundary(0), Some(0));
    assert_eq!(row_from_boundary(41), Some(41));
}

#[test]
fn tree_round_trip_from_node() {
    let t = sample_tree();
    for h in 0..3usize {
        let p = t.parent(h);
        let r = t.row(h);
        assert_eq!(t.index_at(p, r), h);
    }
}

#[test]
fn tree_round_trip_from_position() {
    let t = sample_tree();
    assert_eq!(t.index_at(None, 0), 0);
    assert_eq!(t.parent(t.index_at(Some(0), 0)), Some(0));
    assert_eq!(t.row(t.index_at(Some(0), 1)), 1);
    assert_eq!(t.row_count(None), 1);
    assert_eq!(t.row_count(Some(0)), 2);
    assert_eq!(t.row_count(Some(1)), 0);
}

#[test]
fn check_row_rejects_negative_and_out_of_range() {
    let t = sample_tree();
    assert_eq!(t.check_row(Some(0), -1), None);
    assert_eq!(t.check_row(Some(0), 0), Some(1));
    assert_eq!(t.check_row(Some(0), 1), Some(2));
    assert_eq!(t.check_row(Some(0), 2), None);
    assert_eq!(t.check_row(None, 0), Some(0));
    assert_eq!(t.check_row(None, 7), None);
}

#[test]
fn well_formedness_check_accepts_the_sample_and_rejects_corruption() {
    assert!(sample_tree().is_wf());
    let empty = TreeLayout {
        parent_of: vec![],
        row_of: vec![],
        root_children: vec![],
        child_lists: vec![],
    };
    assert!(empty.is_wf());

    let mut bad = sample_tree();
    bad.row_of[2] = 0;
    assert!(!bad.is_wf());

    let mut bad = sample_tree();
    bad.parent_of[1] = Some(7);
    assert!(!bad.is_wf());

    let mut bad = sample_tree();
    bad.child_lists[0] = vec![2, 1];
    assert!(!bad.is_wf());
}

#[test]
fn absent_value_is_delivered_zero_times() {
    let calls = complex_transfers(None);
    assert_eq!(calls.len(), 0);
}

#[test]
fn present_value_is_delivered_once_with_its_length() {
    let value = vec![1u8, 2, 3, 4, 5];
    let calls = complex_transfers(Some(value.clone()));
    assert_eq!(calls.len(), 1);
    assert_eq!(calls[0], value);
    assert_eq!(calls[0].len(), 5);

    let calls = complex_transfer_required(b"abc".to_vec());
    assert_eq!(calls.len(), 1);
    assert_eq!(calls[0], b"abc".to_vec());
}

#[test]
fn decimal_formatting() {
    assert_eq!(dec_string(0), "0");
    assert_eq!(dec_string(7), "7");
    assert_eq!(dec_string(10), "10");
    assert_eq!(dec_string(256), "256");
    assert_eq!(dec_string(18446744073709551615), "18446744073709551615");
}
