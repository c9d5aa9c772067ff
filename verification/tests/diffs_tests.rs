use matrix_svelte::diffs::{apply_to_mirror, ListDiff};

fn mirror(vals: &[u32]) -> Vec<u32> {
    vals.to_vec()
}

#[test]
fn append_extends_the_tail() {
    let mut m = mirror(&[1, 2]);
    apply_to_mirror(&mut m, ListDiff::Append { values: vec![3, 4] });
    assert_eq!(m, vec![1, 2, 3, 4]);
}

#[test]
fn clear_empties_the_mirror() {
    let mut m = mirror(&[1, 2, 3]);
    apply_to_mirror(&mut m, ListDiff::Clear);
    assert_eq!(m, Vec::<u32>::new());
}

#[test]
fn push_front_and_back() {
    let mut m = mirror(&[5]);
    apply_to_mirror(&mut m, ListDiff::PushFront { value: 4 });
    apply_to_mirror(&mut m, ListDiff::PushBack { value: 6 });
    assert_eq!(m, vec![4, 5, 6]);
}

#[test]
fn pop_front_and_back() {
    let mut m = mirror(&[1, 2, 3]);
    apply_to_mirror(&mut m, ListDiff::PopFront);
    apply_to_mirror(&mut m, ListDiff::PopBack);
    assert_eq!(m, vec![2]);
}

#[test]
fn pop_on_empty_mirror_is_a_no_op() {
    let mut m: Vec<u32> = Vec::new();
    apply_to_mirror(&mut m, ListDiff::PopFront);
    apply_to_mirror(&mut m, ListDiff::PopBack);
    assert_eq!(m, Vec::<u32>::new());
}

#[test]
fn insert_set_remove_at_index() {
    let mut m = mirror(&[10, 30]);
    apply_to_mirror(&mut m, ListDiff::Insert { index: 1, value: 20 });
    assert_eq!(m, vec![10, 20, 30]);
    apply_to_mirror(&mut m, ListDiff::SetAt { index: 2, value: 31 });
    assert_eq!(m, vec![10, 20, 31]);
    apply_to_mirror(&mut m, ListDiff::Remove { index: 0 });
    assert_eq!(m, vec![20, 31]);
}

#[test]
fn out_of_bounds_diffs_are_skipped() {
    let mut m = mirror(&[1, 2]);
    apply_to_mirror(&mut m, ListDiff::Insert { index: 5, value: 9 });
    apply_to_mirror(&mut m, ListDiff::SetAt { index: 2, value: 9 });
    apply_to_mirror(&mut m, ListDiff::Remove { index: 2 });
    assert_eq!(m, vec![1, 2]);
}

#[test]
fn truncate_keeps_the_prefix() {
    let mut m = mirror(&[1, 2, 3, 4]);
    apply_to_mirror(&mut m, ListDiff::Truncate { length: 2 });
    assert_eq!(m, vec![1, 2]);
    apply_to_mirror(&mut m, ListDiff::Truncate { length: 7 });
    assert_eq!(m, vec![1, 2]);
}

#[test]
fn reset_replaces_the_whole_mirror() {
    let mut m = mirror(&[1, 2, 3]);
    apply_to_mirror(&mut m, ListDiff::Reset { values: vec![7, 8] });
    assert_eq!(m, vec![7, 8]);
}

#[test]
fn a_batch_replayed_one_by_one_matches_a_reference_list() {
    // Oracle test: the mirror must match a plain list that the same diffs
    // are applied to by hand.
    let mut m: Vec<u32> = Vec::new();
    let batch = vec![
        ListDiff::Append { values: vec![1, 2, 3] },
        ListDiff::PushFront { value: 0 },
        ListDiff::SetAt { index: 2, value: 20 },
        ListDiff::Remove { index: 1 },
        ListDiff::PushBack { value: 9 },
        ListDiff::Truncate { length: 3 },
    ];
    for d in batch {
        apply_to_mirror(&mut m, d);
    }
    // By hand: [] -> [1,2,3] -> [0,1,2,3] -> [0,1,20,3] -> [0,20,3]
    //          -> [0,20,3,9] -> [0,20,3]
    assert_eq!(m, vec![0, 20, 3]);
}
