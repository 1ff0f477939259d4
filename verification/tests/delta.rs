use deep_delta_learn::delta::{delta_operator, delta_update, delta_update_vec};
use deep_delta_learn::shape::matmul3;

#[test]
fn delta_update_keeps_the_state_shape() {
    assert_eq!(delta_update([2, 8, 4], [2, 8], [2, 4], [2, 1]), Some([2, 8, 4]));
    assert_eq!(delta_update([1, 3, 2], [1, 3], [1, 2], [1, 1]), Some([1, 3, 2]));
}

#[test]
fn delta_update_broadcasts_batch_and_value_sizes() {
    // A single k and beta shared by every batch entry, a single value per row of v.
    assert_eq!(delta_update([2, 8, 4], [1, 8], [2, 1], [1, 1]), Some([2, 8, 4]));
    // A state with one value column is widened to the value size of v.
    assert_eq!(delta_update([2, 8, 1], [2, 8], [2, 4], [2, 1]), Some([2, 8, 4]));
    // beta given per feature.
    assert_eq!(delta_update([2, 8, 4], [2, 8], [2, 4], [2, 8]), Some([2, 8, 4]));
}

#[test]
fn delta_update_rejects_incompatible_shapes() {
    // k's width differs from the state's feature size.
    assert_eq!(delta_update([2, 8, 4], [2, 7], [2, 4], [2, 1]), None);
    // batch sizes 2 and 3.
    assert_eq!(delta_update([2, 8, 4], [3, 8], [2, 4], [2, 1]), None);
    // value sizes 4 and 3.
    assert_eq!(delta_update([2, 8, 4], [2, 8], [2, 3], [2, 1]), None);
    // beta of width 5 against 8 features.
    assert_eq!(delta_update([2, 8, 4], [2, 8], [2, 4], [2, 5]), None);
}

#[test]
fn delta_update_vec_keeps_the_state_shape() {
    assert_eq!(delta_update_vec([1, 3], [1, 3], [1, 1], [1, 1]), Some([1, 3]));
    assert_eq!(delta_update_vec([4, 6], [4, 6], [4, 1], [4, 1]), Some([4, 6]));
}

#[test]
fn delta_update_vec_rejects_incompatible_shapes() {
    assert_eq!(delta_update_vec([4, 6], [4, 5], [4, 1], [4, 1]), None);
    assert_eq!(delta_update_vec([4, 6], [4, 6], [3, 1], [4, 1]), None);
    assert_eq!(delta_update_vec([4, 6], [4, 6], [4, 2], [4, 1]), None);
}

#[test]
fn delta_update_vec_is_the_matrix_update_with_one_value() {
    assert_eq!(delta_update_vec([2, 5], [2, 5], [2, 1], [2, 1]), Some([2, 5]));
    assert_eq!(delta_update([2, 5, 1], [2, 5], [2, 1], [2, 1]), Some([2, 5, 1]));
}

#[test]
fn delta_operator_is_one_square_matrix_per_batch_entry() {
    assert_eq!(delta_operator([2, 8], [2, 1], 8), Some([2, 8, 8]));
    assert_eq!(delta_operator([1, 3], [1, 1], 3), Some([1, 3, 3]));
}

#[test]
fn delta_operator_rejects_an_identity_of_another_size() {
    assert_eq!(delta_operator([2, 8], [2, 1], 5), None);
    assert_eq!(delta_operator([2, 8], [3, 1], 8), None);
}

#[test]
fn operator_times_state_has_the_update_shape() {
    let x = [2, 8, 4];
    let a = delta_operator([2, 8], [2, 1], 8).unwrap();
    assert_eq!(matmul3(a, x), delta_update(x, [2, 8], [2, 4], [2, 1]));
    assert_eq!(matmul3(a, x), Some(x));
}

#[test]
fn delta_update_runs_on_an_empty_batch() {
    assert_eq!(delta_update([0, 8, 4], [0, 8], [0, 4], [0, 1]), Some([0, 8, 4]));
    // An empty batch of k against a single state broadcasts to an empty batch.
    assert_eq!(delta_update([1, 3, 2], [0, 3], [1, 2], [1, 1]), Some([0, 3, 2]));
}

#[test]
fn delta_update_with_an_empty_beta_width_on_one_feature() {
    assert_eq!(delta_update([2, 1, 4], [2, 1], [2, 4], [2, 0]), Some([2, 0, 4]));
}

#[test]
fn delta_update_vec_runs_on_empty_tensors() {
    assert_eq!(delta_update_vec([0, 0], [0, 0], [0, 0], [0, 0]), Some([0, 0]));
    assert_eq!(delta_update_vec([0, 5], [0, 5], [0, 1], [0, 1]), Some([0, 5]));
}

#[test]
fn delta_operator_runs_on_an_empty_batch_or_identity() {
    assert_eq!(delta_operator([0, 3], [0, 1], 3), Some([0, 3, 3]));
    assert_eq!(delta_operator([2, 1], [2, 1], 0), Some([2, 0, 0]));
    assert_eq!(delta_operator([2, 1], [2, 0], 1), Some([2, 0, 1]));
}
