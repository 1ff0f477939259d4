use deep_delta_learn::branches::{
    l2_normalize_bd, pool_d_to_bv, pool_v_to_bd, BetaBranchConfig, DeltaBranchesConfig,
    KBranchConfig, VBranchConfig,
};

#[test]
fn test_pool_v_to_bd_shape() {
    let pooled = pool_v_to_bd([2, 8, 4]);
    assert_eq!(pooled, [2, 8]);
}

#[test]
fn k_branch_output_shape() {
    let cfg = KBranchConfig::new(8, 16);
    let branch = cfg.init();
    let k = branch.forward([2, 8, 4]);
    assert_eq!(k, Some([2, 8]));
}

#[test]
fn beta_branch_output_shape() {
    let cfg = BetaBranchConfig::new(8, 16);
    let branch = cfg.init();
    let beta = branch.forward([2, 8, 4]);
    assert_eq!(beta, Some([2, 1]));
}

#[test]
fn test_v_branch_shape() {
    let cfg = VBranchConfig::new(8, 4, 16);
    let branch = cfg.init();
    let v = branch.forward([2, 8, 4]);
    assert_eq!(v, Some([2, 4]));
}

#[test]
fn test_bundle_shapes() {
    let cfg = DeltaBranchesConfig::new(8, 4, 16);
    let branches = cfg.init();
    let (k, beta, v) = branches.forward([2, 8, 4]).unwrap();
    assert_eq!(k, [2, 8]);
    assert_eq!(beta, [2, 1]);
    assert_eq!(v, [2, 4]);
}

#[test]
fn pool_d_to_bv_keeps_batch_and_value_sizes() {
    assert_eq!(pool_d_to_bv([2, 8, 4]), [2, 4]);
    assert_eq!(pool_d_to_bv([1, 1, 7]), [1, 7]);
}

#[test]
fn l2_normalize_keeps_shape() {
    assert_eq!(l2_normalize_bd([3, 5]), [3, 5]);
    assert_eq!(l2_normalize_bd([1, 1]), [1, 1]);
}

#[test]
fn branches_reject_a_state_of_another_feature_size() {
    let x = [2, 7, 4];
    assert_eq!(KBranchConfig::new(8, 16).init().forward(x), None);
    assert_eq!(BetaBranchConfig::new(8, 16).init().forward(x), None);
    assert_eq!(VBranchConfig::new(8, 4, 16).init().forward(x), None);
    assert_eq!(DeltaBranchesConfig::new(8, 4, 16).init().forward(x), None);
}

#[test]
fn branch_outputs_do_not_depend_on_the_value_size_of_the_state() {
    let branches = DeltaBranchesConfig::new(6, 3, 5).init();
    assert_eq!(branches.forward([4, 6, 1]), Some(([4, 6], [4, 1], [4, 3])));
    assert_eq!(branches.forward([4, 6, 9]), Some(([4, 6], [4, 1], [4, 3])));
}

#[test]
fn pooling_accepts_an_empty_batch() {
    assert_eq!(pool_v_to_bd([0, 8, 4]), [0, 8]);
    assert_eq!(pool_d_to_bv([0, 8, 4]), [0, 4]);
    assert_eq!(l2_normalize_bd([0, 8]), [0, 8]);
}

#[test]
fn bundle_is_the_three_branches_in_order() {
    let branches = DeltaBranchesConfig::new(6, 3, 5).init();
    let x = [4, 6, 2];
    let (k, beta, v) = branches.forward(x).unwrap();
    assert_eq!(Some(k), branches.k_branch.forward(x));
    assert_eq!(Some(beta), branches.beta_branch.forward(x));
    assert_eq!(Some(v), branches.v_branch.forward(x));
}
