use deep_delta_learn::delta::delta_update;
use deep_delta_learn::nn::{DeltaResidualConfig, DeltaResidualExternal};

#[test]
fn test_delta_residual_shapes() {
    let cfg = DeltaResidualConfig::new(8, 4, 16);
    let model = cfg.init();

    let (y, k, beta, v) = model.forward_with_params([2, 8, 4]).unwrap();
    assert_eq!(y, [2, 8, 4]);
    assert_eq!(k, [2, 8]);
    assert_eq!(beta, [2, 1]);
    assert_eq!(v, [2, 4]);
}

#[test]
fn test_delta_residual_external_shapes() {
    let block = DeltaResidualExternal::new();
    let y = block.forward([2, 8, 4], [2, 8], [2, 4], [2, 1]);
    assert_eq!(y, Some([2, 8, 4]));
}

#[test]
fn forward_is_the_first_result_of_forward_with_params() {
    let model = DeltaResidualConfig::new(8, 4, 16).init();
    for x in [[2, 8, 4], [3, 8, 1], [2, 8, 5], [2, 7, 4]] {
        assert_eq!(model.forward(x), model.forward_with_params(x).map(|t| t.0));
    }
}

#[test]
fn forward_is_the_external_block_with_its_own_parameters() {
    let model = DeltaResidualConfig::new(8, 4, 16).init();
    let external = DeltaResidualExternal::new();
    let x = [2, 8, 4];
    let (y, k, beta, v) = model.forward_with_params(x).unwrap();
    assert_eq!(external.forward(x, k, v, beta), Some(y));
    assert_eq!(delta_update(x, k, v, beta), Some(y));
}

#[test]
fn blocks_stack_without_changing_the_state_shape() {
    let first = DeltaResidualConfig::new(8, 4, 16).init();
    let second = DeltaResidualConfig::new(8, 4, 32).init();
    let x = [2, 8, 4];
    let y = first.forward(x).unwrap();
    assert_eq!(y, x);
    assert_eq!(second.forward(y), Some(x));
}

#[test]
fn a_single_value_column_is_widened_to_dv() {
    let model = DeltaResidualConfig::new(8, 4, 16).init();
    assert_eq!(model.forward([2, 8, 1]), Some([2, 8, 4]));
}

#[test]
fn a_state_that_does_not_fit_the_block_is_rejected() {
    let model = DeltaResidualConfig::new(8, 4, 16).init();
    assert_eq!(model.forward([2, 6, 4]), None);
    assert_eq!(model.forward([2, 8, 3]), None);
    assert_eq!(model.forward_with_params([2, 8, 3]), None);
}

#[test]
fn config_keeps_its_sizes() {
    let cfg = DeltaResidualConfig::new(8, 4, 16);
    assert_eq!((cfg.d_model, cfg.dv, cfg.d_hidden), (8, 4, 16));
}
