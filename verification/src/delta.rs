//! Shapes through the core Delta operators.
//!
//! The Delta update generalises a residual connection by a rank-1 transformation:
//! `X_{l+1} = X_l + beta * k * (v^T - k^T X_l)`. The functions here follow, operation by
//! operation, what the update does to tensor shapes, and state in closed form which shapes
//! come out and which inputs Burn refuses.
use vstd::prelude::*;

use crate::shape::{
    broadcast2, broadcast3, eye, join, join_opt, matmul3, mm3, reduce_dim2,
    repeat_dim3, unsqueeze_dim2,
};

verus! {

/// Broadcast of four dimensions at once.
pub open spec fn join4(a: usize, b: usize, c: usize, d: usize) -> Option<usize> {
    join_opt(join_opt(join(a, b), c), d)
}

/// Shape of the Delta update of a matrix state `x = [B, D, V]` with `k = [B, D]`,
/// `v = [B, V]` and `beta = [B, 1]`, where each batch and size may also broadcast:
/// `k`'s width must equal `x`'s feature size, the four batch sizes broadcast together,
/// the feature size with `beta`'s width, the value size with `v`'s width.
pub open spec fn delta_update_shape(
    x: [usize; 3],
    k: [usize; 2],
    v: [usize; 2],
    beta: [usize; 2],
) -> Option<[usize; 3]> {
    if x[1] != k[1] {
        None
    } else {
        match (join4(x[0], k[0], v[0], beta[0]), join(k[1], beta[1]), join(v[1], x[2])) {
            (Some(b), Some(d), Some(w)) => Some([b, d, w]),
            _ => None,
        }
    }
}

/// Shape of the core Delta update for matrix-valued hidden states,
/// `X_{l+1} = X_l + beta * k * (v^T - k^T X_l)`.
///
/// `x` is `[batch, d, dv]`, `k` is `[batch, d]`, `v` is `[batch, dv]`, `beta` is
/// `[batch, 1]`; the result is `None` exactly where Burn rejects the shapes. With the
/// shapes the operator is written for, the state keeps its shape, an empty batch included.
/// A state with no features or no values, or a `v` with no values, makes one of the two
/// matrix products empty, on which NdArray panics.
pub fn delta_update(x: [usize; 3], k: [usize; 2], v: [usize; 2], beta: [usize; 2]) -> (r:
    Option<[usize; 3]>)
    requires
        x[1] > 0,
        x[2] > 0,
        v[1] > 0,
    ensures
        r == delta_update_shape(x, k, v, beta),
        k == [x[0], x[1]] && v == [x[0], x[2]] && beta == [x[0], 1usize] ==> r == Some(x),
        (k[0] == 1 || k[0] == x[0]) && k[1] == x[1] && (v[0] == 1 || v[0] == x[0]) && (v[1] == 1
            || v[1] == x[2]) && (beta[0] == 1 || beta[0] == x[0]) && (beta[1] == 1 || beta[1]
            == x[1]) ==> r == Some(x),
{
    // 1. Normalise k: squaring keeps [B, D], the sum over dim 1 keeps the rank ([B, 1]),
    //    the square root and the added epsilon keep it; the division broadcasts.
    let k_norm_val = reduce_dim2(k, 1);
    let k_normalized = match broadcast2(k, k_norm_val) {
        Some(s) => s,
        None => return None,
    };
    // 2. Project X onto k: [B, 1, D] x [B, D, V] = [B, 1, V].
    let k_t = unsqueeze_dim2(k_normalized, 1);
    let proj = match matmul3(k_t, x) {
        Some(s) => s,
        None => return None,
    };
    // 3. delta_val = v^T - k^T X, with v as [B, 1, V].
    let v_row = unsqueeze_dim2(v, 1);
    let delta_val = match broadcast3(v_row, proj) {
        Some(s) => s,
        None => return None,
    };
    // 4. Rank-1 update: [B, D, 1] x [B, 1, V] = [B, D, V].
    let k_col = unsqueeze_dim2(k_normalized, 2);
    let rank1 = match matmul3(k_col, delta_val) {
        Some(s) => s,
        None => return None,
    };
    // 5. Gate by beta as [B, 1, 1].
    let beta_expanded = unsqueeze_dim2(beta, 2);
    let gated_update = match broadcast3(rank1, beta_expanded) {
        Some(s) => s,
        None => return None,
    };
    // 6. Residual.
    broadcast3(x, gated_update)
}

/// Shape of the Delta update of a vector state `x = [B, D]` with `k = [B, D]`, `v = [B, 1]`
/// and `beta = [B, 1]`: the batch sizes broadcast together, and so do the feature size of
/// `x`, the width of `k`, and the widths of `v` and `beta`.
pub open spec fn delta_update_vec_shape(
    x: [usize; 2],
    k: [usize; 2],
    v: [usize; 2],
    beta: [usize; 2],
) -> Option<[usize; 2]> {
    match (join4(x[0], k[0], v[0], beta[0]), join4(x[1], k[1], v[1], beta[1])) {
        (Some(b), Some(d)) => Some([b, d]),
        _ => None,
    }
}

/// Shape of the Delta update for vector-valued hidden states (the `dv = 1` case),
/// `x_{l+1} = x_l + beta * k * (v - k^T x_l)`.
///
/// `x` and `k` are `[batch, d]`, `v` and `beta` are `[batch, 1]`; the result is `None`
/// exactly where Burn rejects the shapes, and with these shapes the state keeps its shape.
/// There is no matrix product here, so empty tensors are accepted.
pub fn delta_update_vec(x: [usize; 2], k: [usize; 2], v: [usize; 2], beta: [usize; 2]) -> (r:
    Option<[usize; 2]>)
    ensures
        r == delta_update_vec_shape(x, k, v, beta),
        k == x && v == [x[0], 1usize] && beta == [x[0], 1usize] ==> r == Some(x),
        (k[0] == 1 || k[0] == x[0]) && (k[1] == 1 || k[1] == x[1]) && (v[0] == 1 || v[0]
            == x[0]) && (v[1] == 1 || v[1] == x[1]) && (beta[0] == 1 || beta[0] == x[0]) && (
        beta[1] == 1 || beta[1] == x[1]) ==> r == Some(x),
{
    // 1. Normalise k (the norm is [B, 1]).
    let k_norm_val = reduce_dim2(k, 1);
    let k_normalized = match broadcast2(k, k_norm_val) {
        Some(s) => s,
        None => return None,
    };
    // 2. k^T x: element-wise product, then the sum over dim 1 gives [B, 1].
    let k_x = match broadcast2(k_normalized, x) {
        Some(s) => s,
        None => return None,
    };
    let k_t_x = reduce_dim2(k_x, 1);
    // 3. gamma = v - k^T x.
    let gamma = match broadcast2(v, k_t_x) {
        Some(s) => s,
        None => return None,
    };
    // 4. beta * gamma.
    let gated_gamma = match broadcast2(beta, gamma) {
        Some(s) => s,
        None => return None,
    };
    // 5. k * (beta * gamma).
    let update = match broadcast2(k_normalized, gated_gamma) {
        Some(s) => s,
        None => return None,
    };
    // 6. Residual.
    broadcast2(x, update)
}

/// Shape of the Delta operator `A = I - beta * k * k^T` built with an identity of size `d`
/// from `k = [B, D]` and `beta = [B, 1]`: the batch sizes of `k` and `beta` broadcast,
/// `d` broadcasts with `D` and with `beta`'s width.
pub open spec fn delta_operator_shape(k: [usize; 2], beta: [usize; 2], d: usize) -> Option<
    [usize; 3],
> {
    match (join(k[0], beta[0]), join_opt(join(k[1], beta[1]), d), join(d, k[1])) {
        (Some(b), Some(d1), Some(d2)) => Some([b, d1, d2]),
        _ => None,
    }
}

/// Shape of the Delta operator `A(X) = I - beta * k * k^T`, one `[d, d]` matrix per batch
/// entry; `None` exactly where Burn rejects the shapes. With `k = [B, d]` and
/// `beta = [B, 1]` it is `[B, d, d]`. A `k` of width 0 makes the outer product `k k^T`
/// empty, on which NdArray panics.
pub fn delta_operator(k: [usize; 2], beta: [usize; 2], d: usize) -> (r: Option<[usize; 3]>)
    requires
        k[1] > 0,
    ensures
        r == delta_operator_shape(k, beta, d),
        k[1] == d && beta == [k[0], 1usize] ==> r == Some([k[0], d, d]),
        k[1] == d && (beta[0] == 1 || beta[0] == k[0]) && (beta[1] == 1 || beta[1] == d) ==> r
            == Some([k[0], d, d]),
{
    let batch_size = k[0];
    // 1. Identity: [D, D] -> [1, D, D] -> [B, D, D].
    let eye_batched = unsqueeze_dim2(eye(d), 0);
    assert(eye_batched[0] * batch_size == batch_size) by (nonlinear_arith)
        requires
            eye_batched[0] == 1,
    ;
    let identity = repeat_dim3(eye_batched, 0, batch_size);
    // 2. Outer product k * k^T: [B, D, 1] x [B, 1, D].
    let k_col = unsqueeze_dim2(k, 2);
    let k_row = unsqueeze_dim2(k, 1);
    let k_outer = match matmul3(k_col, k_row) {
        Some(s) => s,
        None => return None,
    };
    // 3. Scale by beta as [B, 1, 1].
    let beta_expanded = unsqueeze_dim2(beta, 2);
    let scaled_outer = match broadcast3(k_outer, beta_expanded) {
        Some(s) => s,
        None => return None,
    };
    // 4. A = I - beta * k * k^T.
    broadcast3(identity, scaled_outer)
}

/// The vector update is the matrix update with a value size of 1: for `x = [B, D]`,
/// `k = [B, D]`, `v = beta = [B, 1]`, the matrix update of `[B, D, 1]` keeps `[B, D, 1]`
/// just as the vector update keeps `[B, D]`.
pub proof fn lemma_vec_update_is_matrix_update_with_one_value(b: usize, d: usize)
    ensures
        delta_update_vec_shape([b, d], [b, d], [b, 1usize], [b, 1usize]) == Some([b, d]),
        delta_update_shape([b, d, 1usize], [b, d], [b, 1usize], [b, 1usize]) == Some(
            [b, d, 1usize],
        ),
{
}

/// The Delta operator acts on the state: with `k = [B, D]`, `beta = [B, 1]`, `v = [B, V]`
/// and `x = [B, D, V]`, the product `A x` of the operator `[B, D, D]` with the state has the
/// shape of the Delta update of the state, `[B, D, V]`.
pub proof fn lemma_operator_times_state_has_update_shape(
    x: [usize; 3],
    k: [usize; 2],
    v: [usize; 2],
    beta: [usize; 2],
)
    requires
        k == [x[0], x[1]],
        v == [x[0], x[2]],
        beta == [x[0], 1usize],
    ensures
        delta_operator_shape(k, beta, x[1]) == Some([x[0], x[1], x[1]]),
        mm3([x[0], x[1], x[1]], x) == delta_update_shape(x, k, v, beta),
        delta_update_shape(x, k, v, beta) == Some(x),
{
}

/// Broadcasting in the matrix update: an operand whose batch size is 1 is shared by every
/// batch entry of the state, and gives the same result as that operand repeated for each
/// entry; a gate of width 1 is shared by every feature, as a gate given per feature; a `v`
/// of width 1 is shared by every value column. This holds for every input, accepted or not.
pub proof fn lemma_update_shares_size_one_operands(
    x: [usize; 3],
    k: [usize; 2],
    v: [usize; 2],
    beta: [usize; 2],
)
    ensures
        delta_update_shape(x, k, v, [1usize, beta[1]]) == delta_update_shape(
            x,
            k,
            v,
            [x[0], beta[1]],
        ),
        delta_update_shape(x, k, v, [beta[0], 1usize]) == delta_update_shape(
            x,
            k,
            v,
            [beta[0], x[1]],
        ),
        delta_update_shape(x, [1usize, k[1]], v, beta) == delta_update_shape(
            x,
            [x[0], k[1]],
            v,
            beta,
        ),
        delta_update_shape(x, k, [1usize, v[1]], beta) == delta_update_shape(
            x,
            k,
            [x[0], v[1]],
            beta,
        ),
        delta_update_shape(x, k, [v[0], 1usize], beta) == delta_update_shape(
            x,
            k,
            [v[0], x[2]],
            beta,
        ),
{
}

/// Broadcasting in the vector update: an operand with batch size 1 is shared by the whole
/// batch, and an operand of width 1 (a gate, a `v`, a `k`) by every feature, giving the
/// same result as the operand given per entry or per feature. This holds for every input.
pub proof fn lemma_update_vec_shares_size_one_operands(
    x: [usize; 2],
    k: [usize; 2],
    v: [usize; 2],
    beta: [usize; 2],
)
    ensures
        delta_update_vec_shape(x, k, v, [1usize, beta[1]]) == delta_update_vec_shape(
            x,
            k,
            v,
            [x[0], beta[1]],
        ),
        delta_update_vec_shape(x, k, v, [beta[0], 1usize]) == delta_update_vec_shape(
            x,
            k,
            v,
            [beta[0], x[1]],
        ),
        delta_update_vec_shape(x, [1usize, k[1]], v, beta) == delta_update_vec_shape(
            x,
            [x[0], k[1]],
            v,
            beta,
        ),
        delta_update_vec_shape(x, [k[0], 1usize], v, beta) == delta_update_vec_shape(
            x,
            [k[0], x[1]],
            v,
            beta,
        ),
        delta_update_vec_shape(x, k, [1usize, v[1]], beta) == delta_update_vec_shape(
            x,
            k,
            [x[0], v[1]],
            beta,
        ),
        delta_update_vec_shape(x, k, [v[0], 1usize], beta) == delta_update_vec_shape(
            x,
            k,
            [v[0], x[1]],
            beta,
        ),
{
}

/// Broadcasting in the Delta operator: a gate with batch size 1 (one gate for the whole
/// batch, such as `beta = 2` for a reflection) gives the same operator as a gate per batch
/// entry, and a gate of width 1 the same as one per feature. This holds for every input.
pub proof fn lemma_operator_shares_size_one_gate(k: [usize; 2], beta: [usize; 2], d: usize)
    ensures
        delta_operator_shape(k, [1usize, beta[1]], d) == delta_operator_shape(
            k,
            [k[0], beta[1]],
            d,
        ),
        delta_operator_shape(k, [beta[0], 1usize], d) == delta_operator_shape(
            k,
            [beta[0], k[1]],
            d,
        ),
{
}

} // verus!
