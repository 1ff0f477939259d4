# deep_delta_learn

Deep Delta Learning blocks on [Burn](https://burn.dev), with their shape semantics verified
in Verus.

The Delta-Res update is a rank-1 residual transformation of a matrix state
`X in R^{B x D x V}`:

    X_{l+1} = X_l + beta(X_l) k(X_l) (v(X_l)^T - k(X_l)^T X_l)

with `k: [B, D]`, `beta: [B, 1]`, `v: [B, V]` generated by three small branches.

## Layout

- `src/` — the verified library: for every operator and block, the tensor shapes it
  produces from the shapes it is given. Shapes that Burn refuses give `None`; the sizes on
  which the NdArray backend panics because a matrix product, a pooling mean or a layer's
  initialisation would be empty are left out by the functions' preconditions.
  - `shape.rs`: Burn's shape rules (broadcasting, matrix products, rank-preserving
    reductions, squeeze/unsqueeze, repeat, identity, `Linear`).
  - `delta.rs`: the Delta update (matrix and vector state) and the Delta operator.
  - `branches.rs`: pooling and the `k`, `beta`, `v` generator branches.
  - `nn.rs`: the Delta-Res block, with internal or external parameters.
- `app/` — the Burn modules that compute on `f32` tensors, and the smoke-test binary.
  Before the core update, a branch or a block runs, the shapes are checked with the
  library.
- `tests/` — tests of the library, including a comparison of its shape rules with Burn's
  NdArray backend.
