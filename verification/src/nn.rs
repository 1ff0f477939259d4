//! The Delta-Res block.
//!
//! `DeltaResidual` generates `(k, beta, v)` from the state with its own branches and applies
//! the Delta update; `DeltaResidualExternal` applies the update with parameters given from
//! outside. Both take a matrix state `[B, D, V]` and, for the shapes they are built for,
//! return a state of the same shape.
use vstd::prelude::*;

use crate::branches::{DeltaBranches, DeltaBranchesConfig};
use crate::delta::{delta_update, delta_update_shape};
use crate::shape::join;

verus! {

/// Configuration of the Delta-Res block.
pub struct DeltaResidualConfig {
    /// Feature dimension `d`.
    pub d_model: usize,
    /// Value dimension `dv`.
    pub dv: usize,
    /// Hidden dimension used in the generator MLPs.
    pub d_hidden: usize,
}

/// Delta-Res block: `X_{l+1} = X_l + beta(X_l) k(X_l) (v(X_l)^T - k(X_l)^T X_l)`.
pub struct DeltaResidual {
    branches: DeltaBranches,
}

impl DeltaResidualConfig {
    /// A configuration with the given model, value and hidden sizes.
    pub fn new(d_model: usize, dv: usize, d_hidden: usize) -> (r: Self)
        ensures
            r.d_model == d_model,
            r.dv == dv,
            r.d_hidden == d_hidden,
    {
        DeltaResidualConfig { d_model, dv, d_hidden }
    }

    /// The block whose three branches are built from this configuration (`d_model` and
    /// `d_hidden` positive, as the branches' initialisation requires).
    pub fn init(&self) -> (r: DeltaResidual)
        requires
            self.d_model > 0,
            self.d_hidden > 0,
        ensures
            r.d_model() == self.d_model,
            r.dv() == self.dv,
            r.d_hidden() == self.d_hidden,
    {
        let branches_cfg = DeltaBranchesConfig::new(self.d_model, self.dv, self.d_hidden);
        DeltaResidual { branches: branches_cfg.init() }
    }
}

impl DeltaResidual {
    /// The three branches read the same, non-empty feature size through the same hidden
    /// size.
    #[verifier::type_invariant]
    spec fn branches_agree(self) -> bool {
        &&& self.branches.k_branch.d_model() > 0
        &&& self.branches.beta_branch.d_model() == self.branches.k_branch.d_model()
        &&& self.branches.v_branch.d_model() == self.branches.k_branch.d_model()
        &&& self.branches.beta_branch.d_hidden() == self.branches.k_branch.d_hidden()
        &&& self.branches.v_branch.d_hidden() == self.branches.k_branch.d_hidden()
    }

    /// The feature size `d` of the state.
    pub closed spec fn d_model(&self) -> usize {
        self.branches.k_branch.d_model()
    }

    /// The value size `dv` that `v(X)` produces.
    pub closed spec fn dv(&self) -> usize {
        self.branches.v_branch.dv()
    }

    /// The hidden size of the generator MLPs.
    pub closed spec fn d_hidden(&self) -> usize {
        self.branches.k_branch.d_hidden()
    }

    /// The state after the block: the feature size must be `d_model`; the value size of the
    /// result is the broadcast of the state's value size with `dv`.
    pub open spec fn spec_forward(&self, x: [usize; 3]) -> Option<[usize; 3]> {
        if x[1] == self.d_model() {
            match join(self.dv(), x[2]) {
                Some(w) => Some([x[0], x[1], w]),
                None => None,
            }
        } else {
            None
        }
    }

    /// The state after the block together with the generated `(k, beta, v)`.
    pub open spec fn spec_forward_with_params(&self, x: [usize; 3]) -> Option<
        ([usize; 3], [usize; 2], [usize; 2], [usize; 2]),
    > {
        match self.spec_forward(x) {
            Some(y) => Some((y, [x[0], self.d_model()], [x[0], 1usize], [x[0], self.dv()])),
            None => None,
        }
    }

    /// Shape of the block's forward pass on a matrix state `[B, D, V]`; `None` where Burn
    /// rejects it. A state `[B, d_model, dv]` comes out with its shape unchanged. NdArray
    /// panics on an empty batch or value axis (in the branches) and on `dv == 0`.
    pub fn forward(&self, x: [usize; 3]) -> (r: Option<[usize; 3]>)
        requires
            x[0] > 0,
            x[2] > 0,
            self.dv() > 0,
        ensures
            r == self.spec_forward(x),
            x[1] == self.d_model() && x[2] == self.dv() ==> r == Some(x),
    {
        proof {
            use_type_invariant(self);
        }
        let (k, beta, v) = match self.branches.forward(x) {
            Some(t) => t,
            None => return None,
        };
        delta_update(x, k, v, beta)
    }

    /// Like `forward`, but also returns the shapes of the generated parameters
    /// `(y, k, beta, v)`.
    pub fn forward_with_params(&self, x: [usize; 3]) -> (r: Option<
        ([usize; 3], [usize; 2], [usize; 2], [usize; 2]),
    >)
        requires
            x[0] > 0,
            x[2] > 0,
            self.dv() > 0,
        ensures
            r == self.spec_forward_with_params(x),
    {
        proof {
            use_type_invariant(self);
        }
        let (k, beta, v) = match self.branches.forward(x) {
            Some(t) => t,
            None => return None,
        };
        match delta_update(x, k, v, beta) {
            Some(y) => Some((y, k, beta, v)),
            None => None,
        }
    }
}

/// Delta residual that takes its parameters `(k, beta, v)` from outside.
pub struct DeltaResidualExternal {}

impl DeltaResidualExternal {
    /// The block; it holds nothing that decides shapes.
    pub fn new() -> (r: Self) {
        DeltaResidualExternal {  }
    }

    /// Shape of the forward pass with external parameters: `x: [B, D, V]`, `k: [B, D]`,
    /// `v: [B, V]`, `beta: [B, 1]`; the same as the Delta update.
    pub fn forward(&self, x: [usize; 3], k: [usize; 2], v: [usize; 2], beta: [usize; 2]) -> (r:
        Option<[usize; 3]>)
        requires
            x[1] > 0,
            x[2] > 0,
            v[1] > 0,
        ensures
            r == delta_update_shape(x, k, v, beta),
            k == [x[0], x[1]] && v == [x[0], x[2]] && beta == [x[0], 1usize] ==> r == Some(x),
            (k[0] == 1 || k[0] == x[0]) && k[1] == x[1] && (v[0] == 1 || v[0] == x[0]) && (v[1]
                == 1 || v[1] == x[2]) && (beta[0] == 1 || beta[0] == x[0]) && (beta[1] == 1
                || beta[1] == x[1]) ==> r == Some(x),
    {
        delta_update(x, k, v, beta)
    }
}

/// The block's forward pass is the first component of `forward_with_params`.
pub proof fn lemma_forward_is_first_of_forward_with_params(m: &DeltaResidual, x: [usize; 3])
    ensures
        m.spec_forward(x) == (match m.spec_forward_with_params(x) {
            Some(t) => Some(t.0),
            None => None,
        }),
{
}

/// Feeding the parameters that the block generates into the external block gives the
/// block's own result: `DeltaResidual` is `DeltaResidualExternal` driven by its branches.
pub proof fn lemma_forward_is_external_with_own_params(
    m: &DeltaResidual,
    x: [usize; 3],
    y: [usize; 3],
    k: [usize; 2],
    beta: [usize; 2],
    v: [usize; 2],
)
    requires
        m.spec_forward_with_params(x) == Some((y, k, beta, v)),
    ensures
        delta_update_shape(x, k, v, beta) == Some(y),
{
}

/// Blocks stack: a state `[B, d_model, dv]` passes through any two blocks of the same
/// feature and value sizes and keeps its shape, so the state has the same shape at every
/// depth.
pub proof fn lemma_blocks_stack(m1: &DeltaResidual, m2: &DeltaResidual, x: [usize; 3])
    requires
        m2.d_model() == m1.d_model(),
        m2.dv() == m1.dv(),
        x[1] == m1.d_model(),
        x[2] == m1.dv(),
    ensures
        m1.spec_forward(x) == Some(x),
        m2.spec_forward(m1.spec_forward(x).unwrap()) == Some(x),
{
}

/// A state with a single value column is widened to the block's value size: the block gives
/// the same result on `[B, D, 1]` as on `[B, D, dv]`. The block never depends on anything of
/// the state but its shape's batch, feature and value sizes, in this way.
pub proof fn lemma_single_value_column_widens_to_dv(m: &DeltaResidual, b: usize, d: usize)
    ensures
        m.spec_forward([b, d, 1usize]) == m.spec_forward([b, d, m.dv()]),
{
}

} // verus!
