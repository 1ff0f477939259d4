//! Generator branches for the Delta parameters `k(X)`, `beta(X)` and `v(X)`.
//!
//! Each branch pools the state `X = [B, D, V]` over its value axis to `[B, D]` and runs a
//! two-layer MLP on it, so that every branch returns a rank-2 tensor: `k` is `[B, D]`,
//! `beta` is `[B, 1]`, `v` is `[B, dv]`. A branch is described here by the dimensions of
//! its two `Linear` layers, which is all that decides the shapes it produces.
use vstd::prelude::*;

use crate::shape::{broadcast2, reduce_dim2, reduce_dim3, squeeze3, Linear};

verus! {

/// Shape of pooling `X = [B, D, V]` into `[B, D]` by averaging over `V`: the mean keeps
/// the rank (`[B, D, 1]`), then the singleton dimension is squeezed. The mean over an empty
/// axis has no value (NdArray panics on it), hence `V > 0`; an empty batch or feature axis
/// is fine.
pub fn pool_v_to_bd(x: [usize; 3]) -> (r: [usize; 2])
    requires
        x[2] > 0,
    ensures
        r == [x[0], x[1]],
{
    let pooled = reduce_dim3(x, 2);
    squeeze3(pooled, 2).unwrap()
}

/// Shape of pooling `X = [B, D, V]` into `[B, V]` by averaging over `D` (`D > 0`, as the
/// mean over an empty axis has no value).
pub fn pool_d_to_bv(x: [usize; 3]) -> (r: [usize; 2])
    requires
        x[1] > 0,
    ensures
        r == [x[0], x[2]],
{
    let pooled = reduce_dim3(x, 1);
    squeeze3(pooled, 1).unwrap()
}

/// Shape of the L2 normalisation of the rows of `[B, D]`: the norm is `[B, 1]` (the sum
/// keeps the rank; the rank-2 `unsqueeze` leaves it as it is) and the division broadcasts
/// it back, so the shape is unchanged.
pub fn l2_normalize_bd(x: [usize; 2]) -> (r: [usize; 2])
    ensures
        r == x,
{
    let norm = reduce_dim2(x, 1);
    broadcast2(x, norm).unwrap()
}

// ---------------------------
// K-Branch
// ---------------------------

/// Configuration of the `k(X)` generator.
pub struct KBranchConfig {
    pub d_model: usize,
    pub d_hidden: usize,
}

/// `k(X)` generator: `k~ = MLP(Pool(X))` with `D -> hidden -> D`, then `k = k~ / (||k~|| +
/// eps)`.
pub struct KBranch {
    linear1: Linear,
    linear2: Linear,
}

impl KBranchConfig {
    /// A configuration with the given model and hidden sizes.
    pub fn new(d_model: usize, d_hidden: usize) -> (r: Self)
        ensures
            r.d_model == d_model,
            r.d_hidden == d_hidden,
    {
        KBranchConfig { d_model, d_hidden }
    }

    /// The branch with layers `d_model -> d_hidden` and `d_hidden -> d_model`. Burn's
    /// initialisation of a `Linear` layer draws from `U(-k, k)` with `k = sqrt(1 / d_input)`,
    /// which panics for an empty input, hence both sizes positive.
    pub fn init(&self) -> (r: KBranch)
        requires
            self.d_model > 0,
            self.d_hidden > 0,
        ensures
            r.d_model() == self.d_model,
            r.d_hidden() == self.d_hidden,
    {
        KBranch {
            linear1: Linear { d_input: self.d_model, d_output: self.d_hidden },
            linear2: Linear { d_input: self.d_hidden, d_output: self.d_model },
        }
    }
}

impl KBranch {
    /// The second layer takes what the first gives and maps back to the model size; no
    /// layer is empty.
    #[verifier::type_invariant]
    spec fn layers_chain(self) -> bool {
        &&& self.linear1.d_output == self.linear2.d_input
        &&& self.linear2.d_output == self.linear1.d_input
        &&& self.linear1.d_input > 0
        &&& self.linear1.d_output > 0
    }

    /// The feature size `D` the branch reads and writes.
    pub closed spec fn d_model(&self) -> usize {
        self.linear1.d_input
    }

    /// The hidden size of the MLP.
    pub closed spec fn d_hidden(&self) -> usize {
        self.linear1.d_output
    }

    /// `[B, D]` from `[B, D, V]`; nothing where `X`'s feature size is not `d_model`.
    pub open spec fn spec_forward(&self, x: [usize; 3]) -> Option<[usize; 2]> {
        if x[1] == self.d_model() {
            Some([x[0], self.d_model()])
        } else {
            None
        }
    }

    /// Shape of `k(X)`: `X: [B, D, V] -> k: [B, D]`; `None` where Burn rejects `X`. An
    /// empty batch makes the first layer's product empty and an empty value axis leaves the
    /// pooling mean without a value; NdArray panics on both.
    pub fn forward(&self, x: [usize; 3]) -> (r: Option<[usize; 2]>)
        requires
            x[0] > 0,
            x[2] > 0,
        ensures
            r == self.spec_forward(x),
    {
        proof {
            use_type_invariant(self);
        }
        let pooled = pool_v_to_bd(x);
        // GELU is element-wise and keeps the shape.
        let h = match self.linear1.forward(pooled) {
            Some(s) => s,
            None => return None,
        };
        let k = match self.linear2.forward(h) {
            Some(s) => s,
            None => return None,
        };
        Some(l2_normalize_bd(k))
    }
}

// ---------------------------
// Beta-Branch
// ---------------------------

/// Configuration of the `beta(X)` generator.
pub struct BetaBranchConfig {
    pub d_model: usize,
    pub d_hidden: usize,
}

/// `beta(X)` generator: `beta = 2 * sigmoid(w_out(tanh(w_in(Pool(X)))))`, one gate per
/// batch entry.
pub struct BetaBranch {
    w_in: Linear,
    w_out: Linear,
}

impl BetaBranchConfig {
    /// A configuration with the given model and hidden sizes.
    pub fn new(d_model: usize, d_hidden: usize) -> (r: Self)
        ensures
            r.d_model == d_model,
            r.d_hidden == d_hidden,
    {
        BetaBranchConfig { d_model, d_hidden }
    }

    /// The branch with layers `d_model -> d_hidden` and `d_hidden -> 1`; both sizes
    /// positive, as Burn's initialisation of a layer with an empty input panics.
    pub fn init(&self) -> (r: BetaBranch)
        requires
            self.d_model > 0,
            self.d_hidden > 0,
        ensures
            r.d_model() == self.d_model,
            r.d_hidden() == self.d_hidden,
    {
        BetaBranch {
            w_in: Linear { d_input: self.d_model, d_output: self.d_hidden },
            w_out: Linear { d_input: self.d_hidden, d_output: 1 },
        }
    }
}

impl BetaBranch {
    /// The output layer takes what the input layer gives and yields one logit; no layer is
    /// empty.
    #[verifier::type_invariant]
    spec fn layers_chain(self) -> bool {
        &&& self.w_in.d_output == self.w_out.d_input
        &&& self.w_out.d_output == 1
        &&& self.w_in.d_input > 0
        &&& self.w_in.d_output > 0
    }

    /// The feature size `D` the branch reads.
    pub closed spec fn d_model(&self) -> usize {
        self.w_in.d_input
    }

    /// The hidden size of the MLP.
    pub closed spec fn d_hidden(&self) -> usize {
        self.w_in.d_output
    }

    /// `[B, 1]` from `[B, D, V]`; nothing where `X`'s feature size is not `d_model`.
    pub open spec fn spec_forward(&self, x: [usize; 3]) -> Option<[usize; 2]> {
        if x[1] == self.d_model() {
            Some([x[0], 1usize])
        } else {
            None
        }
    }

    /// Shape of `beta(X)`: `X: [B, D, V] -> beta: [B, 1]`; `None` where Burn rejects `X`.
    /// NdArray panics on an empty batch or an empty value axis.
    pub fn forward(&self, x: [usize; 3]) -> (r: Option<[usize; 2]>)
        requires
            x[0] > 0,
            x[2] > 0,
        ensures
            r == self.spec_forward(x),
    {
        proof {
            use_type_invariant(self);
        }
        let pooled = pool_v_to_bd(x);
        // tanh, the sigmoid and the scaling by 2 are element-wise and keep the shape.
        let h = match self.w_in.forward(pooled) {
            Some(s) => s,
            None => return None,
        };
        self.w_out.forward(h)
    }
}

// ---------------------------
// V-Branch
// ---------------------------

/// Configuration of the `v(X)` generator.
pub struct VBranchConfig {
    pub d_model: usize,
    pub dv: usize,
    pub d_hidden: usize,
}

/// `v(X)` generator: pool over `V` to `[B, D]`, then an MLP `D -> hidden -> dv`.
pub struct VBranch {
    linear1: Linear,
    linear2: Linear,
}

impl VBranchConfig {
    /// A configuration with the given model, value and hidden sizes.
    pub fn new(d_model: usize, dv: usize, d_hidden: usize) -> (r: Self)
        ensures
            r.d_model == d_model,
            r.dv == dv,
            r.d_hidden == d_hidden,
    {
        VBranchConfig { d_model, dv, d_hidden }
    }

    /// The branch with layers `d_model -> d_hidden` and `d_hidden -> dv`; `d_model` and
    /// `d_hidden` positive, as Burn's initialisation of a layer with an empty input panics.
    pub fn init(&self) -> (r: VBranch)
        requires
            self.d_model > 0,
            self.d_hidden > 0,
        ensures
            r.d_model() == self.d_model,
            r.dv() == self.dv,
            r.d_hidden() == self.d_hidden,
    {
        VBranch {
            linear1: Linear { d_input: self.d_model, d_output: self.d_hidden },
            linear2: Linear { d_input: self.d_hidden, d_output: self.dv },
        }
    }
}

impl VBranch {
    /// The second layer takes what the first gives; the layers have non-empty inputs.
    #[verifier::type_invariant]
    spec fn layers_chain(self) -> bool {
        &&& self.linear1.d_output == self.linear2.d_input
        &&& self.linear1.d_input > 0
        &&& self.linear1.d_output > 0
    }

    /// The feature size `D` the branch reads.
    pub closed spec fn d_model(&self) -> usize {
        self.linear1.d_input
    }

    /// The value size `dv` the branch writes.
    pub closed spec fn dv(&self) -> usize {
        self.linear2.d_output
    }

    /// The hidden size of the MLP.
    pub closed spec fn d_hidden(&self) -> usize {
        self.linear1.d_output
    }

    /// `[B, dv]` from `[B, D, V]`; nothing where `X`'s feature size is not `d_model`.
    pub open spec fn spec_forward(&self, x: [usize; 3]) -> Option<[usize; 2]> {
        if x[1] == self.d_model() {
            Some([x[0], self.dv()])
        } else {
            None
        }
    }

    /// Shape of `v(X)`: `X: [B, D, V] -> v: [B, dv]`; `None` where Burn rejects `X`.
    /// NdArray panics on an empty batch, an empty value axis, or `dv == 0` (an empty output
    /// layer).
    pub fn forward(&self, x: [usize; 3]) -> (r: Option<[usize; 2]>)
        requires
            x[0] > 0,
            x[2] > 0,
            self.dv() > 0,
        ensures
            r == self.spec_forward(x),
    {
        proof {
            use_type_invariant(self);
        }
        let pooled = pool_v_to_bd(x);
        // GELU is element-wise and keeps the shape.
        let h = match self.linear1.forward(pooled) {
            Some(s) => s,
            None => return None,
        };
        self.linear2.forward(h)
    }
}

// ---------------------------
// Bundle
// ---------------------------

/// Configuration of the three branches together.
pub struct DeltaBranchesConfig {
    pub d_model: usize,
    pub dv: usize,
    pub d_hidden: usize,
}

/// The three generator branches.
pub struct DeltaBranches {
    pub k_branch: KBranch,
    pub beta_branch: BetaBranch,
    pub v_branch: VBranch,
}

impl DeltaBranchesConfig {
    /// A configuration with the given model, value and hidden sizes.
    pub fn new(d_model: usize, dv: usize, d_hidden: usize) -> (r: Self)
        ensures
            r.d_model == d_model,
            r.dv == dv,
            r.d_hidden == d_hidden,
    {
        DeltaBranchesConfig { d_model, dv, d_hidden }
    }

    /// The three branches, all reading `d_model` features through `d_hidden` units (both
    /// positive, as the branches' initialisation requires).
    pub fn init(&self) -> (r: DeltaBranches)
        requires
            self.d_model > 0,
            self.d_hidden > 0,
        ensures
            r.k_branch.d_model() == self.d_model,
            r.k_branch.d_hidden() == self.d_hidden,
            r.beta_branch.d_model() == self.d_model,
            r.beta_branch.d_hidden() == self.d_hidden,
            r.v_branch.d_model() == self.d_model,
            r.v_branch.dv() == self.dv,
            r.v_branch.d_hidden() == self.d_hidden,
    {
        DeltaBranches {
            k_branch: KBranchConfig::new(self.d_model, self.d_hidden).init(),
            beta_branch: BetaBranchConfig::new(self.d_model, self.d_hidden).init(),
            v_branch: VBranchConfig::new(self.d_model, self.dv, self.d_hidden).init(),
        }
    }
}

impl DeltaBranches {
    /// `(k, beta, v)` from `X`, present when every branch accepts `X`.
    pub open spec fn spec_forward(&self, x: [usize; 3]) -> Option<([usize; 2], [usize; 2], [usize; 2])> {
        match (
            self.k_branch.spec_forward(x),
            self.beta_branch.spec_forward(x),
            self.v_branch.spec_forward(x),
        ) {
            (Some(k), Some(beta), Some(v)) => Some((k, beta, v)),
            _ => None,
        }
    }

    /// Shapes of `(k, beta, v)` from `X: [B, D, V]`: `([B, D], [B, 1], [B, dv])`; `None`
    /// where some branch rejects `X`.
    pub fn forward(&self, x: [usize; 3]) -> (r: Option<([usize; 2], [usize; 2], [usize; 2])>)
        requires
            x[0] > 0,
            x[2] > 0,
            self.v_branch.dv() > 0,
        ensures
            r == self.spec_forward(x),
    {
        let k = match self.k_branch.forward(x) {
            Some(s) => s,
            None => return None,
        };
        let beta = match self.beta_branch.forward(x) {
            Some(s) => s,
            None => return None,
        };
        let v = match self.v_branch.forward(x) {
            Some(s) => s,
            None => return None,
        };
        Some((k, beta, v))
    }
}

/// The bundle's result is the three branch results, in the order `(k, beta, v)`: it is
/// present exactly when each branch accepts the state.
pub proof fn lemma_bundle_is_the_three_branches_in_order(m: &DeltaBranches, x: [usize; 3])
    ensures
        m.spec_forward(x) is Some <==> (m.k_branch.spec_forward(x) is Some && m.beta_branch.spec_forward(
            x,
        ) is Some && m.v_branch.spec_forward(x) is Some),
        m.spec_forward(x) is Some ==> m.spec_forward(x).unwrap() == (
            m.k_branch.spec_forward(x).unwrap(),
            m.beta_branch.spec_forward(x).unwrap(),
            m.v_branch.spec_forward(x).unwrap(),
        ),
{
}

/// The generator branches read the state only through its batch and feature sizes: their
/// results do not depend on the state's value size.
pub proof fn lemma_branches_ignore_the_value_size(m: &DeltaBranches, x: [usize; 3], w: usize)
    ensures
        m.k_branch.spec_forward(x) == m.k_branch.spec_forward([x[0], x[1], w]),
        m.beta_branch.spec_forward(x) == m.beta_branch.spec_forward([x[0], x[1], w]),
        m.v_branch.spec_forward(x) == m.v_branch.spec_forward([x[0], x[1], w]),
        m.spec_forward(x) == m.spec_forward([x[0], x[1], w]),
{
}

} // verus!
