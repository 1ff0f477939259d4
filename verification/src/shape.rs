//! Burn's shape rules for the tensor operations the Delta blocks use.
//!
//! Dimensions are plain `usize` values; a rank-`N` shape is a `[usize; N]`, as Burn's
//! `Tensor::dims` returns it. Burn's tensor API checks element-wise broadcasting and the
//! inner dimension of a matrix product before the backend runs; the broadcasting of the
//! batch dimension of a matrix product, and the refusal of empty matrices, are the NdArray
//! backend's (the backend of the default CPU build). Where NdArray panics on a tensor that
//! is empty along some dimension (a matrix product whose left rows, inner size or right
//! columns are 0), the function's `requires` leaves that input out; every other refusal is
//! a `None`.
use vstd::prelude::*;

verus! {

/// Broadcasting of one dimension in an element-wise operation: equal sizes stay, a size of
/// 1 stretches to the other size, anything else is refused.
pub open spec fn join(a: usize, b: usize) -> Option<usize> {
    if a == b {
        Some(a)
    } else if a == 1 {
        Some(b)
    } else if b == 1 {
        Some(a)
    } else {
        None
    }
}

/// `join` with a left operand that may already have failed.
pub open spec fn join_opt(a: Option<usize>, b: usize) -> Option<usize> {
    match a {
        Some(x) => join(x, b),
        None => None,
    }
}

/// Shape of an element-wise binary operation on rank-2 tensors (`add`, `sub`, `mul`,
/// `div`), broadcasting each dimension.
pub open spec fn bcast2(a: [usize; 2], b: [usize; 2]) -> Option<[usize; 2]> {
    match (join(a[0], b[0]), join(a[1], b[1])) {
        (Some(d0), Some(d1)) => Some([d0, d1]),
        _ => None,
    }
}

/// Shape of an element-wise binary operation on rank-3 tensors.
pub open spec fn bcast3(a: [usize; 3], b: [usize; 3]) -> Option<[usize; 3]> {
    match (join(a[0], b[0]), join(a[1], b[1]), join(a[2], b[2])) {
        (Some(d0), Some(d1), Some(d2)) => Some([d0, d1, d2]),
        _ => None,
    }
}

/// Broadcasts one pair of dimensions.
pub fn broadcast_dim(a: usize, b: usize) -> (r: Option<usize>)
    ensures
        r == join(a, b),
{
    if a == b {
        Some(a)
    } else if a == 1 {
        Some(b)
    } else if b == 1 {
        Some(a)
    } else {
        None
    }
}

/// Shape of `lhs op rhs` for an element-wise operation on rank-2 tensors; `None` where Burn
/// reports incompatible shapes.
pub fn broadcast2(a: [usize; 2], b: [usize; 2]) -> (r: Option<[usize; 2]>)
    ensures
        r == bcast2(a, b),
{
    match (broadcast_dim(a[0], b[0]), broadcast_dim(a[1], b[1])) {
        (Some(d0), Some(d1)) => Some([d0, d1]),
        _ => None,
    }
}

/// Shape of `lhs op rhs` for an element-wise operation on rank-3 tensors; `None` where Burn
/// reports incompatible shapes.
pub fn broadcast3(a: [usize; 3], b: [usize; 3]) -> (r: Option<[usize; 3]>)
    ensures
        r == bcast3(a, b),
{
    match (broadcast_dim(a[0], b[0]), broadcast_dim(a[1], b[1]), broadcast_dim(a[2], b[2])) {
        (Some(d0), Some(d1), Some(d2)) => Some([d0, d1, d2]),
        _ => None,
    }
}

/// Shape of a rank-2 matrix product `[m, k] x [k, n] = [m, n]`.
pub open spec fn mm2(a: [usize; 2], b: [usize; 2]) -> Option<[usize; 2]> {
    if a[1] == b[0] {
        Some([a[0], b[1]])
    } else {
        None
    }
}

/// Shape of a batched rank-3 matrix product `[b1, m, k] x [b2, k, n] = [join(b1, b2), m, n]`.
pub open spec fn mm3(a: [usize; 3], b: [usize; 3]) -> Option<[usize; 3]> {
    if a[2] == b[1] {
        match join(a[0], b[0]) {
            Some(d0) => Some([d0, a[1], b[2]]),
            None => None,
        }
    } else {
        None
    }
}

/// Shape of `matmul` on rank-2 tensors; `None` where the inner dimensions differ. NdArray
/// panics on a product with no left rows, no inner size or no right columns.
pub fn matmul2(a: [usize; 2], b: [usize; 2]) -> (r: Option<[usize; 2]>)
    requires
        a[0] > 0,
        b[0] > 0,
        b[1] > 0,
    ensures
        r == mm2(a, b),
{
    if a[1] == b[0] {
        Some([a[0], b[1]])
    } else {
        None
    }
}

/// Shape of `matmul` on rank-3 tensors: the leading (batch) dimension broadcasts; `None`
/// where the inner dimensions differ or the batch dimensions cannot broadcast. NdArray
/// panics on a product with no left rows, no inner size or no right columns; an empty
/// batch is fine.
pub fn matmul3(a: [usize; 3], b: [usize; 3]) -> (r: Option<[usize; 3]>)
    requires
        a[1] > 0,
        b[1] > 0,
        b[2] > 0,
    ensures
        r == mm3(a, b),
{
    if a[2] == b[1] {
        match broadcast_dim(a[0], b[0]) {
            Some(d0) => Some([d0, a[1], b[2]]),
            None => None,
        }
    } else {
        None
    }
}

/// Shape of `sum_dim(dim)` or `mean_dim(dim)` on a rank-2 tensor: Burn's reductions keep
/// the rank, the reduced dimension becomes 1.
pub fn reduce_dim2(s: [usize; 2], dim: usize) -> (r: [usize; 2])
    requires
        dim < 2,
    ensures
        r == (if dim == 0 { [1, s[1]] } else { [s[0], 1usize] }),
{
    if dim == 0 {
        [1, s[1]]
    } else {
        [s[0], 1]
    }
}

/// Shape of `sum_dim(dim)` or `mean_dim(dim)` on a rank-3 tensor: the rank is kept, the
/// reduced dimension becomes 1.
pub fn reduce_dim3(s: [usize; 3], dim: usize) -> (r: [usize; 3])
    requires
        dim < 3,
    ensures
        r == (if dim == 0 {
            [1, s[1], s[2]]
        } else if dim == 1 {
            [s[0], 1usize, s[2]]
        } else {
            [s[0], s[1], 1usize]
        }),
{
    if dim == 0 {
        [1, s[1], s[2]]
    } else if dim == 1 {
        [s[0], 1, s[2]]
    } else {
        [s[0], s[1], 1]
    }
}

/// Shape of `squeeze::<2>(dim)` on a rank-3 tensor: the dimension `dim` is removed;
/// `None` where its size is not 1.
pub fn squeeze3(s: [usize; 3], dim: usize) -> (r: Option<[usize; 2]>)
    requires
        dim < 3,
    ensures
        r == (if s[dim as int] != 1 {
            None
        } else if dim == 0 {
            Some([s[1], s[2]])
        } else if dim == 1 {
            Some([s[0], s[2]])
        } else {
            Some([s[0], s[1]])
        }),
{
    if s[dim] != 1 {
        None
    } else if dim == 0 {
        Some([s[1], s[2]])
    } else if dim == 1 {
        Some([s[0], s[2]])
    } else {
        Some([s[0], s[1]])
    }
}

/// Shape of `unsqueeze_dim::<3>(dim)` on a rank-2 tensor: a dimension of size 1 is inserted
/// at position `dim`.
pub fn unsqueeze_dim2(s: [usize; 2], dim: usize) -> (r: [usize; 3])
    requires
        dim <= 2,
    ensures
        r == (if dim == 0 {
            [1, s[0], s[1]]
        } else if dim == 1 {
            [s[0], 1usize, s[1]]
        } else {
            [s[0], s[1], 1usize]
        }),
{
    if dim == 0 {
        [1, s[0], s[1]]
    } else if dim == 1 {
        [s[0], 1, s[1]]
    } else {
        [s[0], s[1], 1]
    }
}

/// Shape of `repeat_dim(dim, times)` on a rank-3 tensor: the dimension `dim` is multiplied
/// by `times`.
pub fn repeat_dim3(s: [usize; 3], dim: usize, times: usize) -> (r: [usize; 3])
    requires
        dim < 3,
        s[dim as int] * times <= usize::MAX,
    ensures
        r == (if dim == 0 {
            [(s[0] * times) as usize, s[1], s[2]]
        } else if dim == 1 {
            [s[0], (s[1] * times) as usize, s[2]]
        } else {
            [s[0], s[1], (s[2] * times) as usize]
        }),
{
    if dim == 0 {
        [s[0] * times, s[1], s[2]]
    } else if dim == 1 {
        [s[0], s[1] * times, s[2]]
    } else {
        [s[0], s[1], s[2] * times]
    }
}

/// Shape of `Tensor::eye(size)`: a square `[size, size]` matrix.
pub fn eye(size: usize) -> (r: [usize; 2])
    ensures
        r == [size, size],
{
    [size, size]
}

/// The dimensions of a Burn `Linear` layer: its weight is `[d_input, d_output]`, its bias
/// `[d_output]`.
pub struct Linear {
    pub d_input: usize,
    pub d_output: usize,
}

impl Linear {
    /// What `Linear::forward` yields on a rank-2 input `[n, d]`: `[n, d_output]` where
    /// `d == d_input`, nothing otherwise.
    pub open spec fn spec_forward(&self, x: [usize; 2]) -> Option<[usize; 2]> {
        if x[1] == self.d_input {
            Some([x[0], self.d_output])
        } else {
            None
        }
    }

    /// Shape of `Linear::forward` on a rank-2 input: the product with the weight
    /// `[d_input, d_output]`, then the broadcast addition of the bias as `[1, d_output]`.
    /// The product panics on NdArray where the input has no rows or the weight is empty.
    pub fn forward(&self, x: [usize; 2]) -> (r: Option<[usize; 2]>)
        requires
            x[0] > 0,
            self.d_input > 0,
            self.d_output > 0,
        ensures
            r == self.spec_forward(x),
    {
        match matmul2(x, [self.d_input, self.d_output]) {
            Some(y) => broadcast2(y, [1, self.d_output]),
            None => None,
        }
    }
}

} // verus!
