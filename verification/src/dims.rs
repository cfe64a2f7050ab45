//! Shape calculus for the two-layer network.
//!
//! Every array in the trainer is two-dimensional with a fixed extent, and a
//! shape mismatch is a programming defect that must stop the program before
//! training starts. This module states how extents move through a transpose,
//! a matrix product, a broadcast bias addition, an elementwise combination
//! and a row sum, composes them into the forward pass, the backward pass and
//! the update, and proves that with the XOR topology the extents are the
//! same after every epoch: A1 stays 2 by m, Y_hat stays 1 by m, every
//! gradient matches its parameter, and the updated parameters match the old
//! ones.

use vstd::prelude::*;

verus! {

/// The extent of a two-dimensional array: rows by columns.
#[derive(Clone, Copy, Debug, PartialEq, Eq, Structural)]
pub struct Dims {
    pub rows: usize,
    pub cols: usize,
}

/// Abbreviation for an extent.
pub open spec fn dims(rows: usize, cols: usize) -> Dims {
    Dims { rows, cols }
}

/// The extent of a transpose.
pub open spec fn transposed(a: Dims) -> Dims {
    dims(a.cols, a.rows)
}

/// Whether `a · b` is defined: the inner extents agree.
pub open spec fn matmul_ok(a: Dims, b: Dims) -> bool {
    a.cols == b.rows
}

/// The extent of `a · b`.
pub open spec fn matmul(a: Dims, b: Dims) -> Dims {
    dims(a.rows, b.cols)
}

/// Whether a bias of extent `b` broadcasts across the columns of `a`:
/// one bias row per row of `a`, a single column.
pub open spec fn bias_add_ok(a: Dims, b: Dims) -> bool {
    b.rows == a.rows && b.cols == 1
}

/// Whether two arrays combine elementwise: the extents are equal.
pub open spec fn elementwise_ok(a: Dims, b: Dims) -> bool {
    a == b
}

/// The extent of a row sum kept as a column: one entry per row.
pub open spec fn row_sum(a: Dims) -> Dims {
    dims(a.rows, 1)
}

/// The extents of the four trainable arrays, and likewise of their
/// gradients.
#[derive(Clone, Copy, Debug, PartialEq, Eq, Structural)]
pub struct ParamDims {
    pub w0: Dims,
    pub b0: Dims,
    pub w1: Dims,
    pub b1: Dims,
}

/// The extent of the hidden activation `A1 = sigmoid(W0ᵗ · X + b0)`;
/// the sigmoid is elementwise and keeps the extent.
pub open spec fn a1_dims(p: ParamDims, x: Dims) -> Dims {
    matmul(transposed(p.w0), x)
}

/// The extent of the output `Y_hat = sigmoid(W1ᵗ · A1 + b1)`.
pub open spec fn y_hat_dims(p: ParamDims, x: Dims) -> Dims {
    matmul(transposed(p.w1), a1_dims(p, x))
}

/// Whether the forward pass is well-shaped for parameters `p` and input
/// extent `x`.
pub open spec fn forward_ok(p: ParamDims, x: Dims) -> bool {
    &&& matmul_ok(transposed(p.w0), x)
    &&& bias_add_ok(a1_dims(p, x), p.b0)
    &&& matmul_ok(transposed(p.w1), a1_dims(p, x))
    &&& bias_add_ok(y_hat_dims(p, x), p.b1)
}

/// Whether the backward pass is well-shaped, given the extents of the input
/// `x`, the labels `y`, the activations `a1` and `yh`, and the weights `w1`.
/// The error term `dZ1` carries the extent of `yh` and `dZ0` that of `a1`.
pub open spec fn backward_ok(x: Dims, y: Dims, a1: Dims, yh: Dims, w1: Dims) -> bool {
    &&& elementwise_ok(yh, y)
    &&& matmul_ok(a1, transposed(yh))
    &&& matmul_ok(w1, yh)
    &&& elementwise_ok(a1, matmul(w1, yh))
    &&& matmul_ok(x, transposed(a1))
}

/// The extents of the four gradients: `dW0 = X · dZ0ᵗ`, `db0` the row sum of
/// `dZ0`, `dW1 = A1 · dZ1ᵗ`, `db1` the row sum of `dZ1`.
pub open spec fn grad_dims(x: Dims, a1: Dims, yh: Dims) -> ParamDims {
    ParamDims {
        w0: matmul(x, transposed(a1)),
        b0: row_sum(a1),
        w1: matmul(a1, transposed(yh)),
        b1: row_sum(yh),
    }
}

/// Whether a whole epoch — forward, backward, update — is well-shaped: the
/// update `P ← P − α · (dP / m)` also needs every gradient extent to equal
/// its parameter extent, so a well-shaped epoch returns parameters of the
/// extents it started from.
pub open spec fn epoch_ok(p: ParamDims, x: Dims, y: Dims) -> bool {
    &&& forward_ok(p, x)
    &&& backward_ok(x, y, a1_dims(p, x), y_hat_dims(p, x), p.w1)
    &&& grad_dims(x, a1_dims(p, x), y_hat_dims(p, x)) == p
}

/// The parameter extents after `k` epochs, if every epoch is well-shaped.
pub open spec fn epochs_dims(p: ParamDims, x: Dims, y: Dims, k: nat) -> Option<ParamDims>
    decreases k,
{
    if k == 0 {
        Option::Some(p)
    } else {
        match epochs_dims(p, x, y, (k - 1) as nat) {
            Option::Some(q) => if epoch_ok(q, x, y) {
                Option::Some(q)
            } else {
                Option::None
            },
            Option::None => Option::None,
        }
    }
}

/// Extent of a transpose.
pub fn transpose_dims(a: Dims) -> (r: Dims)
    ensures
        r == transposed(a),
{
    Dims { rows: a.cols, cols: a.rows }
}

/// Extent of a matrix product, if the factors compose.
pub fn matmul_dims(a: Dims, b: Dims) -> (r: Option<Dims>)
    ensures
        r == (if matmul_ok(a, b) {
            Option::Some(matmul(a, b))
        } else {
            Option::None::<Dims>
        }),
{
    if a.cols == b.rows {
        Option::Some(Dims { rows: a.rows, cols: b.cols })
    } else {
        Option::None
    }
}

/// Extents of the activations `(A1, Y_hat)` of a forward pass, if it is
/// well-shaped.
pub fn forward_dims(p: ParamDims, x: Dims) -> (r: Option<(Dims, Dims)>)
    ensures
        r == (if forward_ok(p, x) {
            Option::Some((a1_dims(p, x), y_hat_dims(p, x)))
        } else {
            Option::None::<(Dims, Dims)>
        }),
{
    let z0 = match matmul_dims(transpose_dims(p.w0), x) {
        Option::Some(d) => d,
        Option::None => {
            return Option::None;
        },
    };
    if !(p.b0.rows == z0.rows && p.b0.cols == 1) {
        return Option::None;
    }
    let z1 = match matmul_dims(transpose_dims(p.w1), z0) {
        Option::Some(d) => d,
        Option::None => {
            return Option::None;
        },
    };
    if !(p.b1.rows == z1.rows && p.b1.cols == 1) {
        return Option::None;
    }
    Option::Some((z0, z1))
}

/// Extents of the four gradients of a backward pass, if it is well-shaped.
pub fn backward_dims(x: Dims, y: Dims, a1: Dims, yh: Dims, w1: Dims) -> (r: Option<ParamDims>)
    ensures
        r == (if backward_ok(x, y, a1, yh, w1) {
            Option::Some(grad_dims(x, a1, yh))
        } else {
            Option::None::<ParamDims>
        }),
{
    if !(yh.rows == y.rows && yh.cols == y.cols) {
        return Option::None;
    }
    let dw1 = match matmul_dims(a1, transpose_dims(yh)) {
        Option::Some(d) => d,
        Option::None => {
            return Option::None;
        },
    };
    let wd = match matmul_dims(w1, yh) {
        Option::Some(d) => d,
        Option::None => {
            return Option::None;
        },
    };
    if !(a1.rows == wd.rows && a1.cols == wd.cols) {
        return Option::None;
    }
    let dw0 = match matmul_dims(x, transpose_dims(a1)) {
        Option::Some(d) => d,
        Option::None => {
            return Option::None;
        },
    };
    Option::Some(
        ParamDims {
            w0: dw0,
            b0: Dims { rows: a1.rows, cols: 1 },
            w1: dw1,
            b1: Dims { rows: yh.rows, cols: 1 },
        },
    )
}

/// Extents after the update `P ← P − α · (dP / m)`, if every gradient extent
/// matches its parameter extent.
pub fn update_dims(p: ParamDims, g: ParamDims) -> (r: Option<ParamDims>)
    ensures
        r == (if g == p {
            Option::Some(p)
        } else {
            Option::None::<ParamDims>
        }),
{
    if g.w0.rows == p.w0.rows && g.w0.cols == p.w0.cols && g.b0.rows == p.b0.rows && g.b0.cols
        == p.b0.cols && g.w1.rows == p.w1.rows && g.w1.cols == p.w1.cols && g.b1.rows == p.b1.rows
        && g.b1.cols == p.b1.cols {
        Option::Some(p)
    } else {
        Option::None
    }
}

/// Extents after one whole epoch, if it is well-shaped; a caller can run
/// this once before training to reject a mis-shaped configuration.
pub fn epoch_dims(p: ParamDims, x: Dims, y: Dims) -> (r: Option<ParamDims>)
    ensures
        r == (if epoch_ok(p, x, y) {
            Option::Some(p)
        } else {
            Option::None::<ParamDims>
        }),
{
    let (a1, yh) = match forward_dims(p, x) {
        Option::Some(d) => d,
        Option::None => {
            return Option::None;
        },
    };
    let g = match backward_dims(x, y, a1, yh, p.w1) {
        Option::Some(d) => d,
        Option::None => {
            return Option::None;
        },
    };
    update_dims(p, g)
}

/// The fixed XOR topology: 2 inputs, 2 hidden units, 1 output.
pub open spec fn xor_net_dims(p: ParamDims) -> bool {
    &&& p.w0 == dims(2, 2)
    &&& p.b0 == dims(2, 1)
    &&& p.w1 == dims(2, 1)
    &&& p.b1 == dims(1, 1)
}

/// With the XOR topology and a dataset of `m` example columns, one epoch is
/// well-shaped, the activations have extents `A1 = 2 × m` and
/// `Y_hat = 1 × m`, every gradient matches its parameter, and the updated
/// parameters keep their extents.
pub proof fn lemma_xor_epoch_dims(p: ParamDims, x: Dims, y: Dims, m: usize)
    requires
        xor_net_dims(p),
        x == dims(2, m),
        y == dims(1, m),
    ensures
        forward_ok(p, x),
        a1_dims(p, x) == dims(2, m),
        y_hat_dims(p, x) == dims(1, m),
        backward_ok(x, y, a1_dims(p, x), y_hat_dims(p, x), p.w1),
        grad_dims(x, a1_dims(p, x), y_hat_dims(p, x)) == p,
        epoch_ok(p, x, y),
{
}

/// Shape invariance over a whole run: with the XOR topology, every one of
/// the `k` epochs is well-shaped and the parameter extents never change.
pub proof fn lemma_xor_training_dims(p: ParamDims, x: Dims, y: Dims, m: usize, k: nat)
    requires
        xor_net_dims(p),
        x == dims(2, m),
        y == dims(1, m),
    ensures
        epochs_dims(p, x, y, k) == Option::Some(p),
    decreases k,
{
    if k > 0 {
        lemma_xor_training_dims(p, x, y, m, (k - 1) as nat);
        lemma_xor_epoch_dims(p, x, y, m);
    }
}

} // verus!
