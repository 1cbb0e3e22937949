//! Dynamic-rank tensors: a shape vector and a flat row-major buffer.
use vstd::prelude::*;

verus! {

/// Number of elements that a shape describes: the product of its dimensions.
pub open spec fn shape_product(shape: Seq<usize>) -> nat
    decreases shape.len(),
{
    if shape.len() == 0 {
        1
    } else {
        shape_product(shape.drop_last()) * (shape.last() as nat)
    }
}

/// Every dimension of a wire shape is non-negative.
pub open spec fn wire_dims_valid(dims: Seq<i32>) -> bool {
    forall|i: int| 0 <= i < dims.len() ==> dims[i] >= 0
}

/// Every dimension of a shape fits in a wire dimension.
pub open spec fn dims_fit_wire(dims: Seq<usize>) -> bool {
    forall|i: int| 0 <= i < dims.len() ==> dims[i] <= i32::MAX
}

/// Why a tensor or a shape was refused.
#[derive(Clone, Copy, Debug, PartialEq, Eq, Structural)]
pub enum TensorError {
    /// The product of the shape differs from the number of elements.
    ShapeMismatch,
    /// A wire shape holds a negative dimension.
    NegativeDimension,
    /// A dimension does not fit in a wire dimension.
    DimensionTooLarge,
}

/// A tensor of any rank: its shape and its elements in row-major order.
pub struct Tensor<T> {
    pub shape: Vec<usize>,
    pub data: Vec<T>,
}

proof fn lemma_product_zero(s: Seq<usize>, k: int)
    requires
        0 <= k < s.len(),
        s[k] == 0,
    ensures
        shape_product(s) == 0,
    decreases s.len(),
{
    let p = shape_product(s.drop_last());
    let l = s.last() as nat;
    if k < s.len() - 1 {
        lemma_product_zero(s.drop_last(), k);
        assert(p * l == 0) by (nonlinear_arith)
            requires
                p == 0,
        ;
    } else {
        assert(p * l == 0) by (nonlinear_arith)
            requires
                l == 0,
        ;
    }
}

proof fn lemma_product_prefix_le(s: Seq<usize>, j: int)
    requires
        0 <= j <= s.len(),
        forall|k: int| 0 <= k < s.len() ==> s[k] >= 1,
    ensures
        shape_product(s.take(j)) <= shape_product(s),
    decreases s.len(),
{
    if j < s.len() {
        let t = s.drop_last();
        lemma_product_prefix_le(t, j);
        assert(t.take(j) =~= s.take(j));
        let p = shape_product(t);
        let l = s.last() as nat;
        assert(p <= p * l) by (nonlinear_arith)
            requires
                l >= 1,
        ;
    } else {
        assert(s.take(j) =~= s);
    }
}

/// The number of elements that `shape` describes, or `None` where it exceeds
/// `usize::MAX`.
pub fn element_count(shape: &Vec<usize>) -> (r: Option<usize>)
    ensures
        match r {
            Some(n) => n == shape_product(shape@),
            None => shape_product(shape@) > usize::MAX,
        },
{
    let n = shape.len();
    let mut i: usize = 0;
    while i < n
        invariant
            n == shape@.len(),
            i <= n,
            forall|k: int| 0 <= k < i ==> shape@[k] >= 1,
        decreases n - i,
    {
        if shape[i] == 0 {
            proof {
                lemma_product_zero(shape@, i as int);
            }
            return Some(0);
        }
        i = i + 1;
    }
    let mut acc: usize = 1;
    let mut j: usize = 0;
    while j < n
        invariant
            n == shape@.len(),
            j <= n,
            forall|k: int| 0 <= k < n ==> shape@[k] >= 1,
            acc as nat == shape_product(shape@.take(j as int)),
        decreases n - j,
    {
        proof {
            assert(shape@.take(j as int + 1).drop_last() =~= shape@.take(j as int));
        }
        match acc.checked_mul(shape[j]) {
            Some(p) => {
                acc = p;
            },
            None => {
                proof {
                    lemma_product_prefix_le(shape@, j as int + 1);
                }
                return None;
            },
        }
        j = j + 1;
    }
    proof {
        assert(shape@.take(n as int) =~= shape@);
    }
    Some(acc)
}

impl<T> Tensor<T> {
    /// The shape describes exactly as many elements as the buffer holds.
    pub open spec fn wf(&self) -> bool {
        shape_product(self.shape@) == self.data@.len()
    }

    /// Builds a tensor from a shape and a row-major buffer, refusing a buffer
    /// whose length is not the product of the shape.
    pub fn from_shape_vec(shape: Vec<usize>, data: Vec<T>) -> (r: Result<Tensor<T>, TensorError>)
        ensures
            shape_product(shape@) == data@.len() <==> r is Ok,
            r matches Ok(t) ==> t.shape@ == shape@ && t.data@ == data@ && t.wf(),
            r matches Err(e) ==> e == TensorError::ShapeMismatch,
    {
        match element_count(&shape) {
            Some(n) => {
                if n == data.len() {
                    Ok(Tensor { shape, data })
                } else {
                    Err(TensorError::ShapeMismatch)
                }
            },
            None => {
                let len = data.len();
                assert(shape_product(shape@) > len);
                Err(TensorError::ShapeMismatch)
            },
        }
    }

    /// Number of elements.
    pub fn len(&self) -> (r: usize)
        ensures
            r == self.data@.len(),
    {
        self.data.len()
    }
}

/// Converts a wire shape (signed dimensions) to a shape, refusing a negative
/// dimension.
pub fn dims_from_wire(dims: &Vec<i32>) -> (r: Result<Vec<usize>, TensorError>)
    ensures
        wire_dims_valid(dims@) <==> r is Ok,
        r matches Ok(v) ==> v@.len() == dims@.len() && forall|i: int|
            0 <= i < dims@.len() ==> v@[i] as int == dims@[i] as int,
        r matches Err(e) ==> e == TensorError::NegativeDimension,
{
    let mut out: Vec<usize> = Vec::new();
    let mut i: usize = 0;
    while i < dims.len()
        invariant
            i <= dims@.len(),
            out@.len() == i,
            forall|k: int| 0 <= k < i ==> dims@[k] >= 0 && out@[k] as int == dims@[k] as int,
        decreases dims@.len() - i,
    {
        let d = dims[i];
        if d < 0 {
            return Err(TensorError::NegativeDimension);
        }
        out.push(d as usize);
        i = i + 1;
    }
    Ok(out)
}

/// Converts a shape to a wire shape, refusing a dimension above `i32::MAX`.
pub fn dims_to_wire(dims: &Vec<usize>) -> (r: Result<Vec<i32>, TensorError>)
    ensures
        dims_fit_wire(dims@) <==> r is Ok,
        r matches Ok(v) ==> v@.len() == dims@.len() && forall|i: int|
            0 <= i < dims@.len() ==> v@[i] as int == dims@[i] as int,
        r matches Err(e) ==> e == TensorError::DimensionTooLarge,
{
    let mut out: Vec<i32> = Vec::new();
    let mut i: usize = 0;
    while i < dims.len()
        invariant
            i <= dims@.len(),
            out@.len() == i,
            forall|k: int| 0 <= k < i ==> dims@[k] <= i32::MAX && out@[k] as int == dims@[k] as int,
        decreases dims@.len() - i,
    {
        let d = dims[i];
        if d > 2147483647 {
            return Err(TensorError::DimensionTooLarge);
        }
        out.push(d as i32);
        i = i + 1;
    }
    Ok(out)
}

} // verus!
