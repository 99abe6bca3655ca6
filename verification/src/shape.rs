//! Tensor shapes, as sequences of dimensions.

use crate::error::Error;
use crate::error::ErrorOf;
use vstd::prelude::*;

verus! {

/// Number of elements of a tensor with dimensions `d`.
pub open spec fn dims_product(d: Seq<usize>) -> nat
    decreases d.len(),
{
    if d.len() == 0 {
        1
    } else {
        dims_product(d.drop_last()) * d.last() as nat
    }
}

/// The running product over `d` fits the machine.
pub open spec fn dims_fit(d: Seq<usize>) -> bool {
    forall|i: int| 0 <= i <= d.len() ==> dims_product(#[trigger] d.take(i)) <= usize::MAX
}

pub proof fn lemma_dims_product3(a: usize, b: usize, c: usize)
    ensures
        dims_product(Seq::<usize>::empty()) == 1,
        dims_product(seq![a]) == a,
        dims_product(seq![a, b]) == a * b,
        dims_product(seq![a, b, c]) == a * b * c,
{
    let one = dims_product(Seq::<usize>::empty());
    assert(seq![a].drop_last() =~= Seq::<usize>::empty());
    assert(dims_product(seq![a]) == one * a as nat);
    assert(one * a as nat == a) by (nonlinear_arith)
        requires
            one == 1,
    ;
    assert(seq![a, b].drop_last() =~= seq![a]);
    assert(dims_product(seq![a, b]) == dims_product(seq![a]) * b as nat);
    assert(seq![a, b, c].drop_last() =~= seq![a, b]);
}

/// Number of elements of a tensor with dimensions `dims`.
pub fn elem_count(dims: &[usize]) -> (r: usize)
    requires
        dims_fit(dims@),
    ensures
        r == dims_product(dims@),
{
    let mut acc: usize = 1;
    let mut i: usize = 0;
    assert(dims@.take(0) =~= Seq::<usize>::empty());
    while i < dims.len()
        invariant
            i <= dims@.len(),
            dims_fit(dims@),
            acc == dims_product(dims@.take(i as int)),
        decreases dims@.len() - i,
    {
        proof {
            let t = dims@.take(i + 1);
            assert(t.drop_last() =~= dims@.take(i as int));
            assert(t.last() == dims@[i as int]);
            assert(dims_product(t) <= usize::MAX);
        }
        acc = acc * dims[i];
        i = i + 1;
    }
    assert(dims@.take(i as int) =~= dims@);
    acc
}

/// An owned copy of `dims`.
pub fn copy_dims(dims: &[usize]) -> (r: Vec<usize>)
    ensures
        r@ == dims@,
{
    let mut out: Vec<usize> = Vec::new();
    let mut i: usize = 0;
    while i < dims.len()
        invariant
            i <= dims@.len(),
            out@ == dims@.take(i as int),
        decreases dims@.len() - i,
    {
        out.push(dims[i]);
        i = i + 1;
        assert(out@ =~= dims@.take(i as int));
    }
    assert(dims@.take(i as int) =~= dims@);
    out
}

/// The error for a shape `d` that should have rank `expected`.
pub open spec fn rank_error(expected: usize, d: Seq<usize>) -> ErrorOf<Seq<usize>> {
    ErrorOf::UnexpectedRank { expected, got: d.len() as usize, shape: d }
}

/// The two dimensions of a matrix.
pub fn dims2(dims: &[usize]) -> (r: Result<(usize, usize), Error>)
    ensures
        match r {
            Ok(d) => dims@.len() == 2 && d == (dims@[0], dims@[1]),
            Err(e) => dims@.len() != 2 && e@ == rank_error(2, dims@),
        },
{
    if dims.len() == 2 {
        Ok((dims[0], dims[1]))
    } else {
        Err(ErrorOf::UnexpectedRank { expected: 2, got: dims.len(), shape: copy_dims(dims) })
    }
}

/// The three dimensions of a stack of matrices.
pub fn dims3(dims: &[usize]) -> (r: Result<(usize, usize, usize), Error>)
    ensures
        match r {
            Ok(d) => dims@.len() == 3 && d == (dims@[0], dims@[1], dims@[2]),
            Err(e) => dims@.len() != 3 && e@ == rank_error(3, dims@),
        },
{
    if dims.len() == 3 {
        Ok((dims[0], dims[1], dims[2]))
    } else {
        Err(ErrorOf::UnexpectedRank { expected: 3, got: dims.len(), shape: copy_dims(dims) })
    }
}

/// The dimensions `d` with the last one replaced by `n`.
pub open spec fn with_last(d: Seq<usize>, n: usize) -> Seq<usize> {
    if d.len() == 0 {
        seq![n]
    } else {
        d.drop_last().push(n)
    }
}

/// The dimensions `dims` with the last one replaced by `n`.
pub fn replace_last(dims: &[usize], n: usize) -> (r: Vec<usize>)
    ensures
        r@ == with_last(dims@, n),
{
    let mut out: Vec<usize> = copy_dims(dims);
    let _ = out.pop();
    out.push(n);
    assert(out@ =~= with_last(dims@, n));
    out
}

/// Tells whether the running product over `dims` fits the machine.
pub fn elem_count_fits(dims: &[usize]) -> (r: bool)
    ensures
        r == dims_fit(dims@),
{
    let mut acc: usize = 1;
    let mut i: usize = 0;
    assert(dims@.take(0) =~= Seq::<usize>::empty());
    while i < dims.len()
        invariant
            i <= dims@.len(),
            acc == dims_product(dims@.take(i as int)),
            forall|j: int| 0 <= j <= i ==> dims_product(#[trigger] dims@.take(j)) <= usize::MAX,
        decreases dims@.len() - i,
    {
        proof {
            let t = dims@.take(i + 1);
            assert(t.drop_last() =~= dims@.take(i as int));
            assert(t.last() == dims@[i as int]);
        }
        match acc.checked_mul(dims[i]) {
            Some(v) => {
                acc = v;
            },
            None => {
                assert(dims_product(dims@.take(i + 1)) > usize::MAX);
                return false;
            },
        }
        i = i + 1;
    }
    true
}

/// The number of elements is the product of the dimensions: a dimension more multiplies it, it is
/// one without dimensions, and nothing is left where one of them is zero.
pub proof fn law_dims_multiply(a: Seq<usize>, b: Seq<usize>)
    ensures
        dims_product(a + b) == dims_product(a) * dims_product(b),
        dims_product(Seq::<usize>::empty()) == 1,
        forall|n: usize| #[trigger] dims_product(seq![n]) == n,
        a.contains(0) ==> dims_product(a + b) == 0,
    decreases b.len(),
{
    assert forall|n: usize| #[trigger] dims_product(seq![n]) == n by {
        lemma_dims_product3(n, 0, 0);
    }
    lemma_dims_product3(0, 0, 0);
    if b.len() == 0 {
        assert(a + b =~= a);
    } else {
        let front = b.drop_last();
        law_dims_multiply(a, front);
        assert((a + b).drop_last() =~= a + front);
        assert((a + b).last() == b.last());
        let (x, y, z) = (dims_product(a), dims_product(front), b.last() as nat);
        assert(x * y * z == x * (y * z)) by (nonlinear_arith);
    }
    if a.contains(0) {
        lemma_zero_dim(a);
        assert(0 * dims_product(b) == 0);
    }
}

proof fn lemma_zero_dim(d: Seq<usize>)
    requires
        d.contains(0),
    ensures
        dims_product(d) == 0,
    decreases d.len(),
{
    let i = choose|i: int| 0 <= i < d.len() && d[i] == 0;
    let front = d.drop_last();
    if i == d.len() - 1 {
        assert(dims_product(front) * 0 == 0);
    } else {
        assert(front[i] == 0);
        lemma_zero_dim(front);
        assert(0 * d.last() as nat == 0);
    }
}

/// Replacing the last dimension leaves the rank and all other dimensions.
pub proof fn law_with_last_keeps_others(d: Seq<usize>, n: usize, i: int)
    requires
        d.len() > 0,
    ensures
        with_last(d, n).len() == d.len(),
        with_last(d, n).last() == n,
        0 <= i < d.len() - 1 ==> with_last(d, n)[i] == d[i],
{
}

/// Without a dimension of zero, a shape fits where the number of its elements does.
pub proof fn law_shape_fits_by_elements(d: Seq<usize>)
    requires
        !d.contains(0),
        dims_product(d) <= usize::MAX,
    ensures
        dims_fit(d),
    decreases d.len(),
{
    if d.len() > 0 {
        let front = d.drop_last();
        let (x, y) = (dims_product(front), d.last() as nat);
        assert(d.contains(d.last()));
        assert(x <= x * y) by (nonlinear_arith)
            requires
                y >= 1,
        ;
        assert forall|n: usize| front.contains(n) implies d.contains(n) by {
            let i = choose|i: int| 0 <= i < front.len() && front[i] == n;
            assert(d[i] == n);
        }
        law_shape_fits_by_elements(front);
        assert forall|i: int| 0 <= i <= d.len() implies dims_product(#[trigger] d.take(i))
            <= usize::MAX by {
            if i < d.len() {
                assert(d.take(i) =~= front.take(i));
            } else {
                assert(d.take(i) =~= d);
            }
        }
    } else {
        assert forall|i: int| 0 <= i <= d.len() implies dims_product(#[trigger] d.take(i))
            <= usize::MAX by {
            assert(d.take(i) =~= d);
        }
    }
}

} // verus!
