//! Shapes: ordered sequences of per-axis extents, and the element count they
//! describe.
use vstd::prelude::*;

verus! {

/// The number of cells described by a shape: the product of its extents.
/// The empty shape describes a single cell; any zero extent describes none.
pub open spec fn product(s: Seq<usize>) -> nat
    decreases s.len(),
{
    if s.len() == 0 {
        1
    } else {
        product(s.drop_last()) * (s.last() as nat)
    }
}

/// A shape with no axes describes exactly one cell.
pub proof fn lemma_empty_shape_single_cell()
    ensures
        product(Seq::<usize>::empty()) == 1,
{
}

/// A shape with a zero extent on any axis describes no cells.
pub proof fn lemma_zero_extent(s: Seq<usize>, k: int)
    requires
        0 <= k < s.len(),
        s[k] == 0,
    ensures
        product(s) == 0,
    decreases s.len(),
{
    let p = product(s.drop_last());
    let e = s.last() as nat;
    if k < s.len() - 1 {
        lemma_zero_extent(s.drop_last(), k);
        assert(p * e == 0) by (nonlinear_arith)
            requires
                p == 0,
        ;
    } else {
        assert(p * e == 0) by (nonlinear_arith)
            requires
                e == 0,
        ;
    }
}

/// When no extent is zero, the cell count of a leading part of a shape never
/// exceeds that of the whole shape.
proof fn lemma_prefix_product_le(s: Seq<usize>, i: int)
    requires
        0 <= i <= s.len(),
        forall|j: int| 0 <= j < s.len() ==> s[j] != 0,
    ensures
        product(s.take(i)) <= product(s),
    decreases s.len() - i,
{
    if i == s.len() {
        assert(s.take(i) =~= s);
    } else {
        lemma_prefix_product_le(s, i + 1);
        assert(s.take(i + 1).drop_last() =~= s.take(i));
        let p = product(s.take(i));
        let e = s[i] as nat;
        assert(p <= p * e) by (nonlinear_arith)
            requires
                e >= 1,
        ;
    }
}

/// Computes the number of cells that `shape` describes.
///
/// A zero extent anywhere gives 0 without multiplying the other extents, so
/// that the count is found whenever it fits in a `usize`.
pub fn numel_of(shape: &[usize]) -> (r: usize)
    requires
        product(shape@) <= usize::MAX,
    ensures
        r as nat == product(shape@),
{
    let n = shape.len();
    let mut i: usize = 0;
    while i < n
        invariant
            n == shape@.len(),
            i <= n,
            forall|j: int| 0 <= j < i ==> shape@[j] != 0,
        decreases n - i,
    {
        if shape[i] == 0 {
            proof {
                lemma_zero_extent(shape@, i as int);
            }
            return 0;
        }
        i += 1;
    }
    let mut acc: usize = 1;
    let mut i: usize = 0;
    while i < n
        invariant
            n == shape@.len(),
            i <= n,
            forall|j: int| 0 <= j < n ==> shape@[j] != 0,
            product(shape@) <= usize::MAX,
            acc as nat == product(shape@.take(i as int)),
        decreases n - i,
    {
        proof {
            lemma_prefix_product_le(shape@, i + 1);
            assert(shape@.take(i + 1).drop_last() =~= shape@.take(i as int));
        }
        acc = acc * shape[i];
        i += 1;
    }
    assert(shape@.take(n as int) =~= shape@);
    acc
}

} // verus!
