//! Construction of arrays from a shape and a fill rule.
use crate::dimension::Dimension;
use crate::shape::{lemma_zero_extent, product};
use num_traits::Num;
use vstd::layout::size_of;
use vstd::prelude::*;

verus! {

/// Allocation of a new array whose elements all hold one value.
pub trait Factory<T: Copy>: Dimension + Sized {
    /// The elements, in storage order.
    spec fn cells(&self) -> Seq<T>;

    /// Allocates an array of the given shape with every element set to
    /// `value`. The shape is kept as given; an empty shape holds one element
    /// and a shape with a zero extent holds none.
    fn fill(value: T, shape: &[usize]) -> (r: Self)
        requires
            product(shape@) <= usize::MAX,
            product(shape@) * size_of::<T>() <= isize::MAX,
        ensures
            r.axes() == shape@,
            r.cells() == Seq::new(product(shape@), |i: int| value),
            r.element_width() == size_of::<T>(),
            product(r.axes()) == product(shape@),
            product(r.axes()) * r.element_width() == product(shape@) * size_of::<T>(),
    ;

    /// Allocates an array of the given shape with every element set to the
    /// additive identity of `T`.
    fn zeros(shape: &[usize]) -> (r: Self) where T: Num
        requires
            product(shape@) <= usize::MAX,
            product(shape@) * size_of::<T>() <= isize::MAX,
        ensures
            r.axes() == shape@,
            r.cells().len() == product(shape@),
            forall|i: int, j: int|
                0 <= i < r.cells().len() && 0 <= j < r.cells().len() ==> r.cells()[i]
                    == r.cells()[j],
            r.element_width() == size_of::<T>(),
    ;

    /// Allocates an array of the given shape with every element set to the
    /// multiplicative identity of `T`.
    fn ones(shape: &[usize]) -> (r: Self) where T: Num
        requires
            product(shape@) <= usize::MAX,
            product(shape@) * size_of::<T>() <= isize::MAX,
        ensures
            r.axes() == shape@,
            r.cells().len() == product(shape@),
            forall|i: int, j: int|
                0 <= i < r.cells().len() && 0 <= j < r.cells().len() ==> r.cells()[i]
                    == r.cells()[j],
            r.element_width() == size_of::<T>(),
    ;
}

/// Filling the empty shape yields exactly one element, the fill value.
pub proof fn lemma_fill_empty_shape<T>(value: T)
    ensures
        product(Seq::<usize>::empty()) == 1,
        Seq::new(product(Seq::<usize>::empty()), |i: int| value) == seq![value],
{
    assert(Seq::new(product(Seq::<usize>::empty()), |i: int| value) =~= seq![value]);
}

/// Filling a shape that has a zero extent yields no elements, and they
/// occupy no bytes whatever the element width.
pub proof fn lemma_fill_zero_extent<T>(value: T, shape: Seq<usize>, k: int, width: nat)
    requires
        0 <= k < shape.len(),
        shape[k] == 0,
    ensures
        product(shape) == 0,
        product(shape) * width == 0,
        Seq::new(product(shape), |i: int| value) == Seq::<T>::empty(),
{
    lemma_zero_extent(shape, k);
    assert(Seq::new(product(shape), |i: int| value) =~= Seq::<T>::empty());
}

} // verus!
