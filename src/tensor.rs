//! The dense array: a contiguous buffer of elements and the shape that
//! addresses it.
use crate::dimension::Dimension;
use crate::factory::Factory;
use crate::shape::{numel_of, product};
use num_traits::Num;
use smallvec::SmallVec;
use vstd::layout::size_of;
use vstd::prelude::*;

verus! {

/// Storage for axis extents, held in a smallvec::SmallVec: inline for up to
/// five axes, on the heap beyond. Its contents are known through `held_axes`.
#[derive(Debug)]
#[verifier::external_body]
pub struct AxisBuffer {
    inner: SmallVec<[usize; 5]>,
}

/// The axis extents that a buffer holds, in order.
pub uninterp spec fn held_axes(v: AxisBuffer) -> Seq<usize>;

/// Relies on smallvec's `From<&[T]>` for `SmallVec`: it holds the slice's
/// items, in order.
#[verifier::external_body]
fn axes_from_slice(s: &[usize]) -> (r: AxisBuffer)
    ensures
        held_axes(r) == s@,
{
    AxisBuffer { inner: SmallVec::from(s) }
}

/// Relies on `SmallVec::as_slice`: the items held, in order.
#[verifier::external_body]
fn axes_as_slice(v: &AxisBuffer) -> (r: &[usize])
    ensures
        r@ == held_axes(*v),
{
    v.inner.as_slice()
}

/// Relies on num_traits's `Zero::zero`, part of `Num`: the additive identity
/// of `T`.
#[verifier::external_body]
fn additive_identity<T: Num>() -> T {
    T::zero()
}

/// Relies on num_traits's `One::one`, part of `Num`: the multiplicative
/// identity of `T`.
#[verifier::external_body]
fn multiplicative_identity<T: Num>() -> T {
    T::one()
}

/// A dense array: its elements lie contiguously in storage order, and its
/// shape gives the extent of each axis. The buffer always holds exactly as
/// many elements as the shape describes.
#[derive(Debug)]
pub struct Tensor<T> {
    data: Vec<T>,
    shape: AxisBuffer,
}

impl<T> Tensor<T> {
    /// The elements, in storage order.
    pub closed spec fn elements(&self) -> Seq<T> {
        self.data@
    }

    /// The extent of each axis, outermost first.
    pub closed spec fn dims(&self) -> Seq<usize> {
        held_axes(self.shape)
    }

    #[verifier::type_invariant]
    spec fn well_formed(&self) -> bool {
        &&& self.data@.len() == product(held_axes(self.shape))
        &&& product(held_axes(self.shape)) <= usize::MAX
        &&& product(held_axes(self.shape)) * size_of::<T>() <= isize::MAX
    }

    /// Returns the elements, in storage order.
    pub fn data(&self) -> (r: &[T])
        ensures
            r@ == self.elements(),
    {
        self.data.as_slice()
    }
}

impl<T: Copy> Tensor<T> {
    /// Builds an array of the given shape with every element set to `value`.
    fn filled(value: T, shape: &[usize]) -> (r: Self)
        requires
            product(shape@) <= usize::MAX,
            product(shape@) * size_of::<T>() <= isize::MAX,
        ensures
            r.dims() == shape@,
            r.elements() == Seq::new(product(shape@), |i: int| value),
    {
        let n = numel_of(shape);
        let mut data: Vec<T> = Vec::with_capacity(n);
        let mut i: usize = 0;
        while i < n
            invariant
                i <= n,
                data@ == Seq::new(i as nat, |k: int| value),
            decreases n - i,
        {
            data.push(value);
            i += 1;
            assert(data@ =~= Seq::new(i as nat, |k: int| value));
        }
        let axes = axes_from_slice(shape);
        Tensor { data, shape: axes }
    }
}

impl<T: Copy> Clone for Tensor<T> {
    /// Returns an array with the same shape and the same elements.
    fn clone(&self) -> (r: Self)
        ensures
            r.dims() == self.dims(),
            r.elements() == self.elements(),
    {
        proof {
            use_type_invariant(self);
        }
        let n = self.data.len();
        let mut data: Vec<T> = Vec::with_capacity(n);
        let mut i: usize = 0;
        while i < n
            invariant
                i <= n,
                n == self.data@.len(),
                data@ == self.data@.take(i as int),
            decreases n - i,
        {
            data.push(self.data[i]);
            i += 1;
            assert(data@ =~= self.data@.take(i as int));
        }
        assert(data@ =~= self.data@);
        let axes = axes_from_slice(axes_as_slice(&self.shape));
        Tensor { data, shape: axes }
    }
}

impl<T: Copy> Factory<T> for Tensor<T> {
    closed spec fn cells(&self) -> Seq<T> {
        self.elements()
    }

    fn fill(value: T, shape: &[usize]) -> (r: Self) {
        Self::filled(value, shape)
    }

    fn zeros(shape: &[usize]) -> (r: Self) where T: Num {
        Self::filled(additive_identity(), shape)
    }

    fn ones(shape: &[usize]) -> (r: Self) where T: Num {
        Self::filled(multiplicative_identity(), shape)
    }
}

impl<T> Dimension for Tensor<T> {
    closed spec fn axes(&self) -> Seq<usize> {
        self.dims()
    }

    open spec fn element_width(&self) -> nat {
        size_of::<T>()
    }

    fn shape(&self) -> (r: &[usize]) {
        axes_as_slice(&self.shape)
    }

    fn size(&self) -> (r: usize) {
        proof {
            use_type_invariant(self);
        }
        self.numel() * core::mem::size_of::<T>()
    }

    fn numel(&self) -> (r: usize) {
        proof {
            use_type_invariant(self);
        }
        numel_of(self.shape())
    }
}

} // verus!
