//! Read-only introspection of an array's shape and of the sizes it implies.
use crate::shape::product;
use vstd::prelude::*;

verus! {

/// Shape and size introspection of an array-like value.
pub trait Dimension {
    /// The extent of each axis, outermost first.
    spec fn axes(&self) -> Seq<usize>;

    /// The number of bytes that one element occupies.
    spec fn element_width(&self) -> nat;

    /// Returns the extent of each axis, in axis order.
    fn shape(&self) -> (r: &[usize])
        ensures
            r@ == self.axes(),
    ;

    /// Returns the number of bytes that the elements occupy.
    fn size(&self) -> (r: usize)
        ensures
            r as nat == product(self.axes()) * self.element_width(),
    ;

    /// Returns the number of elements: the product of the axis extents.
    fn numel(&self) -> (r: usize)
        ensures
            r as nat == product(self.axes()),
    ;
}

} // verus!
