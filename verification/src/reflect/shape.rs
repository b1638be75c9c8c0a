//! The plain-value shape of descriptors, and sharing of `Rc` values.

use vstd::prelude::*;
use std::rc::Rc;

verus! {

/// The structure of a descriptor as a tree of plain values. Two descriptors
/// are equal (`==` on the descriptor types) exactly when their shapes are.
pub enum Shape {
    Text(Seq<char>),
    Num(int),
    Node(int, Seq<Shape>),
}

/// The shape of an optional count.
pub open spec fn opt_num_shape(v: Option<usize>) -> Shape {
    match v {
        None => Shape::Node(0, Seq::empty()),
        Some(n) => Shape::Node(1, seq![Shape::Num(n as int)]),
    }
}

/// Shares the value behind an `Rc` (`Rc::clone`): the result points to the
/// same allocation, so it holds the same value.
#[verifier::external_body]
pub(crate) fn share<T>(r: &Rc<T>) -> (c: Rc<T>)
    ensures
        c == *r,
{
    Rc::clone(r)
}

} // verus!
