//! A binary tree.

use vstd::prelude::*;

verus! {

/// An ordered collection of `T`s.
pub enum BinaryTree<T> {
    Empty,
    NonEmpty(Box<TreeNode<T>>),
}

/// A part of a [`BinaryTree`].
pub struct TreeNode<T> {
    pub element: T,
    pub left: BinaryTree<T>,
    pub right: BinaryTree<T>,
}

} // verus!
