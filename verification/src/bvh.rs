//! Node links of the bounding-volume hierarchy. A node packs "leaf or
//! internal" into the top bit of its first word: a leaf stores a primitive
//! index (31 bits) and a primitive count, an internal node stores the
//! indices of its two children. The packing and its accessors are verified
//! to round-trip; the float bounding boxes and the traversal live with the
//! caller.

use vstd::prelude::*;

verus! {

/// Mask of the top bit that marks a leaf.
pub const LEAF_FLAG: u32 = 0x8000_0000;

/// Mask of the 31 index bits.
pub const INDEX_MASK: u32 = 0x7FFF_FFFF;

/// The packed pair of words of one node.
#[derive(Debug, Clone, Copy, PartialEq, Eq, Structural)]
pub struct NodeLink {
    pub left_or_prim: u32,
    pub right_or_count: u32,
}

impl NodeLink {
    /// Pack a node. The index must leave the top bit free: 31 bits index,
    /// 1 bit distinguishes leaves.
    pub fn new(is_leaf: bool, left_or_prim: u32, right_or_count: u32) -> (n: NodeLink)
        requires
            left_or_prim & LEAF_FLAG == 0,
        ensures
            n.is_leaf() == is_leaf,
            is_leaf ==> n.primitive() == left_or_prim && n.count() == right_or_count,
            !is_leaf ==> n.left_child() == left_or_prim && n.right_child() == right_or_count,
    {
        let left = if is_leaf {
            left_or_prim | LEAF_FLAG
        } else {
            left_or_prim
        };
        proof {
            assert(left_or_prim & LEAF_FLAG == 0 ==> ((left_or_prim | LEAF_FLAG) & LEAF_FLAG
                != 0 && (left_or_prim | LEAF_FLAG) & INDEX_MASK == left_or_prim && left_or_prim
                & INDEX_MASK == left_or_prim)) by (bit_vector);
        }
        NodeLink { left_or_prim: left, right_or_count }
    }

    /// Whether the node is a leaf: the top bit of the first word.
    pub open spec fn spec_is_leaf(&self) -> bool {
        self.left_or_prim & LEAF_FLAG != 0
    }

    #[verifier::when_used_as_spec(spec_is_leaf)]
    pub fn is_leaf(&self) -> (r: bool)
        ensures
            r == self.spec_is_leaf(),
    {
        self.left_or_prim & LEAF_FLAG != 0
    }

    /// Index of the left child of an internal node.
    pub open spec fn spec_left_child(&self) -> u32 {
        self.left_or_prim & INDEX_MASK
    }

    #[verifier::when_used_as_spec(spec_left_child)]
    pub fn left_child(&self) -> (r: u32)
        ensures
            r == self.spec_left_child(),
    {
        self.left_or_prim & INDEX_MASK
    }

    /// Index of the right child of an internal node.
    pub open spec fn spec_right_child(&self) -> u32 {
        self.right_or_count
    }

    #[verifier::when_used_as_spec(spec_right_child)]
    pub fn right_child(&self) -> (r: u32)
        ensures
            r == self.spec_right_child(),
    {
        self.right_or_count
    }

    /// Primitive index of a leaf: the first word without the flag bit.
    pub open spec fn spec_primitive(&self) -> u32 {
        self.left_or_prim & INDEX_MASK
    }

    #[verifier::when_used_as_spec(spec_primitive)]
    pub fn primitive(&self) -> (r: u32)
        ensures
            r == self.spec_primitive(),
    {
        self.left_or_prim & INDEX_MASK
    }

    /// Primitive count of a leaf: the second word, reused from the sibling
    /// slot of internal nodes.
    pub open spec fn spec_count(&self) -> u32 {
        self.right_or_count
    }

    #[verifier::when_used_as_spec(spec_count)]
    pub fn count(&self) -> (r: u32)
        ensures
            r == self.spec_count(),
    {
        self.right_or_count
    }
}

} // verus!
