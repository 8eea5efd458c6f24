//! The expression-tree vocabulary: one closed sum type whose variants are the
//! supported operations, each owning its complete sub-trees.
//!
//! Numeric parameters are fixed-point `i64` values counting millionths of a
//! unit (`MICRO` per unit), so the whole tree is exact, machine-independent
//! data; turning a parameter into a floating-point number is left to the
//! unverified consumers of the tree.

use vstd::prelude::*;

verus! {

/// Fixed-point scale: one unit is this many micro-units.
pub const MICRO: i64 = 1_000_000;

/// One node of the expression tree.  Every child is itself a complete tree;
/// the zero-arity variants are the only possible leaves.
#[derive(Debug, PartialEq)]
pub enum Operation {
    /// Elementwise sum of the two children.
    Sum(Box<Operation>, Box<Operation>),
    /// Elementwise product of the two children.
    Product(Box<Operation>, Box<Operation>),
    /// Elementwise Euclidean remainder of the first child by the second.
    Mod(Box<Operation>, Box<Operation>),
    /// A constant broadcast to all three channels, in micro-units.
    Constant(i64),
    /// The x coordinate broadcast to all three channels.
    VarX,
    /// The y coordinate broadcast to all three channels.
    VarY,
    /// The time coordinate broadcast to all three channels.
    VarT,
    /// Euclidean distance from (x, y) to a fixed center, broadcast to all
    /// three channels; the center coordinates are in micro-units.
    Circle(i64, i64),
    /// Elementwise sine of the child.
    Sine(Box<Operation>),
    /// Elementwise negation of the child (zero minus the child).
    Inverse(Box<Operation>),
    /// Per-channel mask: channels of the first child are compared against the
    /// threshold (micro-units, strict `>`), choosing per channel between the
    /// second and the third child.
    PerChannelMask(Box<Operation>, Box<Operation>, Box<Operation>, i64),
    /// Whole-vector mask: the first child's Euclidean length is compared
    /// against the threshold (micro-units, strict `>`), choosing the whole
    /// second or third child.
    BinaryMask(Box<Operation>, Box<Operation>, Box<Operation>, i64),
    /// Linear blend of the second and third child, weighted by the first
    /// child's Euclidean length; weights outside [0, 1] extrapolate.
    SmoothMix(Box<Operation>, Box<Operation>, Box<Operation>),
    /// The "well" shaping function, `(1 - 2/(1 + v*v))^8`, per channel.
    Well(Box<Operation>),
    /// The "tent" shaping function, `1 - 2*|v|`, per channel.
    Tent(Box<Operation>),
    /// Channel recombination: x channel of the first child, y of the second,
    /// z of the third.
    RGB(Box<Operation>, Box<Operation>, Box<Operation>),
}

/// The larger of two naturals.
pub open spec fn nat_max(a: nat, b: nat) -> nat {
    if a >= b {
        a
    } else {
        b
    }
}

/// The children of a node, in argument order.
pub open spec fn children(op: Operation) -> Seq<Operation>
    decreases op,
{
    match op {
        Operation::Sum(a, b) => seq![*a, *b],
        Operation::Product(a, b) => seq![*a, *b],
        Operation::Mod(a, b) => seq![*a, *b],
        Operation::Constant(_) => seq![],
        Operation::VarX => seq![],
        Operation::VarY => seq![],
        Operation::VarT => seq![],
        Operation::Circle(_, _) => seq![],
        Operation::Sine(a) => seq![*a],
        Operation::Inverse(a) => seq![*a],
        Operation::PerChannelMask(m, a, b, _) => seq![*m, *a, *b],
        Operation::BinaryMask(m, a, b, _) => seq![*m, *a, *b],
        Operation::SmoothMix(w, a, b) => seq![*w, *a, *b],
        Operation::Well(a) => seq![*a],
        Operation::Tent(a) => seq![*a],
        Operation::RGB(r, g, b) => seq![*r, *g, *b],
    }
}

/// The declared number of child slots of a node's variant.
pub open spec fn spec_arity(op: Operation) -> nat {
    match op {
        Operation::Sum(_, _) => 2,
        Operation::Product(_, _) => 2,
        Operation::Mod(_, _) => 2,
        Operation::Constant(_) => 0,
        Operation::VarX => 0,
        Operation::VarY => 0,
        Operation::VarT => 0,
        Operation::Circle(_, _) => 0,
        Operation::Sine(_) => 1,
        Operation::Inverse(_) => 1,
        Operation::PerChannelMask(_, _, _, _) => 3,
        Operation::BinaryMask(_, _, _, _) => 3,
        Operation::SmoothMix(_, _, _) => 3,
        Operation::Well(_) => 1,
        Operation::Tent(_) => 1,
        Operation::RGB(_, _, _) => 3,
    }
}

/// A terminal node: one with no child slots.
pub open spec fn is_terminal(op: Operation) -> bool {
    spec_arity(op) == 0
}

/// The number of edges on the longest path from this node down to a leaf.
pub open spec fn depth_of(op: Operation) -> nat
    decreases op,
{
    match op {
        Operation::Sum(a, b) => 1 + nat_max(depth_of(*a), depth_of(*b)),
        Operation::Product(a, b) => 1 + nat_max(depth_of(*a), depth_of(*b)),
        Operation::Mod(a, b) => 1 + nat_max(depth_of(*a), depth_of(*b)),
        Operation::Constant(_) => 0,
        Operation::VarX => 0,
        Operation::VarY => 0,
        Operation::VarT => 0,
        Operation::Circle(_, _) => 0,
        Operation::Sine(a) => 1 + depth_of(*a),
        Operation::Inverse(a) => 1 + depth_of(*a),
        Operation::PerChannelMask(m, a, b, _) => 1 + nat_max(
            depth_of(*m),
            nat_max(depth_of(*a), depth_of(*b)),
        ),
        Operation::BinaryMask(m, a, b, _) => 1 + nat_max(
            depth_of(*m),
            nat_max(depth_of(*a), depth_of(*b)),
        ),
        Operation::SmoothMix(w, a, b) => 1 + nat_max(
            depth_of(*w),
            nat_max(depth_of(*a), depth_of(*b)),
        ),
        Operation::Well(a) => 1 + depth_of(*a),
        Operation::Tent(a) => 1 + depth_of(*a),
        Operation::RGB(r, g, b) => 1 + nat_max(depth_of(*r), nat_max(depth_of(*g), depth_of(*b))),
    }
}

/// Every numeric parameter of the tree lies in the unit range: between
/// minus one and one, in micro-units.  The grammars only draw such values.
pub open spec fn coeffs_bounded(op: Operation) -> bool
    decreases op,
{
    match op {
        Operation::Sum(a, b) => coeffs_bounded(*a) && coeffs_bounded(*b),
        Operation::Product(a, b) => coeffs_bounded(*a) && coeffs_bounded(*b),
        Operation::Mod(a, b) => coeffs_bounded(*a) && coeffs_bounded(*b),
        Operation::Constant(v) => -1_000_000 <= v <= 1_000_000,
        Operation::VarX => true,
        Operation::VarY => true,
        Operation::VarT => true,
        Operation::Circle(cx, cy) => -1_000_000 <= cx <= 1_000_000 && -1_000_000 <= cy
            <= 1_000_000,
        Operation::Sine(a) => coeffs_bounded(*a),
        Operation::Inverse(a) => coeffs_bounded(*a),
        Operation::PerChannelMask(m, a, b, thr) => -1_000_000 <= thr <= 1_000_000
            && coeffs_bounded(*m) && coeffs_bounded(*a) && coeffs_bounded(*b),
        Operation::BinaryMask(m, a, b, thr) => -1_000_000 <= thr <= 1_000_000 && coeffs_bounded(*m)
            && coeffs_bounded(*a) && coeffs_bounded(*b),
        Operation::SmoothMix(w, a, b) => coeffs_bounded(*w) && coeffs_bounded(*a) && coeffs_bounded(
            *b,
        ),
        Operation::Well(a) => coeffs_bounded(*a),
        Operation::Tent(a) => coeffs_bounded(*a),
        Operation::RGB(r, g, b) => coeffs_bounded(*r) && coeffs_bounded(*g) && coeffs_bounded(*b),
    }
}

impl Operation {
    /// The number of child slots of this node's variant.
    pub fn arity(&self) -> (n: usize)
        ensures
            n == spec_arity(*self),
    {
        match self {
            Operation::Sum(_, _) => 2,
            Operation::Product(_, _) => 2,
            Operation::Mod(_, _) => 2,
            Operation::Constant(_) => 0,
            Operation::VarX => 0,
            Operation::VarY => 0,
            Operation::VarT => 0,
            Operation::Circle(_, _) => 0,
            Operation::Sine(_) => 1,
            Operation::Inverse(_) => 1,
            Operation::PerChannelMask(_, _, _, _) => 3,
            Operation::BinaryMask(_, _, _, _) => 3,
            Operation::SmoothMix(_, _, _) => 3,
            Operation::Well(_) => 1,
            Operation::Tent(_) => 1,
            Operation::RGB(_, _, _) => 3,
        }
    }
}

/// Every variant fills exactly as many children as it declares slots: the
/// tree can hold no partially built node.
pub proof fn lemma_arity_matches_children(op: Operation)
    ensures
        children(op).len() == spec_arity(op),
{
}

/// A node is terminal exactly when it contributes no further depth.
pub proof fn lemma_terminal_depth(op: Operation)
    ensures
        is_terminal(op) <==> depth_of(op) == 0,
{
}

} // verus!
