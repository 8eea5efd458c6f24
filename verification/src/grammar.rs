//! Stochastic tree builders.
//!
//! A grammar owns a seeded generator and, per call, produces a well-formed
//! expression tree of bounded depth.  Each grammar's contract pins the tree
//! down as a pure function of the generator's abstract state, which is what
//! makes regeneration from a seed deterministic.

use vstd::prelude::*;
use vstd::pervasive::unreached;
use crate::operations::Operation;
use crate::operations::coeffs_bounded;
use crate::operations::depth_of;
use crate::operations::is_terminal;
use crate::rng::rng_below;
use crate::rng::rng_from_seed;
use crate::rng::rng_stream;
use crate::rng::seeded_stream;
use crate::rng::stream_draw;
use crate::rng::stream_next;

verus! {

/// A grammar builds one random tree per call, reproducibly: the tree is a
/// pure function (`tree_model`) of the grammar's state before the call.
pub trait ArtGrammar: Sized {
    /// The grammar's configuration invariant.
    spec fn wf(&self) -> bool;

    /// The tree this grammar, in its current state, will build for `depth`.
    spec fn tree_model(&self, depth: nat) -> Operation;

    /// An upper bound on the depth of the built tree.
    spec fn depth_cap(&self, depth: nat) -> nat;

    /// How one build call steps the grammar's state.
    spec fn stepped(&self, depth: nat, post: &Self) -> bool;

    /// Build a random expression tree whose depth is bounded by `depth`
    /// (plus the grammar's fixed root wrapping, if it has one).
    fn generate_tree(&mut self, depth: usize) -> (t: Operation)
        requires
            old(self).wf(),
        ensures
            final(self).wf(),
            t == old(self).tree_model(depth as nat),
            depth_of(t) <= old(self).depth_cap(depth as nat),
            coeffs_bounded(t),
            old(self).stepped(depth as nat, final(self)),
    ;
}

/// A configuration fault of a grammar, reported instead of a tree.
#[derive(Clone, Copy, Debug, PartialEq, Eq, Structural)]
pub enum GrammarError {
    /// The leaf catalog holds no candidate.
    EmptyLeafCatalog,
    /// The operator catalog holds no candidate.
    EmptyOperatorCatalog,
    /// A constant was asked of an empty constant pool.
    EmptyConstantPool,
}

/// Sum of all weights.
pub open spec fn weight_total(w: Seq<u64>) -> int
    decreases w.len(),
{
    if w.len() == 0 {
        0
    } else {
        w[0] + weight_total(w.drop_first())
    }
}

/// Sum of the first `i` weights.
pub open spec fn weight_prefix(w: Seq<u64>, i: int) -> int
    decreases i,
{
    if i <= 0 {
        0
    } else {
        weight_prefix(w, i - 1) + w[i - 1]
    }
}

/// The index a weighted selection picks for a given draw: the first candidate
/// whose cumulative weight exceeds the draw, falling back to the last
/// candidate when the draw exhausts the list.
pub open spec fn weighted_pick(w: Seq<u64>, d: int) -> int
    decreases w.len(),
{
    if w.len() <= 1 {
        0
    } else if d < w[0] {
        0
    } else {
        1 + weighted_pick(w.drop_first(), d - w[0])
    }
}

/// A weighted selection always lands inside the candidate list.
pub proof fn lemma_weighted_pick_in_range(w: Seq<u64>, d: int)
    requires
        w.len() > 0,
    ensures
        0 <= weighted_pick(w, d) < w.len(),
    decreases w.len(),
{
    if w.len() > 1 && d >= w[0] {
        lemma_weighted_pick_in_range(w.drop_first(), d - w[0]);
    }
}

proof fn lemma_prefix_drop(w: Seq<u64>, j: int)
    requires
        0 <= j < w.len(),
    ensures
        weight_prefix(w, j + 1) == w[0] + weight_prefix(w.drop_first(), j),
    decreases j,
{
    if j > 0 {
        lemma_prefix_drop(w, j - 1);
        assert(w.drop_first()[j - 1] == w[j]);
        assert(weight_prefix(w, j + 1) == weight_prefix(w, j) + w[j]);
        assert(weight_prefix(w.drop_first(), j) == weight_prefix(w.drop_first(), j - 1)
            + w.drop_first()[j - 1]);
    } else {
        assert(weight_prefix(w, 1) == weight_prefix(w, 0) + w[0]);
        assert(weight_prefix(w.drop_first(), 0) == 0);
    }
}

proof fn lemma_pick_window(w: Seq<u64>, d: int)
    requires
        w.len() > 0,
        0 <= d < weight_total(w),
    ensures
        weight_prefix(w, weighted_pick(w, d)) <= d < weight_prefix(w, weighted_pick(w, d)) + w[
            weighted_pick(w, d)
        ],
    decreases w.len(),
{
    lemma_weighted_pick_in_range(w, d);
    if w.len() == 1 {
        assert(weight_total(w.drop_first()) == 0);
        assert(weight_prefix(w, 0) == 0);
    } else if d < w[0] {
        assert(weight_prefix(w, 0) == 0);
    } else {
        let w1 = w.drop_first();
        assert(weight_total(w) == w[0] + weight_total(w1));
        assert(weighted_pick(w, d) == 1 + weighted_pick(w1, d - w[0]));
        lemma_weighted_pick_in_range(w1, d - w[0]);
        lemma_pick_window(w1, d - w[0]);
        lemma_prefix_drop(w, weighted_pick(w1, d - w[0]));
        assert(w[1 + weighted_pick(w1, d - w[0])] == w1[weighted_pick(w1, d - w[0])]);
    }
}

proof fn lemma_window_pick(w: Seq<u64>, k: int, d: int)
    requires
        0 <= k < w.len(),
        weight_prefix(w, k) <= d < weight_prefix(w, k) + w[k],
    ensures
        weighted_pick(w, d) == k,
    decreases w.len(),
{
    if k == 0 {
        if w.len() > 1 {
            assert(d < w[0]);
        }
    } else {
        lemma_prefix_drop(w, k - 1);
        assert(d >= w[0]) by {
            lemma_prefix_nonneg(w.drop_first(), k - 1);
        }
        lemma_window_pick(w.drop_first(), k - 1, d - w[0]);
    }
}

proof fn lemma_prefix_nonneg(w: Seq<u64>, i: int)
    ensures
        weight_prefix(w, i) >= 0,
    decreases i,
{
    if i > 0 {
        lemma_prefix_nonneg(w, i - 1);
    }
}

/// Weighted-choice law: over the `weight_total(w)` equally likely draws, a
/// candidate is selected exactly for the draws inside its cumulative-weight
/// window, so each candidate's selection count is exactly its weight.
pub proof fn lemma_weighted_choice_frequency(w: Seq<u64>, d: int, k: int)
    requires
        w.len() > 0,
        0 <= d < weight_total(w),
        0 <= k < w.len(),
    ensures
        weighted_pick(w, d) == k <==> (weight_prefix(w, k) <= d < weight_prefix(w, k) + w[k]),
{
    lemma_pick_window(w, d);
    if weight_prefix(w, k) <= d < weight_prefix(w, k) + w[k] {
        lemma_window_pick(w, k, d);
    }
}

/// Weighted selection by linear scan of cumulative weights, resolved purely
/// from a pre-drawn value; empty candidate lists are reported, not sampled.
pub fn weighted_index(weights: &Vec<u64>, draw: u64) -> (r: Result<usize, GrammarError>)
    ensures
        weights@.len() == 0 ==> r == Err::<usize, GrammarError>(GrammarError::EmptyOperatorCatalog),
        weights@.len() > 0 ==> r == Ok::<usize, GrammarError>(
            weighted_pick(weights@, draw as int) as usize,
        ),
{
    if weights.len() == 0 {
        return Err(GrammarError::EmptyOperatorCatalog);
    }
    proof {
        lemma_weighted_pick_in_range(weights@, draw as int);
    }
    let mut i: usize = 0;
    let mut rem: u64 = draw;
    proof {
        assert(weights@.skip(0) =~= weights@);
    }
    while i < weights.len() - 1
        invariant
            weights@.len() > 0,
            0 <= i < weights@.len(),
            weighted_pick(weights@, draw as int) == i + weighted_pick(
                weights@.skip(i as int),
                rem as int,
            ),
        decreases weights@.len() - i,
    {
        if rem < weights[i] {
            proof {
                assert(weights@.skip(i as int).len() > 1);
                assert(weights@.skip(i as int)[0] == weights@[i as int]);
            }
            return Ok(i);
        }
        proof {
            assert(weights@.skip(i as int)[0] == weights@[i as int]);
            assert(weights@.skip(i as int).drop_first() =~= weights@.skip(i as int + 1));
        }
        rem = rem - weights[i];
        i = i + 1;
    }
    proof {
        assert(weights@.skip(i as int).len() == 1);
    }
    Ok(i)
}

/// How many distinct fixed-point values a coefficient draw chooses from:
/// the integers of [-MICRO, MICRO], standing for [-1, 1].
pub const COEFF_CHOICES: u64 = 2 * 1_000_000 + 1;

/// How many constants the uniform-catalog grammar pre-samples.
pub const POOL_SIZE: usize = 8;

/// The coefficient a draw yields: a micro-unit value of [-1, 1].
pub open spec fn coeff_draw(st: Seq<u64>) -> i64 {
    (stream_draw(st, COEFF_CHOICES) - 1_000_000) as i64
}

/// The generator state after a coefficient draw.
pub open spec fn coeff_next(st: Seq<u64>) -> Seq<u64> {
    stream_next(st, COEFF_CHOICES)
}

/// One coefficient draw, uniform over the micro-unit values of [-1, 1].
fn draw_coeff(r: &mut rand::rngs::StdRng) -> (c: i64)
    ensures
        c == coeff_draw(rng_stream(*old(r))),
        rng_stream(*final(r)) == coeff_next(rng_stream(*old(r))),
        -1_000_000 <= c <= 1_000_000,
{
    let d = rng_below(r, COEFF_CHOICES);
    (d as i64) - 1_000_000
}

/// The pool of `n` constants pre-sampled from a generator state, with the
/// state left behind.
pub open spec fn presampled_pool(st: Seq<u64>, n: nat) -> (Seq<i64>, Seq<u64>)
    decreases n,
{
    if n == 0 {
        (Seq::<i64>::empty(), st)
    } else {
        let prev = presampled_pool(st, (n - 1) as nat);
        (prev.0.push(coeff_draw(prev.1)), coeff_next(prev.1))
    }
}

fn sample_pool(r: &mut rand::rngs::StdRng, n: usize) -> (p: Vec<i64>)
    ensures
        p@ == presampled_pool(rng_stream(*old(r)), n as nat).0,
        rng_stream(*final(r)) == presampled_pool(rng_stream(*old(r)), n as nat).1,
        forall|k: int| 0 <= k < p@.len() ==> -1_000_000 <= #[trigger] p@[k] <= 1_000_000,
{
    let ghost st0 = rng_stream(*r);
    let mut p: Vec<i64> = Vec::new();
    let mut i: usize = 0;
    proof {
        assert(p@ =~= presampled_pool(st0, 0).0);
    }
    while i < n
        invariant
            i <= n,
            p@ == presampled_pool(st0, i as nat).0,
            rng_stream(*r) == presampled_pool(st0, i as nat).1,
            forall|k: int| 0 <= k < p@.len() ==> -1_000_000 <= #[trigger] p@[k] <= 1_000_000,
        decreases n - i,
    {
        let c = draw_coeff(r);
        p.push(c);
        i = i + 1;
    }
    p
}

/// A terminal candidate of the uniform-catalog grammar.
#[derive(Clone, Copy, Debug, PartialEq, Eq, Structural)]
pub enum LeafKind {
    VarX,
    VarY,
    VarT,
    Constant,
    Circle,
}

/// A non-terminal candidate of the uniform-catalog grammar.
#[derive(Clone, Copy, Debug, PartialEq, Eq, Structural)]
pub enum OpKind {
    Sum,
    Sine,
    PerChannelMask,
    BinaryMask,
    SmoothMix,
    Well,
    Tent,
    Product,
    Inverse,
    Mod,
}

/// The full leaf catalog.
pub open spec fn default_leaf_catalog() -> Seq<LeafKind> {
    seq![LeafKind::VarX, LeafKind::VarY, LeafKind::VarT, LeafKind::Constant, LeafKind::Circle]
}

/// The full operator catalog.
pub open spec fn default_op_catalog() -> Seq<OpKind> {
    seq![
        OpKind::Sum,
        OpKind::Sine,
        OpKind::PerChannelMask,
        OpKind::BinaryMask,
        OpKind::SmoothMix,
        OpKind::Well,
        OpKind::Tent,
        OpKind::Product,
        OpKind::Inverse,
        OpKind::Mod,
    ]
}

fn build_default_leaves() -> (v: Vec<LeafKind>)
    ensures
        v@ == default_leaf_catalog(),
{
    let mut v: Vec<LeafKind> = Vec::new();
    v.push(LeafKind::VarX);
    v.push(LeafKind::VarY);
    v.push(LeafKind::VarT);
    v.push(LeafKind::Constant);
    v.push(LeafKind::Circle);
    proof {
        assert(v@ =~= default_leaf_catalog());
    }
    v
}

fn build_default_ops() -> (v: Vec<OpKind>)
    ensures
        v@ == default_op_catalog(),
{
    let mut v: Vec<OpKind> = Vec::new();
    v.push(OpKind::Sum);
    v.push(OpKind::Sine);
    v.push(OpKind::PerChannelMask);
    v.push(OpKind::BinaryMask);
    v.push(OpKind::SmoothMix);
    v.push(OpKind::Well);
    v.push(OpKind::Tent);
    v.push(OpKind::Product);
    v.push(OpKind::Inverse);
    v.push(OpKind::Mod);
    proof {
        assert(v@ =~= default_op_catalog());
    }
    v
}

/// The leaf the uniform-catalog grammar builds from a generator state, with
/// the state left behind.
pub open spec fn ra_leaf(leaves: Seq<LeafKind>, pool: Seq<i64>, st: Seq<u64>) -> (
    Operation,
    Seq<u64>,
) {
    let k = stream_draw(st, leaves.len() as u64);
    let st1 = stream_next(st, leaves.len() as u64);
    match leaves[k as int] {
        LeafKind::VarX => (Operation::VarX, st1),
        LeafKind::VarY => (Operation::VarY, st1),
        LeafKind::VarT => (Operation::VarT, st1),
        LeafKind::Constant => {
            let j = stream_draw(st1, pool.len() as u64);
            (Operation::Constant(pool[j as int]), stream_next(st1, pool.len() as u64))
        },
        LeafKind::Circle => {
            let cx = coeff_draw(st1);
            let st2 = coeff_next(st1);
            (Operation::Circle(cx, coeff_draw(st2)), coeff_next(st2))
        },
    }
}

/// The tree the uniform-catalog grammar builds from a generator state, with
/// the state left behind: at depth zero a leaf, above that an operator node
/// whose children are built at the next smaller depth.
pub open spec fn ra_build(
    leaves: Seq<LeafKind>,
    ops: Seq<OpKind>,
    pool: Seq<i64>,
    st: Seq<u64>,
    depth: nat,
) -> (Operation, Seq<u64>)
    decreases depth,
{
    if depth == 0 {
        ra_leaf(leaves, pool, st)
    } else {
        let k = stream_draw(st, ops.len() as u64);
        let st1 = stream_next(st, ops.len() as u64);
        let d = (depth - 1) as nat;
        match ops[k as int] {
            OpKind::Sum => {
                let a = ra_build(leaves, ops, pool, st1, d);
                let b = ra_build(leaves, ops, pool, a.1, d);
                (Operation::Sum(Box::new(a.0), Box::new(b.0)), b.1)
            },
            OpKind::Sine => {
                let a = ra_build(leaves, ops, pool, st1, d);
                (Operation::Sine(Box::new(a.0)), a.1)
            },
            OpKind::PerChannelMask => {
                let m = ra_build(leaves, ops, pool, st1, d);
                let a = ra_build(leaves, ops, pool, m.1, d);
                let b = ra_build(leaves, ops, pool, a.1, d);
                (
                    Operation::PerChannelMask(
                        Box::new(m.0),
                        Box::new(a.0),
                        Box::new(b.0),
                        coeff_draw(b.1),
                    ),
                    coeff_next(b.1),
                )
            },
            OpKind::BinaryMask => {
                let m = ra_build(leaves, ops, pool, st1, d);
                let a = ra_build(leaves, ops, pool, m.1, d);
                let b = ra_build(leaves, ops, pool, a.1, d);
                (
                    Operation::BinaryMask(
                        Box::new(m.0),
                        Box::new(a.0),
                        Box::new(b.0),
                        coeff_draw(b.1),
                    ),
                    coeff_next(b.1),
                )
            },
            OpKind::SmoothMix => {
                let w = ra_build(leaves, ops, pool, st1, d);
                let a = ra_build(leaves, ops, pool, w.1, d);
                let b = ra_build(leaves, ops, pool, a.1, d);
                (Operation::SmoothMix(Box::new(w.0), Box::new(a.0), Box::new(b.0)), b.1)
            },
            OpKind::Well => {
                let a = ra_build(leaves, ops, pool, st1, d);
                (Operation::Well(Box::new(a.0)), a.1)
            },
            OpKind::Tent => {
                let a = ra_build(leaves, ops, pool, st1, d);
                (Operation::Tent(Box::new(a.0)), a.1)
            },
            OpKind::Product => {
                let a = ra_build(leaves, ops, pool, st1, d);
                let b = ra_build(leaves, ops, pool, a.1, d);
                (Operation::Product(Box::new(a.0), Box::new(b.0)), b.1)
            },
            OpKind::Inverse => {
                let a = ra_build(leaves, ops, pool, st1, d);
                (Operation::Inverse(Box::new(a.0)), a.1)
            },
            OpKind::Mod => {
                let a = ra_build(leaves, ops, pool, st1, d);
                let b = ra_build(leaves, ops, pool, a.1, d);
                (Operation::Mod(Box::new(a.0), Box::new(b.0)), b.1)
            },
        }
    }
}

/// Depth bound of the uniform-catalog grammar: a build at `depth` never
/// exceeds `depth`, and a build at zero is a terminal.
pub proof fn lemma_ra_build_depth(
    leaves: Seq<LeafKind>,
    ops: Seq<OpKind>,
    pool: Seq<i64>,
    st: Seq<u64>,
    depth: nat,
)
    ensures
        depth_of(ra_build(leaves, ops, pool, st, depth).0) <= depth,
        depth == 0 ==> is_terminal(ra_build(leaves, ops, pool, st, depth).0),
    decreases depth,
{
    if depth > 0 {
        let k = stream_draw(st, ops.len() as u64);
        let st1 = stream_next(st, ops.len() as u64);
        let d = (depth - 1) as nat;
        match ops[k as int] {
            OpKind::Sum | OpKind::Product | OpKind::Mod => {
                let a = ra_build(leaves, ops, pool, st1, d);
                lemma_ra_build_depth(leaves, ops, pool, st1, d);
                lemma_ra_build_depth(leaves, ops, pool, a.1, d);
            },
            OpKind::Sine | OpKind::Well | OpKind::Tent | OpKind::Inverse => {
                lemma_ra_build_depth(leaves, ops, pool, st1, d);
            },
            OpKind::PerChannelMask | OpKind::BinaryMask | OpKind::SmoothMix => {
                let m = ra_build(leaves, ops, pool, st1, d);
                let a = ra_build(leaves, ops, pool, m.1, d);
                lemma_ra_build_depth(leaves, ops, pool, st1, d);
                lemma_ra_build_depth(leaves, ops, pool, m.1, d);
                lemma_ra_build_depth(leaves, ops, pool, a.1, d);
            },
        }
    }
}

/// Draw one constant from the pre-sampled pool; an empty pool is reported,
/// and leaves the generator untouched.
pub fn pool_pick(pool: &Vec<i64>, r: &mut rand::rngs::StdRng) -> (c: Result<i64, GrammarError>)
    ensures
        pool@.len() == 0 ==> c == Err::<i64, GrammarError>(GrammarError::EmptyConstantPool)
            && rng_stream(*final(r)) == rng_stream(*old(r)),
        pool@.len() > 0 ==> c == Ok::<i64, GrammarError>(
            pool@[stream_draw(rng_stream(*old(r)), pool@.len() as u64) as int],
        ) && rng_stream(*final(r)) == stream_next(rng_stream(*old(r)), pool@.len() as u64)
            && stream_draw(rng_stream(*old(r)), pool@.len() as u64) < pool@.len(),
{
    if pool.len() == 0 {
        return Err(GrammarError::EmptyConstantPool);
    }
    let j = rng_below(r, pool.len() as u64) as usize;
    Ok(pool[j])
}

/// The grammar with one flat catalog: every candidate operator and every
/// candidate leaf is equally likely, and constant leaves are drawn from a
/// small pool pre-sampled at construction.
pub struct RandomArtGrammar {
    rng: rand::rngs::StdRng,
    leaves: Vec<LeafKind>,
    ops: Vec<OpKind>,
    pool: Vec<i64>,
}

impl RandomArtGrammar {
    /// The leaf catalog.
    pub closed spec fn spec_leaves(&self) -> Seq<LeafKind> {
        self.leaves@
    }

    /// The operator catalog.
    pub closed spec fn spec_ops(&self) -> Seq<OpKind> {
        self.ops@
    }

    /// The pre-sampled constant pool.
    pub closed spec fn spec_pool(&self) -> Seq<i64> {
        self.pool@
    }

    /// The generator's abstract state.
    pub closed spec fn spec_state(&self) -> Seq<u64> {
        rng_stream(self.rng)
    }

    /// A grammar over the given catalogs; empty catalogs are reported.
    pub fn with_catalogs(seed: u64, leaves: Vec<LeafKind>, ops: Vec<OpKind>) -> (r: Result<
        Self,
        GrammarError,
    >)
        ensures
            leaves@.len() == 0 ==> r == Err::<Self, GrammarError>(GrammarError::EmptyLeafCatalog),
            leaves@.len() > 0 && ops@.len() == 0 ==> r == Err::<Self, GrammarError>(
                GrammarError::EmptyOperatorCatalog,
            ),
            leaves@.len() > 0 && ops@.len() > 0 ==> (r matches Ok(g) && g.wf() && g.spec_leaves()
                == leaves@ && g.spec_ops() == ops@ && g.spec_pool() == presampled_pool(
                seeded_stream(seed),
                POOL_SIZE as nat,
            ).0 && g.spec_state() == presampled_pool(seeded_stream(seed), POOL_SIZE as nat).1),
    {
        if leaves.len() == 0 {
            return Err(GrammarError::EmptyLeafCatalog);
        }
        if ops.len() == 0 {
            return Err(GrammarError::EmptyOperatorCatalog);
        }
        let mut rng = rng_from_seed(seed);
        let pool = sample_pool(&mut rng, POOL_SIZE);
        Ok(RandomArtGrammar { rng, leaves, ops, pool })
    }

    /// A grammar over the full catalogs, seeded.
    pub fn new(seed: u64) -> (g: Self)
        ensures
            g.wf(),
            g.spec_leaves() == default_leaf_catalog(),
            g.spec_ops() == default_op_catalog(),
            g.spec_pool() == presampled_pool(seeded_stream(seed), POOL_SIZE as nat).0,
            g.spec_state() == presampled_pool(seeded_stream(seed), POOL_SIZE as nat).1,
    {
        match Self::with_catalogs(seed, build_default_leaves(), build_default_ops()) {
            Ok(g) => g,
            Err(_) => unreached(),
        }
    }

    fn rand_leaf(&mut self) -> (t: Operation)
        requires
            old(self).wf(),
        ensures
            final(self).wf(),
            final(self).spec_leaves() == old(self).spec_leaves(),
            final(self).spec_ops() == old(self).spec_ops(),
            final(self).spec_pool() == old(self).spec_pool(),
            coeffs_bounded(t),
            t == ra_leaf(old(self).spec_leaves(), old(self).spec_pool(), old(self).spec_state()).0,
            final(self).spec_state() == ra_leaf(
                old(self).spec_leaves(),
                old(self).spec_pool(),
                old(self).spec_state(),
            ).1,
    {
        let n = self.leaves.len();
        let k = rng_below(&mut self.rng, n as u64) as usize;
        match self.leaves[k] {
            LeafKind::VarX => Operation::VarX,
            LeafKind::VarY => Operation::VarY,
            LeafKind::VarT => Operation::VarT,
            LeafKind::Constant => {
                match pool_pick(&self.pool, &mut self.rng) {
                    Ok(c) => Operation::Constant(c),
                    Err(_) => unreached(),
                }
            },
            LeafKind::Circle => {
                let cx = draw_coeff(&mut self.rng);
                let cy = draw_coeff(&mut self.rng);
                Operation::Circle(cx, cy)
            },
        }
    }

    fn build(&mut self, depth: usize) -> (t: Operation)
        requires
            old(self).wf(),
        ensures
            final(self).wf(),
            final(self).spec_leaves() == old(self).spec_leaves(),
            final(self).spec_ops() == old(self).spec_ops(),
            final(self).spec_pool() == old(self).spec_pool(),
            coeffs_bounded(t),
            t == ra_build(
                old(self).spec_leaves(),
                old(self).spec_ops(),
                old(self).spec_pool(),
                old(self).spec_state(),
                depth as nat,
            ).0,
            final(self).spec_state() == ra_build(
                old(self).spec_leaves(),
                old(self).spec_ops(),
                old(self).spec_pool(),
                old(self).spec_state(),
                depth as nat,
            ).1,
        decreases depth,
    {
        if depth == 0 {
            self.rand_leaf()
        } else {
            let n = self.ops.len();
            let k = rng_below(&mut self.rng, n as u64) as usize;
            match self.ops[k] {
                OpKind::Sum => {
                    let a = self.build(depth - 1);
                    let b = self.build(depth - 1);
                    Operation::Sum(Box::new(a), Box::new(b))
                },
                OpKind::Sine => {
                    let a = self.build(depth - 1);
                    Operation::Sine(Box::new(a))
                },
                OpKind::PerChannelMask => {
                    let m = self.build(depth - 1);
                    let a = self.build(depth - 1);
                    let b = self.build(depth - 1);
                    let thr = draw_coeff(&mut self.rng);
                    Operation::PerChannelMask(Box::new(m), Box::new(a), Box::new(b), thr)
                },
                OpKind::BinaryMask => {
                    let m = self.build(depth - 1);
                    let a = self.build(depth - 1);
                    let b = self.build(depth - 1);
                    let thr = draw_coeff(&mut self.rng);
                    Operation::BinaryMask(Box::new(m), Box::new(a), Box::new(b), thr)
                },
                OpKind::SmoothMix => {
                    let w = self.build(depth - 1);
                    let a = self.build(depth - 1);
                    let b = self.build(depth - 1);
                    Operation::SmoothMix(Box::new(w), Box::new(a), Box::new(b))
                },
                OpKind::Well => {
                    let a = self.build(depth - 1);
                    Operation::Well(Box::new(a))
                },
                OpKind::Tent => {
                    let a = self.build(depth - 1);
                    Operation::Tent(Box::new(a))
                },
                OpKind::Product => {
                    let a = self.build(depth - 1);
                    let b = self.build(depth - 1);
                    Operation::Product(Box::new(a), Box::new(b))
                },
                OpKind::Inverse => {
                    let a = self.build(depth - 1);
                    Operation::Inverse(Box::new(a))
                },
                OpKind::Mod => {
                    let a = self.build(depth - 1);
                    let b = self.build(depth - 1);
                    Operation::Mod(Box::new(a), Box::new(b))
                },
            }
        }
    }
}

impl ArtGrammar for RandomArtGrammar {
    /// Both catalogs and the pool hold at least one candidate, and the pool
    /// holds only unit-range coefficients.
    closed spec fn wf(&self) -> bool {
        &&& self.leaves@.len() > 0
        &&& self.ops@.len() > 0
        &&& self.pool@.len() > 0
        &&& forall|k: int|
            0 <= k < self.pool@.len() ==> -1_000_000 <= #[trigger] self.pool@[k] <= 1_000_000
    }

    closed spec fn tree_model(&self, depth: nat) -> Operation {
        ra_build(self.leaves@, self.ops@, self.pool@, rng_stream(self.rng), depth).0
    }

    open spec fn depth_cap(&self, depth: nat) -> nat {
        depth
    }

    closed spec fn stepped(&self, depth: nat, post: &Self) -> bool {
        &&& post.leaves@ == self.leaves@
        &&& post.ops@ == self.ops@
        &&& post.pool@ == self.pool@
        &&& rng_stream(post.rng) == ra_build(
            self.leaves@,
            self.ops@,
            self.pool@,
            rng_stream(self.rng),
            depth,
        ).1
    }

    fn generate_tree(&mut self, depth: usize) -> (t: Operation) {
        let t = self.build(depth);
        proof {
            lemma_ra_build_depth(
                old(self).spec_leaves(),
                old(self).spec_ops(),
                old(self).spec_pool(),
                old(self).spec_state(),
                depth as nat,
            );
        }
        t
    }
}

/// The terminal rule of the schema-constrained grammar: a fresh constant is
/// sampled, then one of constant, x, y, t is picked with equal weight.
pub open spec fn ps_leaf(st: Seq<u64>) -> (Operation, Seq<u64>) {
    let c = coeff_draw(st);
    let st1 = coeff_next(st);
    let d = stream_draw(st1, 4);
    let st2 = stream_next(st1, 4);
    let i = weighted_pick(seq![1u64, 1u64, 1u64, 1u64], d as int);
    (
        if i == 0 {
            Operation::Constant(c)
        } else if i == 1 {
            Operation::VarX
        } else if i == 2 {
            Operation::VarY
        } else {
            Operation::VarT
        },
        st2,
    )
}

/// The compound rule of the schema-constrained grammar: all three candidates
/// (a terminal, a sum of two compounds, a product of two compounds) are built
/// first, then one is kept, weighted 1 : 2 : 2.
pub open spec fn ps_compound(st: Seq<u64>, depth: nat) -> (Operation, Seq<u64>)
    decreases depth,
{
    if depth == 0 {
        ps_leaf(st)
    } else {
        let a = ps_leaf(st);
        let s1 = ps_compound(a.1, (depth - 1) as nat);
        let s2 = ps_compound(s1.1, (depth - 1) as nat);
        let p1 = ps_compound(s2.1, (depth - 1) as nat);
        let p2 = ps_compound(p1.1, (depth - 1) as nat);
        let d = stream_draw(p2.1, 5);
        let st_f = stream_next(p2.1, 5);
        let i = weighted_pick(seq![1u64, 2u64, 2u64], d as int);
        (
            if i == 0 {
                a.0
            } else if i == 1 {
                Operation::Sum(Box::new(s1.0), Box::new(s2.0))
            } else {
                Operation::Product(Box::new(p1.0), Box::new(p2.0))
            },
            st_f,
        )
    }
}

/// The whole tree of the schema-constrained grammar: always a channel
/// recombination of three independently built compounds.
pub open spec fn ps_tree(st: Seq<u64>, depth: nat) -> (Operation, Seq<u64>) {
    let r = ps_compound(st, depth);
    let g = ps_compound(r.1, depth);
    let b = ps_compound(g.1, depth);
    (Operation::RGB(Box::new(r.0), Box::new(g.0), Box::new(b.0)), b.1)
}

/// The terminal rule yields a terminal.
pub proof fn lemma_ps_leaf_terminal(st: Seq<u64>)
    ensures
        is_terminal(ps_leaf(st).0),
{
}

/// Depth bound of the compound rule: at most `depth`, a terminal at zero.
pub proof fn lemma_ps_compound_depth(st: Seq<u64>, depth: nat)
    ensures
        depth_of(ps_compound(st, depth).0) <= depth,
        depth == 0 ==> is_terminal(ps_compound(st, depth).0),
    decreases depth,
{
    if depth > 0 {
        let a = ps_leaf(st);
        let s1 = ps_compound(a.1, (depth - 1) as nat);
        let s2 = ps_compound(s1.1, (depth - 1) as nat);
        let p1 = ps_compound(s2.1, (depth - 1) as nat);
        lemma_ps_leaf_terminal(st);
        lemma_ps_compound_depth(a.1, (depth - 1) as nat);
        lemma_ps_compound_depth(s1.1, (depth - 1) as nat);
        lemma_ps_compound_depth(s2.1, (depth - 1) as nat);
        lemma_ps_compound_depth(p1.1, (depth - 1) as nat);
    }
}

/// Depth bound of the whole schema-constrained tree: the fixed recombination
/// root adds one level above the compound bound, and is always there.
pub proof fn lemma_ps_tree_depth(st: Seq<u64>, depth: nat)
    ensures
        depth_of(ps_tree(st, depth).0) <= depth + 1,
        ps_tree(st, depth).0 matches Operation::RGB(_, _, _),
{
    let r = ps_compound(st, depth);
    let g = ps_compound(r.1, depth);
    lemma_ps_compound_depth(st, depth);
    lemma_ps_compound_depth(r.1, depth);
    lemma_ps_compound_depth(g.1, depth);
}

/// The grammar after Perrig and Song's validated-art scheme: two mutually
/// recursive rules, and a tree whose root recombines three channels.
pub struct PerrigSongGrammar {
    rng: rand::rngs::StdRng,
}

impl PerrigSongGrammar {
    /// The generator's abstract state.
    pub closed spec fn spec_state(&self) -> Seq<u64> {
        rng_stream(self.rng)
    }

    /// A seeded grammar; its rules are fixed, so construction cannot fail.
    pub fn new(seed: u64) -> (g: Self)
        ensures
            g.wf(),
            g.spec_state() == seeded_stream(seed),
    {
        PerrigSongGrammar { rng: rng_from_seed(seed) }
    }

    fn generate_a(&mut self) -> (t: Operation)
        ensures
            coeffs_bounded(t),
            t == ps_leaf(old(self).spec_state()).0,
            final(self).spec_state() == ps_leaf(old(self).spec_state()).1,
    {
        let c = draw_coeff(&mut self.rng);
        let d = rng_below(&mut self.rng, 4);
        let mut w: Vec<u64> = Vec::new();
        w.push(1);
        w.push(1);
        w.push(1);
        w.push(1);
        proof {
            assert(w@ =~= seq![1u64, 1u64, 1u64, 1u64]);
            lemma_weighted_pick_in_range(w@, d as int);
        }
        let i = match weighted_index(&w, d) {
            Ok(i) => i,
            Err(_) => unreached(),
        };
        if i == 0 {
            Operation::Constant(c)
        } else if i == 1 {
            Operation::VarX
        } else if i == 2 {
            Operation::VarY
        } else {
            Operation::VarT
        }
    }

    fn generate_c(&mut self, depth: usize) -> (t: Operation)
        ensures
            coeffs_bounded(t),
            t == ps_compound(old(self).spec_state(), depth as nat).0,
            final(self).spec_state() == ps_compound(old(self).spec_state(), depth as nat).1,
        decreases depth,
    {
        if depth == 0 {
            self.generate_a()
        } else {
            let a = self.generate_a();
            let s1 = self.generate_c(depth - 1);
            let s2 = self.generate_c(depth - 1);
            let p1 = self.generate_c(depth - 1);
            let p2 = self.generate_c(depth - 1);
            let d = rng_below(&mut self.rng, 5);
            let mut w: Vec<u64> = Vec::new();
            w.push(1);
            w.push(2);
            w.push(2);
            proof {
                assert(w@ =~= seq![1u64, 2u64, 2u64]);
                lemma_weighted_pick_in_range(w@, d as int);
            }
            let i = match weighted_index(&w, d) {
                Ok(i) => i,
                Err(_) => unreached(),
            };
            if i == 0 {
                a
            } else if i == 1 {
                Operation::Sum(Box::new(s1), Box::new(s2))
            } else {
                Operation::Product(Box::new(p1), Box::new(p2))
            }
        }
    }
}

impl ArtGrammar for PerrigSongGrammar {
    /// The rule set is fixed and never empty.
    closed spec fn wf(&self) -> bool {
        true
    }

    closed spec fn tree_model(&self, depth: nat) -> Operation {
        ps_tree(rng_stream(self.rng), depth).0
    }

    open spec fn depth_cap(&self, depth: nat) -> nat {
        depth + 1
    }

    closed spec fn stepped(&self, depth: nat, post: &Self) -> bool {
        rng_stream(post.rng) == ps_tree(rng_stream(self.rng), depth).1
    }

    fn generate_tree(&mut self, depth: usize) -> (t: Operation) {
        let r = self.generate_c(depth);
        let g = self.generate_c(depth);
        let b = self.generate_c(depth);
        proof {
            lemma_ps_tree_depth(old(self).spec_state(), depth as nat);
        }
        Operation::RGB(Box::new(r), Box::new(g), Box::new(b))
    }
}

/// Determinism of the uniform-catalog grammar: two grammars with the same
/// catalogs, pool and generator state build the same tree and end in the
/// same state, so one seed reproduces one tree exactly.
pub proof fn lemma_random_art_deterministic(
    g1: RandomArtGrammar,
    g2: RandomArtGrammar,
    p1: RandomArtGrammar,
    p2: RandomArtGrammar,
    depth: nat,
)
    requires
        g1.spec_leaves() == g2.spec_leaves(),
        g1.spec_ops() == g2.spec_ops(),
        g1.spec_pool() == g2.spec_pool(),
        g1.spec_state() == g2.spec_state(),
        g1.stepped(depth, &p1),
        g2.stepped(depth, &p2),
    ensures
        g1.tree_model(depth) == g2.tree_model(depth),
        p1.spec_leaves() == p2.spec_leaves(),
        p1.spec_ops() == p2.spec_ops(),
        p1.spec_pool() == p2.spec_pool(),
        p1.spec_state() == p2.spec_state(),
{
}

/// Determinism of the schema-constrained grammar: two grammars with the same
/// generator state build the same tree and end in the same state.
pub proof fn lemma_perrig_song_deterministic(
    g1: PerrigSongGrammar,
    g2: PerrigSongGrammar,
    p1: PerrigSongGrammar,
    p2: PerrigSongGrammar,
    depth: nat,
)
    requires
        g1.spec_state() == g2.spec_state(),
        g1.stepped(depth, &p1),
        g2.stepped(depth, &p2),
    ensures
        g1.tree_model(depth) == g2.tree_model(depth),
        p1.spec_state() == p2.spec_state(),
{
}

/// At depth zero the uniform-catalog grammar builds a terminal.
pub proof fn lemma_random_art_zero_depth_terminal(g: RandomArtGrammar)
    ensures
        is_terminal(g.tree_model(0)),
{
    lemma_ra_build_depth(g.spec_leaves(), g.spec_ops(), g.spec_pool(), g.spec_state(), 0);
}

/// The schema-constrained grammar's tree always recombines three channels at
/// the root, whatever the depth.
pub proof fn lemma_perrig_song_root_recombines(g: PerrigSongGrammar, depth: nat)
    ensures
        g.tree_model(depth) matches Operation::RGB(_, _, _),
{
    lemma_ps_tree_depth(g.spec_state(), depth);
}

} // verus!
