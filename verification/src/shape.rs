//! The shape of the Merkle tree over a sector, derived from the sector's size.

use vstd::prelude::*;
use vstd::arithmetic::power2::pow2;
use vstd::arithmetic::power2::lemma2_to64;
use vstd::arithmetic::power2::lemma2_to64_rest;
use vstd::arithmetic::power2::lemma_pow2_adds;
use vstd::arithmetic::power2::lemma_pow2_strictly_increases;
use crate::binary_log::log2;
use crate::binary_log::is_power_of_two;
use crate::binary_log::floor_log2;
use crate::binary_log::power_of_two;
use crate::binary_log::lemma_power_of_two_is_pow2_of_log2;
use crate::binary_log::lemma_log2_below;
use crate::binary_log::lemma_log2_at_least_five;
use crate::binary_log::lemma_pow2_injective;
use crate::sizes::NODE_SIZE;

verus! {

/// The arities of the up to three levels of a sector's tree. An arity of 0
/// marks a level that is absent.
#[derive(Clone, Copy, Debug, PartialEq, Eq, Structural)]
pub struct TreeShape {
    pub base: usize,
    pub sub: usize,
    pub top: usize,
}

/// What a level of the given arity multiplies the capacity of a tree by:
/// an absent level counts as 1.
pub open spec fn level_factor(arity: usize) -> nat {
    if arity == 0 {
        1
    } else {
        arity as nat
    }
}

/// Whether `arity` is absent or one of 2, 4 and 8.
pub open spec fn is_level_arity(arity: usize) -> bool {
    arity == 0 || arity == 2 || arity == 4 || arity == 8
}

impl TreeShape {
    /// A shape has oct base trees; each upper level is absent or has an arity
    /// that is a power of two up to 8; a top level stands only on a sub level.
    pub open spec fn well_formed(&self) -> bool {
        &&& self.base == 8
        &&& is_level_arity(self.sub)
        &&& is_level_arity(self.top)
        &&& self.top != 0 ==> self.sub != 0
    }

    /// The product of the three arities, an absent level counting as 1.
    pub open spec fn arity_product(&self) -> nat {
        level_factor(self.base) * level_factor(self.sub) * level_factor(self.top)
    }

    /// The arities as a triple: base, sub-tree, top-tree.
    pub fn arities(&self) -> (triple: (usize, usize, usize))
        ensures
            triple == (self.base, self.sub, self.top),
    {
        (self.base, self.sub, self.top)
    }
}

/// A sector size that a shape can be derived from: a power of two that holds
/// at least one leaf node.
pub open spec fn valid_sector_size(sector_size: u64) -> bool {
    is_power_of_two(sector_size as nat) && sector_size >= NODE_SIZE
}

/// The binary logarithm of the largest arity of a level.
pub open spec fn max_level_log() -> nat {
    3
}

/// The binary logarithm of the largest number of nodes in one base tree.
pub open spec fn base_cap_log() -> nat {
    27
}

/// The binary logarithm of the number of leaf nodes in a sector.
pub open spec fn node_count_log(sector_size: u64) -> nat {
    (log2(sector_size as nat) - 5) as nat
}

/// How many of the `log_nodes` bits of a leaf's index the base trees take:
/// whole oct levels, up to the cap.
pub open spec fn base_level_log(log_nodes: nat) -> nat {
    let whole = (log_nodes / max_level_log()) * max_level_log();
    if whole < base_cap_log() {
        whole
    } else {
        base_cap_log()
    }
}

/// The bits that the levels above the base trees have to take.
pub open spec fn upper_level_log(log_nodes: nat) -> nat {
    (log_nodes - base_level_log(log_nodes)) as nat
}

/// The binary logarithm of the sub-tree arity, if there is a sub-tree level.
pub open spec fn sub_level_log(log_nodes: nat) -> Option<nat> {
    let upper = upper_level_log(log_nodes);
    let rem = upper % max_level_log();
    if upper == 0 {
        None
    } else if rem == 0 || upper > max_level_log() {
        Some(max_level_log())
    } else {
        Some(rem)
    }
}

/// The binary logarithm of the top-tree arity, if there is a top-tree level.
pub open spec fn top_level_log(log_nodes: nat) -> Option<nat> {
    let upper = upper_level_log(log_nodes);
    let rem = upper % max_level_log();
    if rem != 0 && upper > max_level_log() {
        Some(rem)
    } else {
        None
    }
}

/// The arity of a level from its binary logarithm, 0 for an absent level.
pub open spec fn level_arity(level_log: Option<nat>) -> usize {
    match level_log {
        None => 0,
        Some(l) => pow2(l) as usize,
    }
}

/// The shape of a tree over `2^log_nodes` leaf nodes.
pub open spec fn shape_for_node_count_log(log_nodes: nat) -> TreeShape {
    TreeShape {
        base: 8,
        sub: level_arity(sub_level_log(log_nodes)),
        top: level_arity(top_level_log(log_nodes)),
    }
}

/// The shape of the tree over a sector of `sector_size` bytes.
pub open spec fn resolved_shape(sector_size: u64) -> TreeShape {
    shape_for_node_count_log(node_count_log(sector_size))
}

/// Tells whether a shape can be derived from `sector_size`.
pub fn is_valid_sector_size(sector_size: u64) -> (valid: bool)
    ensures
        valid == valid_sector_size(sector_size),
{
    sector_size >= NODE_SIZE && power_of_two(sector_size)
}

/// The arity `2^level_log` of a level that is present.
fn arity_of_log(level_log: u32) -> (arity: usize)
    requires
        1 <= level_log <= 3,
    ensures
        arity == level_arity(Some(level_log as nat)),
        arity == pow2(level_log as nat),
        is_level_arity(arity),
        arity != 0,
{
    proof {
        lemma2_to64();
    }
    if level_log == 1 {
        2
    } else if level_log == 2 {
        4
    } else {
        8
    }
}

/// Derives the shape of the tree over a sector of `sector_size` bytes.
///
/// The base trees are oct trees and take as many whole oct levels of the
/// sector's leaf nodes as fit under the cap of `2^27` nodes. What is left goes
/// to a sub-tree level, and past one full oct level to a top-tree level.
pub fn canonical_shape(sector_size: u64) -> (shape: TreeShape)
    requires
        valid_sector_size(sector_size),
    ensures
        shape == resolved_shape(sector_size),
        shape.well_formed(),
        shape.base == 8,
        leaf_capacity(sector_size, shape) == sector_size / 32 <==> sector_size <= 0x20_0000_0000,
{
    let log_byte_size: u32 = floor_log2(sector_size);
    proof {
        lemma_log2_at_least_five(sector_size as nat);
        lemma_leaf_capacity_is_node_count(sector_size);
    }
    let log_nodes: u32 = log_byte_size - 5;
    let max_tree_log: u32 = 3;
    let log_max_base: u32 = 27;
    let whole: u32 = (log_nodes / max_tree_log) * max_tree_log;
    let log_in_base: u32 = if whole < log_max_base {
        whole
    } else {
        log_max_base
    };
    let log_upper: u32 = log_nodes - log_in_base;
    let log_rem: u32 = log_upper % max_tree_log;
    let mut sub: usize = 0;
    let mut top: usize = 0;
    if log_upper > 0 {
        if log_rem == 0 {
            sub = arity_of_log(max_tree_log);
        } else if log_upper > max_tree_log {
            sub = arity_of_log(max_tree_log);
            top = arity_of_log(log_rem);
        } else {
            sub = arity_of_log(log_rem);
        }
    }
    TreeShape { base: 8, sub, top }
}

/// The derived shape depends on the sector size alone: whatever two calls of
/// `canonical_shape` on one sector size return, they return the same shape.
pub proof fn lemma_canonical_shape_is_deterministic(
    sector_size: u64,
    first: TreeShape,
    second: TreeShape,
)
    requires
        call_ensures(canonical_shape, (sector_size,), first),
        call_ensures(canonical_shape, (sector_size,), second),
    ensures
        first == second,
        first == resolved_shape(sector_size),
{
}

/// Whatever the sector size, the derived shape has oct base trees and is well
/// formed.
pub proof fn lemma_resolved_shapes_are_well_formed(sector_size: u64)
    ensures
        resolved_shape(sector_size).base == 8,
        resolved_shape(sector_size).well_formed(),
{
    lemma2_to64();
}

/// The number of leaf nodes that the levels of `shape` address together in a
/// sector of `sector_size` bytes: the leaves of one base tree, times the
/// arity of each upper level that is present.
pub open spec fn leaf_capacity(sector_size: u64, shape: TreeShape) -> nat {
    pow2(base_level_log(node_count_log(sector_size))) * level_factor(shape.sub) * level_factor(
        shape.top,
    )
}

/// The bits that a level takes: none where it is absent.
pub open spec fn level_bits(level_log: Option<nat>) -> nat {
    match level_log {
        None => 0,
        Some(l) => l,
    }
}

/// The levels above the base trees of a derived shape take at most 3 bits
/// each, and a level multiplies the capacity by 2 to the number of its bits.
proof fn lemma_upper_levels(log_nodes: nat)
    ensures
        level_bits(sub_level_log(log_nodes)) <= 3,
        level_bits(top_level_log(log_nodes)) <= 2,
        level_factor(level_arity(sub_level_log(log_nodes))) == pow2(
            level_bits(sub_level_log(log_nodes)),
        ),
        level_factor(level_arity(top_level_log(log_nodes))) == pow2(
            level_bits(top_level_log(log_nodes)),
        ),
        base_level_log(log_nodes) <= log_nodes,
        base_level_log(log_nodes) % 3 == 0,
{
    lemma2_to64();
}

/// A valid sector size is 32 times 2 to the logarithm of its node count.
pub proof fn lemma_node_count(sector_size: u64)
    requires
        valid_sector_size(sector_size),
    ensures
        sector_size / 32 == pow2(node_count_log(sector_size)),
        sector_size == 32 * pow2(node_count_log(sector_size)),
        node_count_log(sector_size) + 5 == log2(sector_size as nat),
        node_count_log(sector_size) <= 58,
{
    let n = sector_size as nat;
    lemma_power_of_two_is_pow2_of_log2(n);
    lemma_log2_at_least_five(n);
    lemma2_to64();
    lemma2_to64_rest();
    lemma_log2_below(n, 64);
    lemma_pow2_adds(5, node_count_log(sector_size));
}

/// The levels of a derived shape address every leaf node of the sector:
/// the leaves of a base tree times the arities of the upper levels is the
/// number of 32-byte nodes in the sector, for every valid sector size up to
/// 128 GiB, and for no larger one.
pub proof fn lemma_leaf_capacity_is_node_count(sector_size: u64)
    requires
        valid_sector_size(sector_size),
    ensures
        leaf_capacity(sector_size, resolved_shape(sector_size)) == sector_size / 32
            <==> sector_size <= 0x20_0000_0000,
{
    let n = node_count_log(sector_size);
    let b = base_level_log(n);
    let s = level_bits(sub_level_log(n));
    let t = level_bits(top_level_log(n));
    lemma_node_count(sector_size);
    lemma_upper_levels(n);
    lemma_pow2_adds(b, s);
    lemma_pow2_adds(b + s, t);
    assert(leaf_capacity(sector_size, resolved_shape(sector_size)) == pow2(b + s + t));
    lemma_pow2_injective(b + s + t, n);
    lemma_pow2_injective(n, 32);
    lemma2_to64();
    lemma2_to64_rest();
    if n <= 32 {
        lemma_pow2_adds(5, n);
        if n < 32 {
            lemma_pow2_strictly_increases(n, 32);
        }
    } else {
        lemma_pow2_strictly_increases(32, n);
    }
}

/// The product of the three arities of a derived shape is the number of
/// 32-byte nodes in the sector exactly for the sector sizes of 256, 512 and
/// 1024 bytes, whose base trees have a single level.
pub proof fn lemma_arity_product_is_node_count(sector_size: u64)
    requires
        valid_sector_size(sector_size),
    ensures
        resolved_shape(sector_size).arity_product() == sector_size / 32 <==> 256 <= sector_size
            <= 1024,
{
    let n = node_count_log(sector_size);
    let s = level_bits(sub_level_log(n));
    let t = level_bits(top_level_log(n));
    lemma_node_count(sector_size);
    lemma_upper_levels(n);
    lemma2_to64();
    lemma_pow2_adds(3, s);
    lemma_pow2_adds(3 + s, t);
    assert(resolved_shape(sector_size).arity_product() == pow2(3 + s + t));
    lemma_pow2_injective(3 + s + t, n);
    if n < 3 {
        lemma_pow2_strictly_increases(n, 3);
    } else if n > 5 {
        lemma_pow2_strictly_increases(5, n);
    }
}

} // verus!
