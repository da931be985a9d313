//! The shapes registered for the supported sector sizes, and the dispatch on
//! a sector size that hands an operation the shape registered for it.

use vstd::prelude::*;
use vstd::arithmetic::power2::lemma2_to64;
use vstd::arithmetic::power2::lemma2_to64_rest;
use vstd::string::StringExecFns;
use typenum::Unsigned;
use crate::decimal::decimal_digits;
use crate::decimal::decimal_string;
use crate::shape::TreeShape;
use crate::shape::resolved_shape;
use crate::shape::valid_sector_size;
use crate::shape::node_count_log;
use crate::shape::leaf_capacity;
use crate::shape::lemma_leaf_capacity_is_node_count;
use crate::binary_log::lemma_log2_of_pow2;
use crate::sizes::is_supported_sector_size;
use crate::sizes::SECTOR_SIZE_2_KIB;
use crate::sizes::SECTOR_SIZE_4_KIB;
use crate::sizes::SECTOR_SIZE_16_KIB;
use crate::sizes::SECTOR_SIZE_32_KIB;
use crate::sizes::SECTOR_SIZE_8_MIB;
use crate::sizes::SECTOR_SIZE_16_MIB;
use crate::sizes::SECTOR_SIZE_512_MIB;
use crate::sizes::SECTOR_SIZE_1_GIB;
use crate::sizes::SECTOR_SIZE_32_GIB;
use crate::sizes::SECTOR_SIZE_64_GIB;

verus! {

/// `typenum::U0::to_usize`, the type-level number `U0` as a value. Trusted:
/// the value is 0.
#[verifier::external_body]
fn arity_u0() -> (arity: usize)
    ensures
        arity == 0,
{
    typenum::U0::to_usize()
}

/// `typenum::U2::to_usize`, the type-level number `U2` as a value. Trusted:
/// the value is 2.
#[verifier::external_body]
fn arity_u2() -> (arity: usize)
    ensures
        arity == 2,
{
    typenum::U2::to_usize()
}

/// `typenum::U8::to_usize`, the type-level number `U8` as a value. Trusted:
/// the value is 8.
#[verifier::external_body]
fn arity_u8() -> (arity: usize)
    ensures
        arity == 8,
{
    typenum::U8::to_usize()
}

/// Oct base trees alone.
pub open spec fn shape_8_0_0() -> TreeShape {
    TreeShape { base: 8, sub: 0, top: 0 }
}

/// Oct base trees under a binary sub-tree level.
pub open spec fn shape_8_2_0() -> TreeShape {
    TreeShape { base: 8, sub: 2, top: 0 }
}

/// Oct base trees under an oct sub-tree level.
pub open spec fn shape_8_8_0() -> TreeShape {
    TreeShape { base: 8, sub: 8, top: 0 }
}

/// Oct base trees under an oct sub-tree level and a binary top-tree level.
pub open spec fn shape_8_8_2() -> TreeShape {
    TreeShape { base: 8, sub: 8, top: 2 }
}

/// The table of registered shapes: the shape bound to each supported sector
/// size, and nothing for any other size.
pub open spec fn shape_registry(sector_size: u64) -> Option<TreeShape> {
    if sector_size == SECTOR_SIZE_2_KIB {
        Some(shape_8_0_0())
    } else if sector_size == SECTOR_SIZE_4_KIB {
        Some(shape_8_2_0())
    } else if sector_size == SECTOR_SIZE_16_KIB {
        Some(shape_8_0_0())
    } else if sector_size == SECTOR_SIZE_32_KIB {
        Some(shape_8_2_0())
    } else if sector_size == SECTOR_SIZE_8_MIB {
        Some(shape_8_0_0())
    } else if sector_size == SECTOR_SIZE_16_MIB {
        Some(shape_8_2_0())
    } else if sector_size == SECTOR_SIZE_512_MIB {
        Some(shape_8_0_0())
    } else if sector_size == SECTOR_SIZE_1_GIB {
        Some(shape_8_2_0())
    } else if sector_size == SECTOR_SIZE_32_GIB {
        Some(shape_8_8_0())
    } else if sector_size == SECTOR_SIZE_64_GIB {
        Some(shape_8_8_2())
    } else {
        None
    }
}

/// Looks up the shape registered for `sector_size`.
pub fn registered_shape(sector_size: u64) -> (found: Option<TreeShape>)
    ensures
        found == shape_registry(sector_size),
        found is Some <==> is_supported_sector_size(sector_size),
        found matches Some(shape) ==> shape == resolved_shape(sector_size) && shape.well_formed()
            && shape.base == 8,
{
    proof {
        if is_supported_sector_size(sector_size) {
            lemma_registry_agrees_with_resolver(sector_size);
        }
    }
    if sector_size == SECTOR_SIZE_2_KIB || sector_size == SECTOR_SIZE_16_KIB || sector_size
        == SECTOR_SIZE_8_MIB || sector_size == SECTOR_SIZE_512_MIB {
        Some(TreeShape { base: arity_u8(), sub: arity_u0(), top: arity_u0() })
    } else if sector_size == SECTOR_SIZE_4_KIB || sector_size == SECTOR_SIZE_32_KIB || sector_size
        == SECTOR_SIZE_16_MIB || sector_size == SECTOR_SIZE_1_GIB {
        Some(TreeShape { base: arity_u8(), sub: arity_u2(), top: arity_u0() })
    } else if sector_size == SECTOR_SIZE_32_GIB {
        Some(TreeShape { base: arity_u8(), sub: arity_u8(), top: arity_u0() })
    } else if sector_size == SECTOR_SIZE_64_GIB {
        Some(TreeShape { base: arity_u8(), sub: arity_u8(), top: arity_u2() })
    } else {
        None
    }
}

/// Runs `f` on the shape registered for `sector_size`, once, and returns what
/// it returned.
pub fn with_shape<R, F: FnOnce(TreeShape) -> R>(sector_size: u64, f: F) -> (result: R)
    requires
        is_supported_sector_size(sector_size),
        f.requires((shape_registry(sector_size)->Some_0,)),
    ensures
        f.ensures((shape_registry(sector_size)->Some_0,), result),
        f.ensures((resolved_shape(sector_size),), result),
{
    let shape = registered_shape(sector_size).unwrap();
    f(shape)
}

/// What a dispatch says of a sector size that is not supported.
pub open spec fn unsupported_message(sector_size: u64) -> Seq<char> {
    "unsupported sector size: "@ + decimal_digits(sector_size as nat)
}

/// The failure of a dispatch on a sector size that is not supported.
#[derive(Clone, Copy, Debug, PartialEq, Eq, Structural)]
pub struct UnsupportedSectorSize {
    pub sector_size: u64,
}

impl UnsupportedSectorSize {
    /// The words of the failure: `unsupported sector size: ` and the size in
    /// decimal.
    pub fn message(&self) -> (text: String)
        ensures
            text@ == unsupported_message(self.sector_size),
    {
        let mut text = String::from_str("unsupported sector size: ");
        let digits = decimal_string(self.sector_size);
        text.append(digits.as_str());
        text
    }
}

/// Runs `f` on the shape registered for `sector_size` if the size is
/// supported, and returns what it returned. For any other size `f` is not
/// run, and the failure names the size.
pub fn try_with_shape<R, F: FnOnce(TreeShape) -> R>(sector_size: u64, f: F) -> (result: Result<
    R,
    UnsupportedSectorSize,
>)
    requires
        is_supported_sector_size(sector_size) ==> f.requires(
            (shape_registry(sector_size)->Some_0,),
        ),
    ensures
        result is Ok <==> is_supported_sector_size(sector_size),
        result matches Ok(r) ==> f.ensures((shape_registry(sector_size)->Some_0,), r)
            && f.ensures((resolved_shape(sector_size),), r),
        result matches Err(failure) ==> failure.sector_size == sector_size,
{
    match registered_shape(sector_size) {
        Some(shape) => Ok(f(shape)),
        None => Err(UnsupportedSectorSize { sector_size }),
    }
}

/// Every supported sector size is a size that a shape can be derived from,
/// and the binary logarithm of its node count is known.
pub proof fn lemma_supported_sizes_are_valid(sector_size: u64)
    requires
        is_supported_sector_size(sector_size),
    ensures
        valid_sector_size(sector_size),
        sector_size == SECTOR_SIZE_2_KIB ==> node_count_log(sector_size) == 6,
        sector_size == SECTOR_SIZE_4_KIB ==> node_count_log(sector_size) == 7,
        sector_size == SECTOR_SIZE_16_KIB ==> node_count_log(sector_size) == 9,
        sector_size == SECTOR_SIZE_32_KIB ==> node_count_log(sector_size) == 10,
        sector_size == SECTOR_SIZE_8_MIB ==> node_count_log(sector_size) == 18,
        sector_size == SECTOR_SIZE_16_MIB ==> node_count_log(sector_size) == 19,
        sector_size == SECTOR_SIZE_512_MIB ==> node_count_log(sector_size) == 24,
        sector_size == SECTOR_SIZE_1_GIB ==> node_count_log(sector_size) == 25,
        sector_size == SECTOR_SIZE_32_GIB ==> node_count_log(sector_size) == 30,
        sector_size == SECTOR_SIZE_64_GIB ==> node_count_log(sector_size) == 31,
{
    lemma2_to64();
    lemma2_to64_rest();
    lemma_log2_of_pow2(11);
    lemma_log2_of_pow2(12);
    lemma_log2_of_pow2(14);
    lemma_log2_of_pow2(15);
    lemma_log2_of_pow2(23);
    lemma_log2_of_pow2(24);
    lemma_log2_of_pow2(29);
    lemma_log2_of_pow2(30);
    lemma_log2_of_pow2(35);
    lemma_log2_of_pow2(36);
}

/// The registry holds the derived shape: for every supported sector size the
/// registered shape is the shape derived from the size.
pub proof fn lemma_registry_agrees_with_resolver(sector_size: u64)
    requires
        is_supported_sector_size(sector_size),
    ensures
        shape_registry(sector_size) == Some(resolved_shape(sector_size)),
{
    lemma_supported_sizes_are_valid(sector_size);
    lemma2_to64();
}

/// For every supported sector size the registered shape and the derived
/// shape have oct base trees and are well formed.
pub proof fn lemma_supported_shapes_have_oct_bases(sector_size: u64)
    requires
        is_supported_sector_size(sector_size),
    ensures
        shape_registry(sector_size) is Some,
        shape_registry(sector_size)->Some_0.base == 8,
        shape_registry(sector_size)->Some_0.well_formed(),
        resolved_shape(sector_size).base == 8,
        resolved_shape(sector_size).well_formed(),
{
    lemma_registry_agrees_with_resolver(sector_size);
}

/// For every supported sector size the levels of the derived shape, which is
/// the registered shape, address exactly the leaf nodes of the sector.
pub proof fn lemma_supported_sizes_are_addressed(sector_size: u64)
    requires
        is_supported_sector_size(sector_size),
    ensures
        leaf_capacity(sector_size, resolved_shape(sector_size)) == sector_size / 32,
        leaf_capacity(sector_size, shape_registry(sector_size)->Some_0) == sector_size / 32,
{
    lemma_supported_sizes_are_valid(sector_size);
    lemma_leaf_capacity_is_node_count(sector_size);
    lemma_registry_agrees_with_resolver(sector_size);
}

} // verus!
