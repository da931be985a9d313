//! The supported sector sizes and the fixed counts of the proofs.

use vstd::prelude::*;

verus! {

pub const SECTOR_SIZE_2_KIB: u64 = 2048;

pub const SECTOR_SIZE_4_KIB: u64 = 4096;

pub const SECTOR_SIZE_16_KIB: u64 = 16384;

pub const SECTOR_SIZE_32_KIB: u64 = 32768;

pub const SECTOR_SIZE_8_MIB: u64 = 8388608;

pub const SECTOR_SIZE_16_MIB: u64 = 16777216;

pub const SECTOR_SIZE_512_MIB: u64 = 536870912;

pub const SECTOR_SIZE_1_GIB: u64 = 1073741824;

pub const SECTOR_SIZE_32_GIB: u64 = 34359738368;

pub const SECTOR_SIZE_64_GIB: u64 = 68719476736;

/// Bytes in one leaf node of a Merkle tree.
pub const NODE_SIZE: u64 = 32;

pub const WINNING_POST_CHALLENGE_COUNT: usize = 66;

pub const WINNING_POST_SECTOR_COUNT: usize = 1;

pub const WINDOW_POST_CHALLENGE_COUNT: usize = 10;

/// The size of a single snark proof.
pub const SINGLE_PARTITION_PROOF_LEN: usize = 192;

pub const MINIMUM_RESERVED_LEAVES_FOR_PIECE_IN_SECTOR: u64 = 4;

/// Bit padding causes bytes to only be aligned at every 127 bytes (for 31.75 bytes).
pub const MINIMUM_RESERVED_BYTES_FOR_PIECE_IN_FULLY_ALIGNED_SECTOR: u64 =
    (MINIMUM_RESERVED_LEAVES_FOR_PIECE_IN_SECTOR * NODE_SIZE) - 1;

/// The minimum size a single piece must have before padding, in bytes.
pub const MIN_PIECE_SIZE: u64 = 127;

/// Whether `sector_size` is one of the ten supported sector sizes.
pub open spec fn is_supported_sector_size(sector_size: u64) -> bool {
    ||| sector_size == SECTOR_SIZE_2_KIB
    ||| sector_size == SECTOR_SIZE_4_KIB
    ||| sector_size == SECTOR_SIZE_16_KIB
    ||| sector_size == SECTOR_SIZE_32_KIB
    ||| sector_size == SECTOR_SIZE_8_MIB
    ||| sector_size == SECTOR_SIZE_16_MIB
    ||| sector_size == SECTOR_SIZE_512_MIB
    ||| sector_size == SECTOR_SIZE_1_GIB
    ||| sector_size == SECTOR_SIZE_32_GIB
    ||| sector_size == SECTOR_SIZE_64_GIB
}

/// Tells whether `sector_size` is one of the supported sector sizes.
pub fn is_supported(sector_size: u64) -> (supported: bool)
    ensures
        supported == is_supported_sector_size(sector_size),
{
    sector_size == SECTOR_SIZE_2_KIB || sector_size == SECTOR_SIZE_4_KIB || sector_size
        == SECTOR_SIZE_16_KIB || sector_size == SECTOR_SIZE_32_KIB || sector_size
        == SECTOR_SIZE_8_MIB || sector_size == SECTOR_SIZE_16_MIB || sector_size
        == SECTOR_SIZE_512_MIB || sector_size == SECTOR_SIZE_1_GIB || sector_size
        == SECTOR_SIZE_32_GIB || sector_size == SECTOR_SIZE_64_GIB
}

} // verus!
