//! The per-size tunables of the proofs: challenge, partition, layer and
//! sector counts, seeded with built-in values and open to overrides.

use vstd::prelude::*;
use vstd::std_specs::hash::group_hash_axioms;
use std::collections::HashMap;
use crate::sizes::is_supported_sector_size;
use crate::sizes::SECTOR_SIZE_2_KIB;
use crate::sizes::SECTOR_SIZE_4_KIB;
use crate::sizes::SECTOR_SIZE_16_KIB;
use crate::sizes::SECTOR_SIZE_32_KIB;
use crate::sizes::SECTOR_SIZE_8_MIB;
use crate::sizes::SECTOR_SIZE_16_MIB;
use crate::sizes::SECTOR_SIZE_512_MIB;
use crate::sizes::SECTOR_SIZE_1_GIB;
use crate::sizes::SECTOR_SIZE_32_GIB;
use crate::sizes::SECTOR_SIZE_64_GIB;

verus! {

/// A table with an entry for each supported sector size: `at_32_gib` and
/// `at_64_gib` for the two largest sizes, `small` for every other.
pub open spec fn seeded_table<V>(small: V, at_32_gib: V, at_64_gib: V) -> Map<u64, V> {
    Map::new(
        |sector_size: u64| is_supported_sector_size(sector_size),
        |sector_size: u64|
            if sector_size == SECTOR_SIZE_32_GIB {
                at_32_gib
            } else if sector_size == SECTOR_SIZE_64_GIB {
                at_64_gib
            } else {
                small
            },
    )
}

/// The built-in minimum numbers of PoRep challenges.
pub open spec fn default_porep_minimum_challenges() -> Map<u64, u64> {
    seeded_table(2u64, 138u64, 138u64)
}

/// The built-in numbers of PoRep partitions.
pub open spec fn default_porep_partitions() -> Map<u64, u8> {
    seeded_table(1u8, 8u8, 8u8)
}

/// The built-in numbers of layers.
pub open spec fn default_layers() -> Map<u64, usize> {
    seeded_table(2usize, 11usize, 11usize)
}

/// The built-in numbers of sectors in a Window PoSt partition.
pub open spec fn default_window_post_sector_count() -> Map<u64, usize> {
    seeded_table(2usize, 2349usize, 2300usize)
}

/// Builds the table that `seeded_table` describes.
fn seed<V: Copy>(small: V, at_32_gib: V, at_64_gib: V) -> (table: HashMap<u64, V>)
    ensures
        table@ == seeded_table(small, at_32_gib, at_64_gib),
{
    broadcast use group_hash_axioms;

    let mut table: HashMap<u64, V> = HashMap::new();
    table.insert(SECTOR_SIZE_2_KIB, small);
    table.insert(SECTOR_SIZE_4_KIB, small);
    table.insert(SECTOR_SIZE_16_KIB, small);
    table.insert(SECTOR_SIZE_32_KIB, small);
    table.insert(SECTOR_SIZE_8_MIB, small);
    table.insert(SECTOR_SIZE_16_MIB, small);
    table.insert(SECTOR_SIZE_512_MIB, small);
    table.insert(SECTOR_SIZE_1_GIB, small);
    table.insert(SECTOR_SIZE_32_GIB, at_32_gib);
    table.insert(SECTOR_SIZE_64_GIB, at_64_gib);
    assert(table@ =~= seeded_table(small, at_32_gib, at_64_gib));
    table
}

/// The table of minimum numbers of PoRep challenges, with its built-in values.
pub fn porep_minimum_challenges_table() -> (table: HashMap<u64, u64>)
    ensures
        table@ == default_porep_minimum_challenges(),
{
    seed(2u64, 138u64, 138u64)
}

/// The table of numbers of PoRep partitions, with its built-in values.
pub fn porep_partitions_table() -> (table: HashMap<u64, u8>)
    ensures
        table@ == default_porep_partitions(),
{
    seed(1u8, 8u8, 8u8)
}

/// The table of numbers of layers, with its built-in values.
pub fn layers_table() -> (table: HashMap<u64, usize>)
    ensures
        table@ == default_layers(),
{
    seed(2usize, 11usize, 11usize)
}

/// The table of numbers of sectors in a Window PoSt partition, with its
/// built-in values.
pub fn window_post_sector_count_table() -> (table: HashMap<u64, usize>)
    ensures
        table@ == default_window_post_sector_count(),
{
    seed(2usize, 2349usize, 2300usize)
}

/// Reads the entry of `table` for `sector_size`, if it has one.
pub fn tunable<V: Copy>(table: &HashMap<u64, V>, sector_size: u64) -> (value: Option<V>)
    ensures
        value == table@.get(sector_size),
{
    broadcast use group_hash_axioms;

    match table.get(&sector_size) {
        Some(value) => Some(*value),
        None => None,
    }
}

/// Sets the entry of `table` for `sector_size` to `value`, in place of the
/// entry that the size had, if it had one.
pub fn set_tunable<V>(table: &mut HashMap<u64, V>, sector_size: u64, value: V)
    ensures
        final(table)@ == old(table)@.insert(sector_size, value),
{
    broadcast use group_hash_axioms;

    table.insert(sector_size, value);
}

/// The four tables of tunables, each from sector size to a count.
pub struct TunableRegistry {
    pub porep_minimum_challenges: HashMap<u64, u64>,
    pub porep_partitions: HashMap<u64, u8>,
    pub layers: HashMap<u64, usize>,
    pub window_post_sector_count: HashMap<u64, usize>,
}

impl TunableRegistry {
    /// The registry with the built-in values for every supported sector size.
    pub fn new() -> (registry: Self)
        ensures
            registry.porep_minimum_challenges@ == default_porep_minimum_challenges(),
            registry.porep_partitions@ == default_porep_partitions(),
            registry.layers@ == default_layers(),
            registry.window_post_sector_count@ == default_window_post_sector_count(),
    {
        TunableRegistry {
            porep_minimum_challenges: porep_minimum_challenges_table(),
            porep_partitions: porep_partitions_table(),
            layers: layers_table(),
            window_post_sector_count: window_post_sector_count_table(),
        }
    }

    /// The minimum number of PoRep challenges for `sector_size`, if one is set.
    pub fn porep_minimum_challenges(&self, sector_size: u64) -> (count: Option<u64>)
        ensures
            count == self.porep_minimum_challenges@.get(sector_size),
    {
        tunable(&self.porep_minimum_challenges, sector_size)
    }

    /// The number of PoRep partitions for `sector_size`, if one is set.
    pub fn porep_partitions(&self, sector_size: u64) -> (count: Option<u8>)
        ensures
            count == self.porep_partitions@.get(sector_size),
    {
        tunable(&self.porep_partitions, sector_size)
    }

    /// The number of layers for `sector_size`, if one is set.
    pub fn layers(&self, sector_size: u64) -> (count: Option<usize>)
        ensures
            count == self.layers@.get(sector_size),
    {
        tunable(&self.layers, sector_size)
    }

    /// The number of sectors in a Window PoSt partition for `sector_size`, if
    /// one is set.
    pub fn window_post_sector_count(&self, sector_size: u64) -> (count: Option<usize>)
        ensures
            count == self.window_post_sector_count@.get(sector_size),
    {
        tunable(&self.window_post_sector_count, sector_size)
    }

    /// Sets the minimum number of PoRep challenges for `sector_size`.
    pub fn set_porep_minimum_challenges(&mut self, sector_size: u64, count: u64)
        ensures
            final(self).porep_minimum_challenges@ == old(self).porep_minimum_challenges@.insert(
                sector_size,
                count,
            ),
            final(self).porep_partitions@ == old(self).porep_partitions@,
            final(self).layers@ == old(self).layers@,
            final(self).window_post_sector_count@ == old(self).window_post_sector_count@,
    {
        set_tunable(&mut self.porep_minimum_challenges, sector_size, count);
    }

    /// Sets the number of PoRep partitions for `sector_size`.
    pub fn set_porep_partitions(&mut self, sector_size: u64, count: u8)
        ensures
            final(self).porep_partitions@ == old(self).porep_partitions@.insert(sector_size, count),
            final(self).porep_minimum_challenges@ == old(self).porep_minimum_challenges@,
            final(self).layers@ == old(self).layers@,
            final(self).window_post_sector_count@ == old(self).window_post_sector_count@,
    {
        set_tunable(&mut self.porep_partitions, sector_size, count);
    }

    /// Sets the number of layers for `sector_size`.
    pub fn set_layers(&mut self, sector_size: u64, count: usize)
        ensures
            final(self).layers@ == old(self).layers@.insert(sector_size, count),
            final(self).porep_minimum_challenges@ == old(self).porep_minimum_challenges@,
            final(self).porep_partitions@ == old(self).porep_partitions@,
            final(self).window_post_sector_count@ == old(self).window_post_sector_count@,
    {
        set_tunable(&mut self.layers, sector_size, count);
    }

    /// Sets the number of sectors in a Window PoSt partition for `sector_size`.
    pub fn set_window_post_sector_count(&mut self, sector_size: u64, count: usize)
        ensures
            final(self).window_post_sector_count@ == old(self).window_post_sector_count@.insert(
                sector_size,
                count,
            ),
            final(self).porep_minimum_challenges@ == old(self).porep_minimum_challenges@,
            final(self).porep_partitions@ == old(self).porep_partitions@,
            final(self).layers@ == old(self).layers@,
    {
        set_tunable(&mut self.window_post_sector_count, sector_size, count);
    }
}

} // verus!
