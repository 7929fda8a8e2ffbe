//! The plain records the sort and tile pipelines exchange with their compute
//! shaders, laid out as the shaders read them (`repr(C)`, 32-bit words).
use vstd::prelude::*;

verus! {

/// Spherical-harmonic coefficients stored per 3D Gaussian (16 per channel).
pub const SH_COUNT: usize = 48;
/// Indirect dispatch slots the prefix scan uses: three scan levels and two
/// add-back levels.
pub const PREFIX_DISPATCH_ARGS_COUNT: u64 = 5;
/// Buckets of one radix-sort digit (8 bits).
pub const RADIX_SORT_BINS: u32 = 256;
/// Digit passes of the tile pipeline's sort (64-bit keys, 8 bits a pass).
pub const RADIX_SORT_PASSES: usize = 8;
/// Digit passes of the global depth sort (32-bit keys, 8 bits a pass).
pub const GLOBAL_RADIX_SORT_PASSES: usize = 4;
/// Workgroups the radix histogram is split over.
pub const MAX_RADIX_WORKGROUPS: u32 = 256;

/// Arguments of an indirect compute dispatch, padded to 16 bytes.
#[derive(Debug, Clone, Copy, PartialEq, Eq, Structural)]
pub struct DispatchIndirectArgs {
    pub x: u32,
    pub y: u32,
    pub z: u32,
    pub _pad: u32,
}

/// Element counts of the three prefix-scan levels.
#[derive(Debug, Clone, Copy, PartialEq, Eq, Structural)]
pub struct PrefixCounts {
    pub n0: u32,
    pub n1: u32,
    pub n2: u32,
    pub _pad: u32,
}

/// Which prefix-scan level a dispatch works on.
#[derive(Debug, Clone, Copy, PartialEq, Eq, Structural)]
pub struct PrefixLevelParams {
    pub level: u32,
}

/// Sort key of one (tile, Gaussian) pair: tile first, then depth.
#[derive(Debug, Clone, Copy, PartialEq, Eq, Structural)]
pub struct PairKey {
    pub tile_id: u32,
    pub depth_bits: u32,
}

/// Parameters of the pass that emits one pair per tile a Gaussian touches.
#[derive(Debug, Clone, Copy, PartialEq, Eq, Structural)]
pub struct DuplicateParams {
    pub tiles_width: u32,
    pub tiles_height: u32,
    pub max_pairs: u32,
    pub _pad: u32,
}

/// Parameters of one radix-sort pass.
#[derive(Debug, Clone, Copy, PartialEq, Eq, Structural)]
pub struct RadixSortParams {
    pub num_elements: u32,
    pub shift: u32,
    pub num_workgroups: u32,
    pub num_blocks_per_workgroup: u32,
}

/// Which radix-sort pass a dispatch runs.
#[derive(Debug, Clone, Copy, PartialEq, Eq, Structural)]
pub struct RadixPassIndex {
    pub value: u32,
}

/// Pair totals the scan computes: pairs asked for, pairs sorted (clamped to
/// the buffer), visible Gaussians, and whether pairs were dropped.
#[derive(Debug, Clone, Copy, PartialEq, Eq, Structural)]
pub struct TotalPairs {
    pub raw_total_pairs: u32,
    pub sort_pair_count: u32,
    pub visible_count: u32,
    pub overflow: u32,
}

/// The capacity of the pair buffers.
#[derive(Debug, Clone, Copy, PartialEq, Eq, Structural)]
pub struct PairCountParams {
    pub max_pairs: u32,
}

/// The sorted pairs `start..end` that belong to one tile.
#[derive(Debug, Clone, Copy, PartialEq, Eq, Structural)]
pub struct TileRange {
    pub start: u32,
    pub end: u32,
}

/// The number of screen tiles.
#[derive(Debug, Clone, Copy, PartialEq, Eq, Structural)]
pub struct TileRangeParams {
    pub tile_count: u32,
}

/// Arguments of an indirect draw.
#[derive(Debug, Clone, Copy, PartialEq, Eq, Structural)]
pub struct DrawIndirectArgs {
    pub vertex_count: u32,
    pub instance_count: u32,
    pub first_vertex: u32,
    pub first_instance: u32,
}

impl PrefixLevelParams {
    /// The parameters of scan level `level`.
    pub fn new(level: u32) -> (r: PrefixLevelParams)
        ensures
            r.level == level,
    {
        PrefixLevelParams { level }
    }
}

impl RadixPassIndex {
    /// The parameters of radix pass `value`.
    pub fn new(value: u32) -> (r: RadixPassIndex)
        ensures
            r.value == value,
    {
        RadixPassIndex { value }
    }
}

impl PairCountParams {
    /// The parameters for pair buffers of `max_pairs` entries.
    pub fn new(max_pairs: u32) -> (r: PairCountParams)
        ensures
            r.max_pairs == max_pairs,
    {
        PairCountParams { max_pairs }
    }
}

impl TileRangeParams {
    /// The parameters for `tile_count` tiles.
    pub fn new(tile_count: u32) -> (r: TileRangeParams)
        ensures
            r.tile_count == tile_count,
    {
        TileRangeParams { tile_count }
    }
}

} // verus!
