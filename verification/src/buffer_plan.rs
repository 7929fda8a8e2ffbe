//! How large each GPU buffer of the two sort pipelines is, and how many
//! workgroups each fixed-size dispatch launches. The caller creates the
//! buffers with these sizes.
use vstd::prelude::*;
use crate::arith::{spec_div_ceil, div_ceil_u32, lemma_div_ceil_bounds};
use crate::gpu_types::{
    DuplicateParams, PairCountParams, TileRangeParams, PREFIX_DISPATCH_ARGS_COUNT,
    RADIX_SORT_BINS, RADIX_SORT_PASSES, GLOBAL_RADIX_SORT_PASSES, MAX_RADIX_WORKGROUPS,
};

verus! {

/// Bytes of one 32-bit word.
pub const U32_BYTES: u64 = 4;
/// Bytes of one tile-pipeline preprocess record (four 4-word vectors).
pub const TILE_PREPROCESS_OUTPUT_BYTES: u64 = 64;
/// Bytes of one global-sort preprocess record (three 4-word vectors).
pub const GLOBAL_PREPROCESS_OUTPUT_BYTES: u64 = 48;
/// Bytes of a padded indirect dispatch record.
pub const DISPATCH_INDIRECT_ARGS_BYTES: u64 = 16;
/// Bytes of wgpu's own (unpadded) indirect dispatch record.
pub const WGPU_DISPATCH_INDIRECT_ARGS_BYTES: u64 = 12;
/// Bytes of a prefix-count record.
pub const PREFIX_COUNTS_BYTES: u64 = 16;
/// Bytes of a pair key.
pub const PAIR_KEY_BYTES: u64 = 8;
/// Bytes of the pair totals record.
pub const TOTAL_PAIRS_BYTES: u64 = 16;
/// Bytes of one radix pass parameter record.
pub const RADIX_SORT_PARAMS_BYTES: u64 = 16;
/// Bytes of one tile range.
pub const TILE_RANGE_BYTES: u64 = 8;
/// Bytes of an indirect draw record.
pub const DRAW_INDIRECT_ARGS_BYTES: u64 = 16;
/// Bytes of one 3D Gaussian record (60 words).
pub const GAUSSIAN3D_BYTES: u64 = 240;
/// Bytes of one 4D Gaussian record (36 words).
pub const GAUSSIAN4D_BYTES: u64 = 144;
/// Side of a screen tile, in pixels.
pub const TILE_SIZE: u32 = 16;
/// Elements one prefix-scan workgroup handles.
pub const SCAN_BLOCK_SIZE: u32 = 256;
/// Pair slots reserved per Gaussian.
pub const PAIRS_PER_GAUSSIAN: u32 = 32;
/// Threads of one preprocess or tile-clearing workgroup.
pub const WORKGROUP_SIZE: u32 = 256;

/// `max(x, 1)`.
pub open spec fn at_least_one(x: u32) -> u32 {
    if x == 0 { 1 } else { x }
}

/// Whether a Gaussian count and a surface size fit the 32-bit counters of
/// the tile pipeline: the pair capacity and the tile count.
pub open spec fn tile_plan_fits(gaussian_count: u32, width: u32, height: u32) -> bool {
    at_least_one(gaussian_count) as int * PAIRS_PER_GAUSSIAN as int <= u32::MAX
        && spec_div_ceil(at_least_one(width) as int, TILE_SIZE as int)
            * spec_div_ceil(at_least_one(height) as int, TILE_SIZE as int) <= u32::MAX
}

/// Buffer sizes of the tile pipeline, for at least one Gaussian and a
/// surface of at least one pixel each way.
#[derive(Debug, Clone, Copy, PartialEq, Eq, Structural)]
pub struct TileBufferPlan {
    pub gaussian_count: u32,
    pub max_pairs: u32,
    pub max_blocks0: u32,
    pub max_blocks1: u32,
    pub max_blocks2: u32,
    pub radix_histogram_len: u32,
    pub tiles_width: u32,
    pub tiles_height: u32,
    pub tile_count: u32,
    pub preprocess_output_size: u64,
    pub tiles_touched_size: u64,
    pub visible_count_size: u64,
    pub prefix_dispatch_args_size: u64,
    pub prefix_counts_size: u64,
    pub offsets_size: u64,
    pub block_sums0_size: u64,
    pub block_offsets0_size: u64,
    pub block_sums1_size: u64,
    pub block_offsets1_size: u64,
    pub block_sums2_size: u64,
    pub pair_keys_size: u64,
    pub pair_values_size: u64,
    pub pair_keys_tmp_size: u64,
    pub pair_values_tmp_size: u64,
    pub radix_histograms_size: u64,
    pub total_pairs_size: u64,
    pub radix_params_size: u64,
    pub radix_dispatch_args_size: u64,
    pub tile_range_dispatch_args_size: u64,
    pub tile_ranges_size: u64,
}

/// The tile grid part of a plan matches a surface size.
pub open spec fn tiles_match(p: TileBufferPlan, width: u32, height: u32) -> bool {
    &&& p.tiles_width == spec_div_ceil(at_least_one(width) as int, TILE_SIZE as int)
    &&& p.tiles_height == spec_div_ceil(at_least_one(height) as int, TILE_SIZE as int)
    &&& p.tile_count == p.tiles_width * p.tiles_height
    &&& p.tile_ranges_size == TILE_RANGE_BYTES * p.tile_count
}

/// The Gaussian part of a plan matches a Gaussian count.
pub open spec fn gaussians_match(p: TileBufferPlan, gaussian_count: u32) -> bool {
    let n = at_least_one(gaussian_count);
    &&& p.gaussian_count == n
    &&& p.max_pairs == n * PAIRS_PER_GAUSSIAN
    &&& p.max_blocks0 == spec_div_ceil(n as int, SCAN_BLOCK_SIZE as int)
    &&& p.max_blocks1 == spec_div_ceil(p.max_blocks0 as int, SCAN_BLOCK_SIZE as int)
    &&& p.max_blocks2 == spec_div_ceil(p.max_blocks1 as int, SCAN_BLOCK_SIZE as int)
    &&& p.radix_histogram_len == MAX_RADIX_WORKGROUPS * RADIX_SORT_BINS
    &&& p.preprocess_output_size == TILE_PREPROCESS_OUTPUT_BYTES * n
    &&& p.tiles_touched_size == U32_BYTES * n
    &&& p.visible_count_size == U32_BYTES
    &&& p.prefix_dispatch_args_size == DISPATCH_INDIRECT_ARGS_BYTES * PREFIX_DISPATCH_ARGS_COUNT
    &&& p.prefix_counts_size == PREFIX_COUNTS_BYTES
    &&& p.offsets_size == U32_BYTES * n
    &&& p.block_sums0_size == U32_BYTES * p.max_blocks0
    &&& p.block_offsets0_size == U32_BYTES * p.max_blocks0
    &&& p.block_sums1_size == U32_BYTES * p.max_blocks1
    &&& p.block_offsets1_size == U32_BYTES * p.max_blocks1
    &&& p.block_sums2_size == U32_BYTES * p.max_blocks2
    &&& p.pair_keys_size == PAIR_KEY_BYTES * p.max_pairs
    &&& p.pair_values_size == U32_BYTES * p.max_pairs
    &&& p.pair_keys_tmp_size == PAIR_KEY_BYTES * p.max_pairs
    &&& p.pair_values_tmp_size == U32_BYTES * p.max_pairs
    &&& p.radix_histograms_size == U32_BYTES * p.radix_histogram_len
    &&& p.total_pairs_size == TOTAL_PAIRS_BYTES
    &&& p.radix_params_size == RADIX_SORT_PARAMS_BYTES * RADIX_SORT_PASSES
    &&& p.radix_dispatch_args_size == DISPATCH_INDIRECT_ARGS_BYTES
    &&& p.tile_range_dispatch_args_size == DISPATCH_INDIRECT_ARGS_BYTES
}

fn tile_grid(width: u32, height: u32) -> (r: (u32, u32, u32))
    requires
        spec_div_ceil(at_least_one(width) as int, TILE_SIZE as int)
            * spec_div_ceil(at_least_one(height) as int, TILE_SIZE as int) <= u32::MAX,
    ensures
        r.0 == spec_div_ceil(at_least_one(width) as int, TILE_SIZE as int),
        r.1 == spec_div_ceil(at_least_one(height) as int, TILE_SIZE as int),
        r.2 == r.0 * r.1,
{
    let w = if width == 0 { 1 } else { width };
    let h = if height == 0 { 1 } else { height };
    let tiles_width = div_ceil_u32(w, TILE_SIZE);
    let tiles_height = div_ceil_u32(h, TILE_SIZE);
    (tiles_width, tiles_height, tiles_width * tiles_height)
}

impl TileBufferPlan {
    /// The plan for `gaussian_count` Gaussians (at least one slot is kept)
    /// on a `width` by `height` surface (each at least one pixel).
    pub fn new(gaussian_count: u32, width: u32, height: u32) -> (r: TileBufferPlan)
        requires
            tile_plan_fits(gaussian_count, width, height),
        ensures
            gaussians_match(r, gaussian_count),
            tiles_match(r, width, height),
    {
        let n = if gaussian_count == 0 { 1 } else { gaussian_count };
        let max_pairs = n * PAIRS_PER_GAUSSIAN;
        let max_blocks0 = div_ceil_u32(n, SCAN_BLOCK_SIZE);
        let max_blocks1 = div_ceil_u32(max_blocks0, SCAN_BLOCK_SIZE);
        let max_blocks2 = div_ceil_u32(max_blocks1, SCAN_BLOCK_SIZE);
        let radix_histogram_len = MAX_RADIX_WORKGROUPS * RADIX_SORT_BINS;
        let (tiles_width, tiles_height, tile_count) = tile_grid(width, height);
        let n64 = n as u64;
        let pairs64 = max_pairs as u64;
        TileBufferPlan {
            gaussian_count: n,
            max_pairs,
            max_blocks0,
            max_blocks1,
            max_blocks2,
            radix_histogram_len,
            tiles_width,
            tiles_height,
            tile_count,
            preprocess_output_size: TILE_PREPROCESS_OUTPUT_BYTES * n64,
            tiles_touched_size: U32_BYTES * n64,
            visible_count_size: U32_BYTES,
            prefix_dispatch_args_size: DISPATCH_INDIRECT_ARGS_BYTES * PREFIX_DISPATCH_ARGS_COUNT,
            prefix_counts_size: PREFIX_COUNTS_BYTES,
            offsets_size: U32_BYTES * n64,
            block_sums0_size: U32_BYTES * (max_blocks0 as u64),
            block_offsets0_size: U32_BYTES * (max_blocks0 as u64),
            block_sums1_size: U32_BYTES * (max_blocks1 as u64),
            block_offsets1_size: U32_BYTES * (max_blocks1 as u64),
            block_sums2_size: U32_BYTES * (max_blocks2 as u64),
            pair_keys_size: PAIR_KEY_BYTES * pairs64,
            pair_values_size: U32_BYTES * pairs64,
            pair_keys_tmp_size: PAIR_KEY_BYTES * pairs64,
            pair_values_tmp_size: U32_BYTES * pairs64,
            radix_histograms_size: U32_BYTES * (radix_histogram_len as u64),
            total_pairs_size: TOTAL_PAIRS_BYTES,
            radix_params_size: RADIX_SORT_PARAMS_BYTES * (RADIX_SORT_PASSES as u64),
            radix_dispatch_args_size: DISPATCH_INDIRECT_ARGS_BYTES,
            tile_range_dispatch_args_size: DISPATCH_INDIRECT_ARGS_BYTES,
            tile_ranges_size: TILE_RANGE_BYTES * (tile_count as u64),
        }
    }

    /// Re-plans the tile grid for a new surface size; the Gaussian buffers
    /// keep their sizes.
    pub fn resize(&mut self, width: u32, height: u32)
        requires
            spec_div_ceil(at_least_one(width) as int, TILE_SIZE as int)
                * spec_div_ceil(at_least_one(height) as int, TILE_SIZE as int) <= u32::MAX,
        ensures
            tiles_match(*final(self), width, height),
            *final(self) == (TileBufferPlan {
                tiles_width: final(self).tiles_width,
                tiles_height: final(self).tiles_height,
                tile_count: final(self).tile_count,
                tile_ranges_size: final(self).tile_ranges_size,
                ..*old(self)
            }),
    {
        let (tiles_width, tiles_height, tile_count) = tile_grid(width, height);
        self.tiles_width = tiles_width;
        self.tiles_height = tiles_height;
        self.tile_count = tile_count;
        self.tile_ranges_size = TILE_RANGE_BYTES * (tile_count as u64);
    }

    /// Parameters of the pair emission pass.
    pub fn duplicate_params(&self) -> (r: DuplicateParams)
        ensures
            r == (DuplicateParams {
                tiles_width: self.tiles_width,
                tiles_height: self.tiles_height,
                max_pairs: self.max_pairs,
                _pad: 0,
            }),
    {
        DuplicateParams { tiles_width: self.tiles_width, tiles_height: self.tiles_height, max_pairs: self.max_pairs, _pad: 0 }
    }

    /// Parameters of the pair total pass.
    pub fn pair_count_params(&self) -> (r: PairCountParams)
        ensures
            r.max_pairs == self.max_pairs,
    {
        PairCountParams::new(self.max_pairs)
    }

    /// Parameters of the tile range passes.
    pub fn tile_range_params(&self) -> (r: TileRangeParams)
        ensures
            r.tile_count == self.tile_count,
    {
        TileRangeParams::new(self.tile_count)
    }

    /// Workgroups of the pass that clears the tile ranges: one thread per tile.
    pub fn clear_tile_ranges_workgroups(&self) -> (r: u32)
        ensures
            r == spec_div_ceil(self.tile_count as int, WORKGROUP_SIZE as int),
    {
        div_ceil_u32(self.tile_count, WORKGROUP_SIZE)
    }

    /// Workgroups of the tile render pass: one per tile.
    pub fn tile_render_workgroups(&self) -> (r: (u32, u32, u32))
        ensures
            r == (self.tiles_width, self.tiles_height, 1u32),
    {
        (self.tiles_width, self.tiles_height, 1)
    }
}

/// Byte offset of indirect dispatch slot `slot` in the prefix dispatch
/// buffer: scan levels 0, 1, 2 use slots 0, 1, 2; the add-back passes of
/// levels 1 and 0 use slots 3 and 4.
pub fn prefix_dispatch_offset(slot: u64) -> (r: u64)
    requires
        slot < PREFIX_DISPATCH_ARGS_COUNT,
    ensures
        r == DISPATCH_INDIRECT_ARGS_BYTES * slot,
        r + DISPATCH_INDIRECT_ARGS_BYTES <= DISPATCH_INDIRECT_ARGS_BYTES * PREFIX_DISPATCH_ARGS_COUNT,
{
    DISPATCH_INDIRECT_ARGS_BYTES * slot
}

/// Workgroups of the preprocess pass: none (the pass is skipped) without
/// Gaussians, else one thread per Gaussian.
pub fn preprocess_workgroups(gaussian_count: u32) -> (r: Option<u32>)
    ensures
        gaussian_count == 0 ==> r is None,
        gaussian_count > 0 ==> r == Some(spec_div_ceil(gaussian_count as int, WORKGROUP_SIZE as int) as u32),
{
    if gaussian_count == 0 {
        None
    } else {
        Some(div_ceil_u32(gaussian_count, WORKGROUP_SIZE))
    }
}

/// Buffer sizes of the global depth-sort pipeline.
#[derive(Debug, Clone, Copy, PartialEq, Eq, Structural)]
pub struct GlobalSortBufferPlan {
    /// The Gaussian count as given (zero stays zero, so preprocessing is skipped).
    pub gaussian_count: u32,
    /// Slots reserved: at least one.
    pub capacity: u32,
    pub preprocess_output_size: u64,
    pub sort_keys_size: u64,
    pub sort_values_size: u64,
    pub sort_keys_tmp_size: u64,
    pub sort_values_tmp_size: u64,
    pub visible_count_size: u64,
    pub radix_params_size: u64,
    pub radix_dispatch_args_size: u64,
    pub draw_indirect_args_size: u64,
    pub radix_histograms_size: u64,
}

impl GlobalSortBufferPlan {
    /// The plan for `gaussian_count` Gaussians.
    pub fn new(gaussian_count: u32) -> (r: GlobalSortBufferPlan)
        ensures
            r.gaussian_count == gaussian_count,
            r.capacity == at_least_one(gaussian_count),
            r.preprocess_output_size == GLOBAL_PREPROCESS_OUTPUT_BYTES * r.capacity,
            r.sort_keys_size == U32_BYTES * r.capacity,
            r.sort_values_size == U32_BYTES * r.capacity,
            r.sort_keys_tmp_size == U32_BYTES * r.capacity,
            r.sort_values_tmp_size == U32_BYTES * r.capacity,
            r.visible_count_size == U32_BYTES,
            r.radix_params_size == RADIX_SORT_PARAMS_BYTES * GLOBAL_RADIX_SORT_PASSES,
            r.radix_dispatch_args_size == WGPU_DISPATCH_INDIRECT_ARGS_BYTES,
            r.draw_indirect_args_size == DRAW_INDIRECT_ARGS_BYTES,
            r.radix_histograms_size == U32_BYTES * RADIX_SORT_BINS * MAX_RADIX_WORKGROUPS,
    {
        let capacity = if gaussian_count == 0 { 1 } else { gaussian_count };
        let c64 = capacity as u64;
        GlobalSortBufferPlan {
            gaussian_count,
            capacity,
            preprocess_output_size: GLOBAL_PREPROCESS_OUTPUT_BYTES * c64,
            sort_keys_size: U32_BYTES * c64,
            sort_values_size: U32_BYTES * c64,
            sort_keys_tmp_size: U32_BYTES * c64,
            sort_values_tmp_size: U32_BYTES * c64,
            visible_count_size: U32_BYTES,
            radix_params_size: RADIX_SORT_PARAMS_BYTES * (GLOBAL_RADIX_SORT_PASSES as u64),
            radix_dispatch_args_size: WGPU_DISPATCH_INDIRECT_ARGS_BYTES,
            draw_indirect_args_size: DRAW_INDIRECT_ARGS_BYTES,
            radix_histograms_size: U32_BYTES * ((RADIX_SORT_BINS * MAX_RADIX_WORKGROUPS) as u64),
        }
    }
}

/// Sizes of the standalone Gaussian resource set: the tile pipeline buffers
/// for a fixed screen size, plus the buffer holding the Gaussians.
#[derive(Debug, Clone, Copy, PartialEq, Eq, Structural)]
pub struct GaussianResourcesPlan {
    /// The Gaussian count as given (zero stays zero).
    pub gaussian_count: u32,
    /// Bytes of the Gaussian buffer: the Gaussians themselves, or room for
    /// one when there are none.
    pub gaussian_buffer_size: u64,
    /// The working buffers, planned for at least one Gaussian.
    pub buffers: TileBufferPlan,
}

impl GaussianResourcesPlan {
    /// The plan for `gaussian_count` Gaussians on a `screen_width` by
    /// `screen_height` screen.
    pub fn new(gaussian_count: u32, screen_width: u32, screen_height: u32) -> (r: GaussianResourcesPlan)
        requires
            tile_plan_fits(gaussian_count, screen_width, screen_height),
        ensures
            r.gaussian_count == gaussian_count,
            r.gaussian_buffer_size == GAUSSIAN3D_BYTES * at_least_one(gaussian_count),
            gaussians_match(r.buffers, gaussian_count),
            tiles_match(r.buffers, screen_width, screen_height),
            r.buffers.max_pairs == PAIRS_PER_GAUSSIAN * at_least_one(gaussian_count),
    {
        let buffers = TileBufferPlan::new(gaussian_count, screen_width, screen_height);
        let slots: u64 = if gaussian_count == 0 { 1 } else { gaussian_count as u64 };
        GaussianResourcesPlan { gaussian_count, gaussian_buffer_size: GAUSSIAN3D_BYTES * slots, buffers }
    }
}

/// The three prefix-scan levels cover every Gaussian slot: each level has a
/// block per 256 elements of the level below, and for up to 256³ slots the
/// top level is a single block.
pub proof fn lemma_scan_levels_cover(p: TileBufferPlan, gaussian_count: u32)
    requires
        gaussians_match(p, gaussian_count),
    ensures
        p.max_blocks0 * SCAN_BLOCK_SIZE >= p.gaussian_count,
        p.max_blocks1 * SCAN_BLOCK_SIZE >= p.max_blocks0,
        p.max_blocks2 * SCAN_BLOCK_SIZE >= p.max_blocks1,
        p.max_blocks0 >= 1 && p.max_blocks1 >= 1 && p.max_blocks2 >= 1,
        p.gaussian_count <= 256 * 256 * 256 ==> p.max_blocks2 == 1,
{
    lemma_div_ceil_bounds(p.gaussian_count as int, 256);
    lemma_div_ceil_bounds(p.max_blocks0 as int, 256);
    lemma_div_ceil_bounds(p.max_blocks1 as int, 256);
    if p.gaussian_count <= 256 * 256 * 256 {
        assert(p.max_blocks0 <= 65536) by (nonlinear_arith)
            requires
                p.max_blocks0 * 256 < p.gaussian_count + 256,
                p.gaussian_count <= 256 * 256 * 256,
        ;
        assert(p.max_blocks1 <= 256) by (nonlinear_arith)
            requires
                p.max_blocks1 * 256 < p.max_blocks0 + 256,
                p.max_blocks0 <= 65536,
        ;
        assert(p.max_blocks2 <= 1) by (nonlinear_arith)
            requires
                p.max_blocks2 * 256 < p.max_blocks1 + 256,
                p.max_blocks1 <= 256,
        ;
    }
}

/// The tile grid covers the surface with 16-pixel tiles, with no column or
/// row of tiles to spare.
pub proof fn lemma_tiles_cover_surface(p: TileBufferPlan, width: u32, height: u32)
    requires
        tiles_match(p, width, height),
    ensures
        p.tiles_width * TILE_SIZE >= at_least_one(width),
        (p.tiles_width - 1) * TILE_SIZE < at_least_one(width),
        p.tiles_height * TILE_SIZE >= at_least_one(height),
        (p.tiles_height - 1) * TILE_SIZE < at_least_one(height),
        p.tile_count >= 1,
{
    lemma_div_ceil_bounds(at_least_one(width) as int, 16);
    lemma_div_ceil_bounds(at_least_one(height) as int, 16);
    assert(p.tile_count >= 1) by (nonlinear_arith)
        requires
            p.tile_count == p.tiles_width * p.tiles_height,
            p.tiles_width >= 1,
            p.tiles_height >= 1,
    ;
}

} // verus!
