//! How the passes of the two GPU pipelines (tile and global sort) are
//! wired: which buffer each bind group slot holds and with what access, and
//! in which order the passes run with which dispatch.
use vstd::prelude::*;
use crate::arith::spec_div_ceil;
use crate::buffer_plan::{TileBufferPlan, prefix_dispatch_offset, DISPATCH_INDIRECT_ARGS_BYTES, WORKGROUP_SIZE};
use crate::gpu_types::PREFIX_DISPATCH_ARGS_COUNT;
use crate::gpu_types::{RADIX_SORT_PASSES, GLOBAL_RADIX_SORT_PASSES};
use crate::render_plan::{radix_pass_buffers, spec_radix_pass_buffers, SortBuffer};

verus! {

/// A buffer of the tile or global-sort pipeline, or one of their small
/// parameter buffers. Names both pipelines share stand for each pipeline's
/// own buffer.
#[derive(Debug, Clone, Copy, PartialEq, Eq, Structural)]
pub enum GpuBuffer {
    SceneUniform,
    Gaussians,
    PreprocessOutput,
    TilesTouched,
    VisibleCount,
    PrefixDispatchArgs,
    PrefixCounts,
    Offsets,
    BlockSums0,
    BlockOffsets0,
    BlockSums1,
    BlockOffsets1,
    BlockSums2,
    PrefixParams0,
    PrefixParams1,
    PrefixParams2,
    PairCountParams,
    TotalPairs,
    DuplicateParams,
    PairKeys,
    PairValues,
    PairKeysTmp,
    PairValuesTmp,
    RadixParams,
    RadixDispatchArgs,
    TileRangeDispatchArgs,
    RadixHistograms,
    /// The pass number uniform of radix pass `pass`.
    PassIndex { pass: u32 },
    TileRangeParams,
    TileRanges,
    SortKeys,
    SortValues,
    SortKeysTmp,
    SortValuesTmp,
    DrawIndirectArgs,
}

/// How a bind group slot exposes its buffer to the shader.
#[derive(Debug, Clone, Copy, PartialEq, Eq, Structural)]
pub enum Access {
    Uniform,
    ReadOnly,
    ReadWrite,
}

/// One slot of a bind group.
#[derive(Debug, Clone, Copy, PartialEq, Eq, Structural)]
pub struct BufferBinding {
    pub binding: u32,
    pub buffer: GpuBuffer,
    pub access: Access,
}

/// A compute kernel of the tile pipeline.
#[derive(Debug, Clone, Copy, PartialEq, Eq, Structural)]
pub enum TileKernel {
    Preprocess,
    BuildDispatchArgs,
    /// Exclusive scan of prefix-scan level `level` (0, 1 or 2).
    Scan { level: u32 },
    /// Adding the scanned block offsets of level `level + 1` back into level
    /// `level` (0 or 1).
    AddBlockOffsets { level: u32 },
    BuildTotalPairs,
    Duplicate,
    BuildRadixArgs,
    RadixHistogram { pass: u32 },
    RadixScatter { pass: u32 },
    ClearTileRanges,
    TileRange,
    TileRender,
}

/// A slot of a bind group.
pub open spec fn bb(binding: u32, buffer: GpuBuffer, access: Access) -> BufferBinding {
    BufferBinding { binding, buffer, access }
}

/// The parameter uniform of scan level `level`.
pub open spec fn level_params(level: int) -> GpuBuffer {
    if level == 0 {
        GpuBuffer::PrefixParams0
    } else if level == 1 {
        GpuBuffer::PrefixParams1
    } else {
        GpuBuffer::PrefixParams2
    }
}

/// What scan level `level` scans: the per-Gaussian tile counts, then the
/// block sums of the level below.
pub open spec fn level_input(level: int) -> GpuBuffer {
    if level == 0 {
        GpuBuffer::TilesTouched
    } else if level == 1 {
        GpuBuffer::BlockSums0
    } else {
        GpuBuffer::BlockSums1
    }
}

/// Where scan level `level` writes its exclusive prefix sums.
pub open spec fn level_output(level: int) -> GpuBuffer {
    if level == 0 {
        GpuBuffer::Offsets
    } else if level == 1 {
        GpuBuffer::BlockOffsets0
    } else {
        GpuBuffer::BlockOffsets1
    }
}

/// Where scan level `level` writes the total of each of its blocks.
pub open spec fn level_sums(level: int) -> GpuBuffer {
    if level == 0 {
        GpuBuffer::BlockSums0
    } else if level == 1 {
        GpuBuffer::BlockSums1
    } else {
        GpuBuffer::BlockSums2
    }
}

/// The key buffer a radix pass side names.
pub open spec fn sort_keys(b: SortBuffer) -> GpuBuffer {
    match b {
        SortBuffer::Primary => GpuBuffer::PairKeys,
        SortBuffer::Scratch => GpuBuffer::PairKeysTmp,
    }
}

/// The value buffer a radix pass side names.
pub open spec fn sort_values(b: SortBuffer) -> GpuBuffer {
    match b {
        SortBuffer::Primary => GpuBuffer::PairValues,
        SortBuffer::Scratch => GpuBuffer::PairValuesTmp,
    }
}

/// The kernels that exist: three scan levels, two add-back levels, and one
/// histogram and one scatter kernel per radix pass.
pub open spec fn kernel_valid(k: TileKernel) -> bool {
    match k {
        TileKernel::Scan { level } => level < 3,
        TileKernel::AddBlockOffsets { level } => level < 2,
        TileKernel::RadixHistogram { pass } => pass < RADIX_SORT_PASSES,
        TileKernel::RadixScatter { pass } => pass < RADIX_SORT_PASSES,
        _ => true,
    }
}

/// The bind group of each kernel, slot by slot. The tile render kernel's
/// bind group also holds the output texture and is not described here.
pub open spec fn spec_kernel_bindings(k: TileKernel) -> Option<Seq<BufferBinding>> {
    match k {
        TileKernel::Preprocess => Some(seq![
            bb(0, GpuBuffer::SceneUniform, Access::Uniform),
            bb(1, GpuBuffer::Gaussians, Access::ReadOnly),
            bb(2, GpuBuffer::PreprocessOutput, Access::ReadWrite),
            bb(3, GpuBuffer::TilesTouched, Access::ReadWrite),
            bb(4, GpuBuffer::VisibleCount, Access::ReadWrite),
        ]),
        TileKernel::BuildDispatchArgs => Some(seq![
            bb(0, GpuBuffer::VisibleCount, Access::ReadWrite),
            bb(1, GpuBuffer::PrefixDispatchArgs, Access::ReadWrite),
            bb(2, GpuBuffer::PrefixCounts, Access::ReadWrite),
        ]),
        TileKernel::Scan { level } => Some(seq![
            bb(0, level_params(level as int), Access::Uniform),
            bb(1, GpuBuffer::PrefixCounts, Access::ReadOnly),
            bb(2, level_input(level as int), Access::ReadOnly),
            bb(3, level_output(level as int), Access::ReadWrite),
            bb(4, level_sums(level as int), Access::ReadWrite),
        ]),
        TileKernel::AddBlockOffsets { level } => Some(seq![
            bb(0, level_params(level as int), Access::Uniform),
            bb(1, GpuBuffer::PrefixCounts, Access::ReadOnly),
            bb(2, level_output(level as int), Access::ReadWrite),
            bb(3, level_output(level + 1), Access::ReadOnly),
        ]),
        TileKernel::BuildTotalPairs => Some(seq![
            bb(0, GpuBuffer::PrefixCounts, Access::ReadOnly),
            bb(1, GpuBuffer::BlockSums1, Access::ReadOnly),
            bb(2, GpuBuffer::TotalPairs, Access::ReadWrite),
            bb(3, GpuBuffer::PairCountParams, Access::Uniform),
        ]),
        TileKernel::Duplicate => Some(seq![
            bb(0, GpuBuffer::DuplicateParams, Access::Uniform),
            bb(1, GpuBuffer::PreprocessOutput, Access::ReadOnly),
            bb(2, GpuBuffer::Offsets, Access::ReadOnly),
            bb(3, GpuBuffer::PairKeys, Access::ReadWrite),
            bb(4, GpuBuffer::PairValues, Access::ReadWrite),
            bb(5, GpuBuffer::VisibleCount, Access::ReadWrite),
        ]),
        TileKernel::BuildRadixArgs => Some(seq![
            bb(0, GpuBuffer::TotalPairs, Access::ReadOnly),
            bb(1, GpuBuffer::RadixParams, Access::ReadWrite),
            bb(2, GpuBuffer::RadixDispatchArgs, Access::ReadWrite),
            bb(3, GpuBuffer::TileRangeDispatchArgs, Access::ReadWrite),
        ]),
        TileKernel::RadixHistogram { pass } => Some(seq![
            bb(0, GpuBuffer::PassIndex { pass }, Access::Uniform),
            bb(1, GpuBuffer::RadixParams, Access::ReadOnly),
            bb(2, sort_keys(spec_radix_pass_buffers(pass as int).keys_in), Access::ReadOnly),
            bb(3, GpuBuffer::RadixHistograms, Access::ReadWrite),
        ]),
        TileKernel::RadixScatter { pass } => Some(seq![
            bb(0, GpuBuffer::PassIndex { pass }, Access::Uniform),
            bb(1, GpuBuffer::RadixParams, Access::ReadOnly),
            bb(2, sort_keys(spec_radix_pass_buffers(pass as int).keys_in), Access::ReadOnly),
            bb(3, sort_keys(spec_radix_pass_buffers(pass as int).keys_out), Access::ReadWrite),
            bb(4, sort_values(spec_radix_pass_buffers(pass as int).values_in), Access::ReadOnly),
            bb(5, sort_values(spec_radix_pass_buffers(pass as int).values_out), Access::ReadWrite),
            bb(6, GpuBuffer::RadixHistograms, Access::ReadOnly),
        ]),
        TileKernel::ClearTileRanges => Some(seq![
            bb(0, GpuBuffer::TileRangeParams, Access::Uniform),
            bb(1, GpuBuffer::TileRanges, Access::ReadWrite),
        ]),
        TileKernel::TileRange => Some(seq![
            bb(0, GpuBuffer::TotalPairs, Access::ReadOnly),
            bb(1, GpuBuffer::TileRangeParams, Access::Uniform),
            bb(2, GpuBuffer::PairKeys, Access::ReadOnly),
            bb(3, GpuBuffer::TileRanges, Access::ReadWrite),
        ]),
        TileKernel::TileRender => None,
    }
}

/// Appends the next slot of a bind group.
fn push_binding(v: &mut Vec<BufferBinding>, buffer: GpuBuffer, access: Access)
    requires
        old(v)@.len() < 8,
    ensures
        final(v)@ == old(v)@.push(bb(old(v)@.len() as u32, buffer, access)),
{
    let binding = v.len() as u32;
    v.push(BufferBinding { binding, buffer, access });
}

fn params_of_level(level: u32) -> (r: GpuBuffer)
    ensures
        r == level_params(level as int),
{
    if level == 0 {
        GpuBuffer::PrefixParams0
    } else if level == 1 {
        GpuBuffer::PrefixParams1
    } else {
        GpuBuffer::PrefixParams2
    }
}

fn input_of_level(level: u32) -> (r: GpuBuffer)
    ensures
        r == level_input(level as int),
{
    if level == 0 {
        GpuBuffer::TilesTouched
    } else if level == 1 {
        GpuBuffer::BlockSums0
    } else {
        GpuBuffer::BlockSums1
    }
}

fn output_of_level(level: u32) -> (r: GpuBuffer)
    ensures
        r == level_output(level as int),
{
    if level == 0 {
        GpuBuffer::Offsets
    } else if level == 1 {
        GpuBuffer::BlockOffsets0
    } else {
        GpuBuffer::BlockOffsets1
    }
}

fn sums_of_level(level: u32) -> (r: GpuBuffer)
    ensures
        r == level_sums(level as int),
{
    if level == 0 {
        GpuBuffer::BlockSums0
    } else if level == 1 {
        GpuBuffer::BlockSums1
    } else {
        GpuBuffer::BlockSums2
    }
}

fn keys_buffer(b: SortBuffer) -> (r: GpuBuffer)
    ensures
        r == sort_keys(b),
{
    match b {
        SortBuffer::Primary => GpuBuffer::PairKeys,
        SortBuffer::Scratch => GpuBuffer::PairKeysTmp,
    }
}

fn values_buffer(b: SortBuffer) -> (r: GpuBuffer)
    ensures
        r == sort_values(b),
{
    match b {
        SortBuffer::Primary => GpuBuffer::PairValues,
        SortBuffer::Scratch => GpuBuffer::PairValuesTmp,
    }
}

/// The buffer slots of a kernel's bind group, in slot order; `None` for the
/// tile render kernel, whose bind group also holds the output texture.
pub fn kernel_bindings(kernel: TileKernel) -> (r: Option<Vec<BufferBinding>>)
    requires
        kernel_valid(kernel),
    ensures
        match r {
            Some(v) => spec_kernel_bindings(kernel) == Some(v@),
            None => spec_kernel_bindings(kernel) is None,
        },
{
    let mut v: Vec<BufferBinding> = Vec::new();
    match kernel {
        TileKernel::Preprocess => {
            push_binding(&mut v, GpuBuffer::SceneUniform, Access::Uniform);
            push_binding(&mut v, GpuBuffer::Gaussians, Access::ReadOnly);
            push_binding(&mut v, GpuBuffer::PreprocessOutput, Access::ReadWrite);
            push_binding(&mut v, GpuBuffer::TilesTouched, Access::ReadWrite);
            push_binding(&mut v, GpuBuffer::VisibleCount, Access::ReadWrite);
        },
        TileKernel::BuildDispatchArgs => {
            push_binding(&mut v, GpuBuffer::VisibleCount, Access::ReadWrite);
            push_binding(&mut v, GpuBuffer::PrefixDispatchArgs, Access::ReadWrite);
            push_binding(&mut v, GpuBuffer::PrefixCounts, Access::ReadWrite);
        },
        TileKernel::Scan { level } => {
            push_binding(&mut v, params_of_level(level), Access::Uniform);
            push_binding(&mut v, GpuBuffer::PrefixCounts, Access::ReadOnly);
            push_binding(&mut v, input_of_level(level), Access::ReadOnly);
            push_binding(&mut v, output_of_level(level), Access::ReadWrite);
            push_binding(&mut v, sums_of_level(level), Access::ReadWrite);
        },
        TileKernel::AddBlockOffsets { level } => {
            push_binding(&mut v, params_of_level(level), Access::Uniform);
            push_binding(&mut v, GpuBuffer::PrefixCounts, Access::ReadOnly);
            push_binding(&mut v, output_of_level(level), Access::ReadWrite);
            push_binding(&mut v, output_of_level(level + 1), Access::ReadOnly);
        },
        TileKernel::BuildTotalPairs => {
            push_binding(&mut v, GpuBuffer::PrefixCounts, Access::ReadOnly);
            push_binding(&mut v, GpuBuffer::BlockSums1, Access::ReadOnly);
            push_binding(&mut v, GpuBuffer::TotalPairs, Access::ReadWrite);
            push_binding(&mut v, GpuBuffer::PairCountParams, Access::Uniform);
        },
        TileKernel::Duplicate => {
            push_binding(&mut v, GpuBuffer::DuplicateParams, Access::Uniform);
            push_binding(&mut v, GpuBuffer::PreprocessOutput, Access::ReadOnly);
            push_binding(&mut v, GpuBuffer::Offsets, Access::ReadOnly);
            push_binding(&mut v, GpuBuffer::PairKeys, Access::ReadWrite);
            push_binding(&mut v, GpuBuffer::PairValues, Access::ReadWrite);
            push_binding(&mut v, GpuBuffer::VisibleCount, Access::ReadWrite);
        },
        TileKernel::BuildRadixArgs => {
            push_binding(&mut v, GpuBuffer::TotalPairs, Access::ReadOnly);
            push_binding(&mut v, GpuBuffer::RadixParams, Access::ReadWrite);
            push_binding(&mut v, GpuBuffer::RadixDispatchArgs, Access::ReadWrite);
            push_binding(&mut v, GpuBuffer::TileRangeDispatchArgs, Access::ReadWrite);
        },
        TileKernel::RadixHistogram { pass } => {
            let sides = radix_pass_buffers(pass as usize);
            push_binding(&mut v, GpuBuffer::PassIndex { pass }, Access::Uniform);
            push_binding(&mut v, GpuBuffer::RadixParams, Access::ReadOnly);
            push_binding(&mut v, keys_buffer(sides.keys_in), Access::ReadOnly);
            push_binding(&mut v, GpuBuffer::RadixHistograms, Access::ReadWrite);
        },
        TileKernel::RadixScatter { pass } => {
            let sides = radix_pass_buffers(pass as usize);
            push_binding(&mut v, GpuBuffer::PassIndex { pass }, Access::Uniform);
            push_binding(&mut v, GpuBuffer::RadixParams, Access::ReadOnly);
            push_binding(&mut v, keys_buffer(sides.keys_in), Access::ReadOnly);
            push_binding(&mut v, keys_buffer(sides.keys_out), Access::ReadWrite);
            push_binding(&mut v, values_buffer(sides.values_in), Access::ReadOnly);
            push_binding(&mut v, values_buffer(sides.values_out), Access::ReadWrite);
            push_binding(&mut v, GpuBuffer::RadixHistograms, Access::ReadOnly);
        },
        TileKernel::ClearTileRanges => {
            push_binding(&mut v, GpuBuffer::TileRangeParams, Access::Uniform);
            push_binding(&mut v, GpuBuffer::TileRanges, Access::ReadWrite);
        },
        TileKernel::TileRange => {
            push_binding(&mut v, GpuBuffer::TotalPairs, Access::ReadOnly);
            push_binding(&mut v, GpuBuffer::TileRangeParams, Access::Uniform);
            push_binding(&mut v, GpuBuffer::PairKeys, Access::ReadOnly);
            push_binding(&mut v, GpuBuffer::TileRanges, Access::ReadWrite);
        },
        TileKernel::TileRender => {
            return None;
        },
    }
    proof {
        assert(v@ =~= spec_kernel_bindings(kernel)->Some_0);
    }
    Some(v)
}

/// Each scan level scans the block sums the level below wrote; adding back
/// level `l` reads what scan level `l + 1` wrote and updates what scan level
/// `l` wrote; no level writes what it reads.
pub proof fn lemma_scan_levels_chain(level: int)
    requires
        0 <= level < 2,
    ensures
        level_input(level + 1) == level_sums(level),
        level_input(level) != level_output(level),
        level_input(level) != level_sums(level),
        level_output(level) != level_sums(level),
        spec_kernel_bindings(TileKernel::AddBlockOffsets { level: level as u32 })->Some_0[2].buffer
            == spec_kernel_bindings(TileKernel::Scan { level: level as u32 })->Some_0[3].buffer,
        spec_kernel_bindings(TileKernel::AddBlockOffsets { level: level as u32 })->Some_0[3].buffer
            == spec_kernel_bindings(TileKernel::Scan { level: (level + 1) as u32 })->Some_0[3].buffer,
        spec_kernel_bindings(TileKernel::Scan { level: (level + 1) as u32 })->Some_0[2].buffer
            == spec_kernel_bindings(TileKernel::Scan { level: level as u32 })->Some_0[4].buffer,
{
}

/// Every bind group numbers its slots from 0 without gaps and binds no
/// buffer twice.
pub proof fn lemma_bindings_well_formed(k: TileKernel)
    requires
        kernel_valid(k),
        spec_kernel_bindings(k) is Some,
    ensures
        forall|i: int| 0 <= i < spec_kernel_bindings(k)->Some_0.len()
            ==> (#[trigger] spec_kernel_bindings(k)->Some_0[i]).binding == i,
        forall|i: int, j: int| 0 <= i < j < spec_kernel_bindings(k)->Some_0.len()
            ==> (#[trigger] spec_kernel_bindings(k)->Some_0[i]).buffer != (#[trigger] spec_kernel_bindings(k)->Some_0[j]).buffer,
{
}

/// How a pass is launched: a fixed workgroup grid, a grid read from an
/// indirect-arguments buffer at a byte offset, or an indirect draw.
#[derive(Debug, Clone, Copy, PartialEq, Eq, Structural)]
pub enum Dispatch {
    Workgroups { x: u32, y: u32, z: u32 },
    Indirect { args: GpuBuffer, offset: u64 },
    /// A draw whose counts are read from an indirect-arguments buffer.
    DrawIndirect { args: GpuBuffer, offset: u64 },
}

/// One compute pass: the kernel it runs and how it is launched.
#[derive(Debug, Clone, Copy, PartialEq, Eq, Structural)]
pub struct TileStep {
    pub kernel: TileKernel,
    pub dispatch: Dispatch,
}

/// A pass of the tile pipeline.
pub open spec fn step(kernel: TileKernel, dispatch: Dispatch) -> TileStep {
    TileStep { kernel, dispatch }
}

/// A single workgroup.
pub open spec fn once() -> Dispatch {
    Dispatch::Workgroups { x: 1, y: 1, z: 1 }
}

/// Indirect dispatch from slot `slot` of the prefix dispatch buffer.
pub open spec fn prefix_slot(slot: int) -> Dispatch {
    Dispatch::Indirect { args: GpuBuffer::PrefixDispatchArgs, offset: (DISPATCH_INDIRECT_ARGS_BYTES * slot) as u64 }
}

/// Indirect dispatch of the radix passes.
pub open spec fn radix_args() -> Dispatch {
    Dispatch::Indirect { args: GpuBuffer::RadixDispatchArgs, offset: 0 }
}

/// The prefix scan: the dispatch sizes are built first, the three levels
/// are scanned bottom up, the block offsets are added back top down, and the
/// pair total is taken last.
pub open spec fn spec_prefix_scan_steps() -> Seq<TileStep> {
    seq![
        step(TileKernel::BuildDispatchArgs, once()),
        step(TileKernel::Scan { level: 0 }, prefix_slot(0)),
        step(TileKernel::Scan { level: 1 }, prefix_slot(1)),
        step(TileKernel::Scan { level: 2 }, prefix_slot(2)),
        step(TileKernel::AddBlockOffsets { level: 1 }, prefix_slot(3)),
        step(TileKernel::AddBlockOffsets { level: 0 }, prefix_slot(4)),
        step(TileKernel::BuildTotalPairs, once()),
    ]
}

/// The first `n` radix passes, each a histogram then a scatter.
pub open spec fn spec_radix_pass_steps(n: nat) -> Seq<TileStep>
    decreases n,
{
    if n == 0 {
        Seq::empty()
    } else {
        spec_radix_pass_steps((n - 1) as nat) + seq![
            step(TileKernel::RadixHistogram { pass: (n - 1) as u32 }, radix_args()),
            step(TileKernel::RadixScatter { pass: (n - 1) as u32 }, radix_args()),
        ]
    }
}

/// The passes of a frame after preprocessing: the prefix scan, pair
/// emission, the radix sort, the tile ranges and the tile render.
pub open spec fn spec_tile_sort_steps(p: TileBufferPlan) -> Seq<TileStep> {
    spec_prefix_scan_steps() + seq![
        step(TileKernel::Duplicate, prefix_slot(0)),
        step(TileKernel::BuildRadixArgs, once()),
    ] + spec_radix_pass_steps(RADIX_SORT_PASSES as nat) + seq![
        step(TileKernel::ClearTileRanges, Dispatch::Workgroups {
            x: spec_div_ceil(p.tile_count as int, WORKGROUP_SIZE as int) as u32,
            y: 1,
            z: 1,
        }),
        step(TileKernel::TileRange, Dispatch::Indirect { args: GpuBuffer::TileRangeDispatchArgs, offset: 0 }),
        step(TileKernel::TileRender, Dispatch::Workgroups { x: p.tiles_width, y: p.tiles_height, z: 1 }),
    ]
}

/// Appends a pass.
fn push_step(v: &mut Vec<TileStep>, kernel: TileKernel, dispatch: Dispatch)
    ensures
        final(v)@ == old(v)@.push(step(kernel, dispatch)),
{
    v.push(TileStep { kernel, dispatch });
}

fn prefix_slot_dispatch(slot: u64) -> (r: Dispatch)
    requires
        slot < PREFIX_DISPATCH_ARGS_COUNT,
    ensures
        r == prefix_slot(slot as int),
{
    Dispatch::Indirect { args: GpuBuffer::PrefixDispatchArgs, offset: prefix_dispatch_offset(slot) }
}

fn push_prefix_scan_steps(v: &mut Vec<TileStep>)
    ensures
        final(v)@ == old(v)@ + spec_prefix_scan_steps(),
{
    let ghost start = v@;
    let one = Dispatch::Workgroups { x: 1, y: 1, z: 1 };
    push_step(v, TileKernel::BuildDispatchArgs, one);
    push_step(v, TileKernel::Scan { level: 0 }, prefix_slot_dispatch(0));
    push_step(v, TileKernel::Scan { level: 1 }, prefix_slot_dispatch(1));
    push_step(v, TileKernel::Scan { level: 2 }, prefix_slot_dispatch(2));
    push_step(v, TileKernel::AddBlockOffsets { level: 1 }, prefix_slot_dispatch(3));
    push_step(v, TileKernel::AddBlockOffsets { level: 0 }, prefix_slot_dispatch(4));
    push_step(v, TileKernel::BuildTotalPairs, one);
    proof {
        assert(v@ =~= start + spec_prefix_scan_steps());
    }
}

/// The passes of the prefix scan, in the order they are encoded.
pub fn prefix_scan_steps() -> (r: Vec<TileStep>)
    ensures
        r@ == spec_prefix_scan_steps(),
{
    let mut v: Vec<TileStep> = Vec::new();
    push_prefix_scan_steps(&mut v);
    proof {
        assert(v@ =~= spec_prefix_scan_steps());
    }
    v
}

/// The passes of a frame after preprocessing, in the order they are
/// encoded, for the buffers and tile grid of `plan`.
pub fn tile_sort_steps(plan: &TileBufferPlan) -> (r: Vec<TileStep>)
    ensures
        r@ == spec_tile_sort_steps(*plan),
{
    let mut v: Vec<TileStep> = Vec::new();
    push_prefix_scan_steps(&mut v);
    push_step(&mut v, TileKernel::Duplicate, prefix_slot_dispatch(0));
    push_step(&mut v, TileKernel::BuildRadixArgs, Dispatch::Workgroups { x: 1, y: 1, z: 1 });
    let ghost head = v@;
    let radix = Dispatch::Indirect { args: GpuBuffer::RadixDispatchArgs, offset: 0 };
    let mut pass: usize = 0;
    while pass < RADIX_SORT_PASSES
        invariant
            pass <= RADIX_SORT_PASSES,
            v@ == head + spec_radix_pass_steps(pass as nat),
            radix == radix_args(),
        decreases RADIX_SORT_PASSES - pass,
    {
        push_step(&mut v, TileKernel::RadixHistogram { pass: pass as u32 }, radix);
        push_step(&mut v, TileKernel::RadixScatter { pass: pass as u32 }, radix);
        proof {
            assert(v@ =~= head + spec_radix_pass_steps((pass + 1) as nat));
        }
        pass = pass + 1;
    }
    push_step(&mut v, TileKernel::ClearTileRanges, Dispatch::Workgroups { x: plan.clear_tile_ranges_workgroups(), y: 1, z: 1 });
    push_step(&mut v, TileKernel::TileRange, Dispatch::Indirect { args: GpuBuffer::TileRangeDispatchArgs, offset: 0 });
    let (tx, ty, tz) = plan.tile_render_workgroups();
    push_step(&mut v, TileKernel::TileRender, Dispatch::Workgroups { x: tx, y: ty, z: tz });
    proof {
        assert(v@ =~= spec_tile_sort_steps(*plan));
    }
    v
}

/// The indirect passes of the prefix scan each read their own slot of the
/// dispatch buffer, and every slot lies inside it.
pub proof fn lemma_prefix_dispatch_slots()
    ensures
        forall|i: int, j: int| 1 <= i < j <= 5 ==> (#[trigger] spec_prefix_scan_steps()[i]).dispatch
            != (#[trigger] spec_prefix_scan_steps()[j]).dispatch,
        forall|i: int| 1 <= i <= 5 ==> match (#[trigger] spec_prefix_scan_steps()[i]).dispatch {
            Dispatch::Indirect { args, offset } => args == GpuBuffer::PrefixDispatchArgs
                && offset + DISPATCH_INDIRECT_ARGS_BYTES <= DISPATCH_INDIRECT_ARGS_BYTES * PREFIX_DISPATCH_ARGS_COUNT,
            _ => false,
        },
{
}

/// Whether a bind group holds `buffer` with `access`.
pub open spec fn binds(s: Seq<BufferBinding>, buffer: GpuBuffer, access: Access) -> bool {
    exists|k: int| 0 <= k < s.len() && (#[trigger] s[k]).buffer == buffer && s[k].access == access
}

/// Whether a kernel writes `buffer` through a read-write slot.
pub open spec fn kernel_writes(k: TileKernel, buffer: GpuBuffer) -> bool {
    spec_kernel_bindings(k) is Some && binds(spec_kernel_bindings(k)->Some_0, buffer, Access::ReadWrite)
}

/// Whether a pass reads `buffer`: through a read-only slot, or as its
/// indirect dispatch arguments.
pub open spec fn step_reads(st: TileStep, buffer: GpuBuffer) -> bool {
    ||| spec_kernel_bindings(st.kernel) is Some && binds(spec_kernel_bindings(st.kernel)->Some_0, buffer, Access::ReadOnly)
    ||| st.dispatch is Indirect && st.dispatch->Indirect_args == buffer
}

proof fn lemma_radix_pass_steps_shape(n: nat)
    ensures
        spec_radix_pass_steps(n).len() == 2 * n,
        forall|q: int| 0 <= q < n ==> #[trigger] spec_radix_pass_steps(n)[2 * q]
            == step(TileKernel::RadixHistogram { pass: q as u32 }, radix_args())
            && spec_radix_pass_steps(n)[2 * q + 1] == step(TileKernel::RadixScatter { pass: q as u32 }, radix_args()),
    decreases n,
{
    if n > 0 {
        lemma_radix_pass_steps_shape((n - 1) as nat);
        let prev = spec_radix_pass_steps((n - 1) as nat);
        assert forall|q: int| 0 <= q < n implies #[trigger] spec_radix_pass_steps(n)[2 * q]
            == step(TileKernel::RadixHistogram { pass: q as u32 }, radix_args())
            && spec_radix_pass_steps(n)[2 * q + 1] == step(TileKernel::RadixScatter { pass: q as u32 }, radix_args()) by {
            if q < n - 1 {
                assert(prev[2 * q] == spec_radix_pass_steps(n)[2 * q]);
                assert(prev[2 * q + 1] == spec_radix_pass_steps(n)[2 * q + 1]);
            }
        }
    }
}

proof fn lemma_writes_slot(k: TileKernel, idx: int)
    requires
        spec_kernel_bindings(k) is Some,
        0 <= idx < spec_kernel_bindings(k)->Some_0.len(),
        spec_kernel_bindings(k)->Some_0[idx].access == Access::ReadWrite,
    ensures
        kernel_writes(k, spec_kernel_bindings(k)->Some_0[idx].buffer),
{
}

/// Every buffer a pass of the frame reads, through a read-only slot or as
/// its indirect dispatch arguments, was written by the preprocess pass or
/// by an earlier pass of the frame.
pub proof fn lemma_reads_follow_writes(p: TileBufferPlan)
    ensures
        forall|i: int, b: GpuBuffer| 0 <= i < spec_tile_sort_steps(p).len()
            && #[trigger] step_reads(spec_tile_sort_steps(p)[i], b)
            ==> kernel_writes(TileKernel::Preprocess, b)
                || exists|j: int| 0 <= j < i && kernel_writes(#[trigger] spec_tile_sort_steps(p)[j].kernel, b),
{
    let st = spec_tile_sort_steps(p);
    let pre = spec_prefix_scan_steps();
    let rs = spec_radix_pass_steps(RADIX_SORT_PASSES as nat);
    lemma_radix_pass_steps_shape(RADIX_SORT_PASSES as nat);
    assert(st.len() == 28);
    assert forall|i: int| 0 <= i < 7 implies #[trigger] st[i] == pre[i] by {}
    assert forall|q: int| 0 <= q < 8 implies #[trigger] st[9 + 2 * q] == rs[2 * q] && st[10 + 2 * q] == rs[2 * q + 1] by {}
    // what each producing pass writes
    lemma_writes_slot(TileKernel::BuildDispatchArgs, 1);
    lemma_writes_slot(TileKernel::BuildDispatchArgs, 2);
    lemma_writes_slot(TileKernel::Scan { level: 0 }, 3);
    lemma_writes_slot(TileKernel::Scan { level: 0 }, 4);
    lemma_writes_slot(TileKernel::Scan { level: 1 }, 3);
    lemma_writes_slot(TileKernel::Scan { level: 1 }, 4);
    lemma_writes_slot(TileKernel::Scan { level: 2 }, 3);
    lemma_writes_slot(TileKernel::BuildTotalPairs, 2);
    lemma_writes_slot(TileKernel::Duplicate, 3);
    lemma_writes_slot(TileKernel::Duplicate, 4);
    lemma_writes_slot(TileKernel::BuildRadixArgs, 1);
    lemma_writes_slot(TileKernel::BuildRadixArgs, 2);
    lemma_writes_slot(TileKernel::BuildRadixArgs, 3);
    lemma_writes_slot(TileKernel::Preprocess, 2);
    lemma_writes_slot(TileKernel::Preprocess, 3);
    assert forall|i: int, b: GpuBuffer| 0 <= i < st.len() && #[trigger] step_reads(st[i], b)
        implies kernel_writes(TileKernel::Preprocess, b)
            || exists|j: int| 0 <= j < i && kernel_writes(#[trigger] st[j].kernel, b) by {
        if i < 7 {
            assert(st[0].kernel == TileKernel::BuildDispatchArgs);
            assert(st[1].kernel == TileKernel::Scan { level: 0 });
            assert(st[2].kernel == TileKernel::Scan { level: 1 });
            assert(st[3].kernel == TileKernel::Scan { level: 2 });
        } else if i == 7 {
            assert(st[0].kernel == TileKernel::BuildDispatchArgs);
            assert(st[1].kernel == TileKernel::Scan { level: 0 });
        } else if i == 8 {
            assert(st[6].kernel == TileKernel::BuildTotalPairs);
        } else if i < 25 {
            let q = (i - 9) / 2;
            assert(st[8].kernel == TileKernel::BuildRadixArgs);
            assert(st[7].kernel == TileKernel::Duplicate);
            let sides = spec_radix_pass_buffers(q);
            if q > 0 {
                let prev = TileKernel::RadixScatter { pass: (q - 1) as u32 };
                assert(st[9 + 2 * (q - 1)] == rs[2 * (q - 1)]);
                assert(rs[2 * (q - 1)] == step(TileKernel::RadixHistogram { pass: (q - 1) as u32 }, radix_args()));
                assert(st[8 + 2 * q].kernel == prev);
                lemma_writes_slot(prev, 3);
                lemma_writes_slot(prev, 5);
                assert(spec_radix_pass_buffers(q - 1).keys_out == sides.keys_in);
                assert(spec_radix_pass_buffers(q - 1).values_out == sides.values_in);
            }
            if i == 10 + 2 * q {
                let hist = TileKernel::RadixHistogram { pass: q as u32 };
                assert(st[9 + 2 * q].kernel == hist);
                lemma_writes_slot(hist, 3);
            }
        } else if i == 26 {
            let last = TileKernel::RadixScatter { pass: 7 };
            assert(st[24].kernel == last);
            lemma_writes_slot(last, 3);
            assert(st[6].kernel == TileKernel::BuildTotalPairs);
            assert(st[8].kernel == TileKernel::BuildRadixArgs);
        }
    }
}

/// A kernel of the global-sort pipeline after preprocessing.
#[derive(Debug, Clone, Copy, PartialEq, Eq, Structural)]
pub enum GlobalKernel {
    BuildIndirectArgs,
    RadixHistogram { pass: u32 },
    RadixScatter { pass: u32 },
    /// The splat draw.
    Render,
}

/// One pass of the global-sort pipeline.
#[derive(Debug, Clone, Copy, PartialEq, Eq, Structural)]
pub struct GlobalStep {
    pub kernel: GlobalKernel,
    pub dispatch: Dispatch,
}

/// The kernels that exist: one histogram and one scatter kernel per radix pass.
pub open spec fn global_kernel_valid(k: GlobalKernel) -> bool {
    match k {
        GlobalKernel::RadixHistogram { pass } => pass < GLOBAL_RADIX_SORT_PASSES,
        GlobalKernel::RadixScatter { pass } => pass < GLOBAL_RADIX_SORT_PASSES,
        _ => true,
    }
}

/// The sort key buffer a radix pass side names.
pub open spec fn global_keys(b: SortBuffer) -> GpuBuffer {
    match b {
        SortBuffer::Primary => GpuBuffer::SortKeys,
        SortBuffer::Scratch => GpuBuffer::SortKeysTmp,
    }
}

/// The sort value buffer a radix pass side names.
pub open spec fn global_values(b: SortBuffer) -> GpuBuffer {
    match b {
        SortBuffer::Primary => GpuBuffer::SortValues,
        SortBuffer::Scratch => GpuBuffer::SortValuesTmp,
    }
}

/// The bind group of each global-sort kernel, slot by slot.
pub open spec fn spec_global_kernel_bindings(k: GlobalKernel) -> Seq<BufferBinding> {
    match k {
        GlobalKernel::BuildIndirectArgs => seq![
            bb(0, GpuBuffer::VisibleCount, Access::ReadWrite),
            bb(1, GpuBuffer::RadixDispatchArgs, Access::ReadWrite),
            bb(2, GpuBuffer::RadixParams, Access::ReadWrite),
            bb(3, GpuBuffer::DrawIndirectArgs, Access::ReadWrite),
        ],
        GlobalKernel::RadixHistogram { pass } => seq![
            bb(0, GpuBuffer::PassIndex { pass }, Access::Uniform),
            bb(1, GpuBuffer::RadixParams, Access::ReadOnly),
            bb(2, global_keys(spec_radix_pass_buffers(pass as int).keys_in), Access::ReadOnly),
            bb(3, GpuBuffer::RadixHistograms, Access::ReadWrite),
        ],
        GlobalKernel::RadixScatter { pass } => seq![
            bb(0, GpuBuffer::PassIndex { pass }, Access::Uniform),
            bb(1, GpuBuffer::RadixParams, Access::ReadOnly),
            bb(2, global_keys(spec_radix_pass_buffers(pass as int).keys_in), Access::ReadOnly),
            bb(3, global_keys(spec_radix_pass_buffers(pass as int).keys_out), Access::ReadWrite),
            bb(4, global_values(spec_radix_pass_buffers(pass as int).values_in), Access::ReadOnly),
            bb(5, global_values(spec_radix_pass_buffers(pass as int).values_out), Access::ReadWrite),
            bb(6, GpuBuffer::RadixHistograms, Access::ReadOnly),
        ],
        GlobalKernel::Render => seq![
            bb(0, GpuBuffer::SceneUniform, Access::Uniform),
            bb(1, GpuBuffer::PreprocessOutput, Access::ReadOnly),
            bb(2, GpuBuffer::SortValues, Access::ReadOnly),
        ],
    }
}

fn global_keys_buffer(b: SortBuffer) -> (r: GpuBuffer)
    ensures
        r == global_keys(b),
{
    match b {
        SortBuffer::Primary => GpuBuffer::SortKeys,
        SortBuffer::Scratch => GpuBuffer::SortKeysTmp,
    }
}

fn global_values_buffer(b: SortBuffer) -> (r: GpuBuffer)
    ensures
        r == global_values(b),
{
    match b {
        SortBuffer::Primary => GpuBuffer::SortValues,
        SortBuffer::Scratch => GpuBuffer::SortValuesTmp,
    }
}

/// The buffer slots of a global-sort kernel's bind group, in slot order.
pub fn global_kernel_bindings(kernel: GlobalKernel) -> (r: Vec<BufferBinding>)
    requires
        global_kernel_valid(kernel),
    ensures
        r@ == spec_global_kernel_bindings(kernel),
{
    let mut v: Vec<BufferBinding> = Vec::new();
    match kernel {
        GlobalKernel::BuildIndirectArgs => {
            push_binding(&mut v, GpuBuffer::VisibleCount, Access::ReadWrite);
            push_binding(&mut v, GpuBuffer::RadixDispatchArgs, Access::ReadWrite);
            push_binding(&mut v, GpuBuffer::RadixParams, Access::ReadWrite);
            push_binding(&mut v, GpuBuffer::DrawIndirectArgs, Access::ReadWrite);
        },
        GlobalKernel::RadixHistogram { pass } => {
            let sides = radix_pass_buffers(pass as usize);
            push_binding(&mut v, GpuBuffer::PassIndex { pass }, Access::Uniform);
            push_binding(&mut v, GpuBuffer::RadixParams, Access::ReadOnly);
            push_binding(&mut v, global_keys_buffer(sides.keys_in), Access::ReadOnly);
            push_binding(&mut v, GpuBuffer::RadixHistograms, Access::ReadWrite);
        },
        GlobalKernel::RadixScatter { pass } => {
            let sides = radix_pass_buffers(pass as usize);
            push_binding(&mut v, GpuBuffer::PassIndex { pass }, Access::Uniform);
            push_binding(&mut v, GpuBuffer::RadixParams, Access::ReadOnly);
            push_binding(&mut v, global_keys_buffer(sides.keys_in), Access::ReadOnly);
            push_binding(&mut v, global_keys_buffer(sides.keys_out), Access::ReadWrite);
            push_binding(&mut v, global_values_buffer(sides.values_in), Access::ReadOnly);
            push_binding(&mut v, global_values_buffer(sides.values_out), Access::ReadWrite);
            push_binding(&mut v, GpuBuffer::RadixHistograms, Access::ReadOnly);
        },
        GlobalKernel::Render => {
            push_binding(&mut v, GpuBuffer::SceneUniform, Access::Uniform);
            push_binding(&mut v, GpuBuffer::PreprocessOutput, Access::ReadOnly);
            push_binding(&mut v, GpuBuffer::SortValues, Access::ReadOnly);
        },
    }
    proof {
        assert(v@ =~= spec_global_kernel_bindings(kernel));
    }
    v
}

/// The first `n` global radix passes, each a histogram then a scatter.
pub open spec fn spec_global_radix_steps(n: nat) -> Seq<GlobalStep>
    decreases n,
{
    if n == 0 {
        Seq::empty()
    } else {
        spec_global_radix_steps((n - 1) as nat) + seq![
            GlobalStep { kernel: GlobalKernel::RadixHistogram { pass: (n - 1) as u32 }, dispatch: radix_args() },
            GlobalStep { kernel: GlobalKernel::RadixScatter { pass: (n - 1) as u32 }, dispatch: radix_args() },
        ]
    }
}

/// The passes of a global-sort frame after preprocessing: the indirect
/// arguments are built, the keys sorted, and the splats drawn.
pub open spec fn spec_global_sort_steps() -> Seq<GlobalStep> {
    seq![GlobalStep { kernel: GlobalKernel::BuildIndirectArgs, dispatch: once() }]
        + spec_global_radix_steps(GLOBAL_RADIX_SORT_PASSES as nat)
        + seq![GlobalStep {
            kernel: GlobalKernel::Render,
            dispatch: Dispatch::DrawIndirect { args: GpuBuffer::DrawIndirectArgs, offset: 0 },
        }]
}

/// The passes of a global-sort frame after preprocessing, in the order
/// they are encoded.
pub fn global_sort_steps() -> (r: Vec<GlobalStep>)
    ensures
        r@ == spec_global_sort_steps(),
{
    let mut v: Vec<GlobalStep> = Vec::new();
    v.push(GlobalStep { kernel: GlobalKernel::BuildIndirectArgs, dispatch: Dispatch::Workgroups { x: 1, y: 1, z: 1 } });
    let ghost head = v@;
    let radix = Dispatch::Indirect { args: GpuBuffer::RadixDispatchArgs, offset: 0 };
    let mut pass: usize = 0;
    while pass < GLOBAL_RADIX_SORT_PASSES
        invariant
            pass <= GLOBAL_RADIX_SORT_PASSES,
            v@ == head + spec_global_radix_steps(pass as nat),
            head == seq![GlobalStep { kernel: GlobalKernel::BuildIndirectArgs, dispatch: once() }],
            radix == radix_args(),
        decreases GLOBAL_RADIX_SORT_PASSES - pass,
    {
        v.push(GlobalStep { kernel: GlobalKernel::RadixHistogram { pass: pass as u32 }, dispatch: radix });
        v.push(GlobalStep { kernel: GlobalKernel::RadixScatter { pass: pass as u32 }, dispatch: radix });
        proof {
            assert(v@ =~= head + spec_global_radix_steps((pass + 1) as nat));
        }
        pass = pass + 1;
    }
    v.push(GlobalStep {
        kernel: GlobalKernel::Render,
        dispatch: Dispatch::DrawIndirect { args: GpuBuffer::DrawIndirectArgs, offset: 0 },
    });
    proof {
        assert(v@ =~= spec_global_sort_steps());
    }
    v
}

/// Whether a global-sort pass reads `buffer`: through a read-only slot, or
/// as its indirect dispatch or draw arguments.
pub open spec fn global_step_reads(st: GlobalStep, buffer: GpuBuffer) -> bool {
    ||| binds(spec_global_kernel_bindings(st.kernel), buffer, Access::ReadOnly)
    ||| st.dispatch is Indirect && st.dispatch->Indirect_args == buffer
    ||| st.dispatch is DrawIndirect && st.dispatch->DrawIndirect_args == buffer
}

/// What the global sort starts from: the preprocessed splats and the keys
/// and values to sort.
pub open spec fn global_sort_input(buffer: GpuBuffer) -> bool {
    buffer == GpuBuffer::PreprocessOutput || buffer == GpuBuffer::SortKeys || buffer == GpuBuffer::SortValues
}

proof fn lemma_global_radix_steps_shape(n: nat)
    ensures
        spec_global_radix_steps(n).len() == 2 * n,
        forall|q: int| 0 <= q < n ==> #[trigger] spec_global_radix_steps(n)[2 * q]
            == (GlobalStep { kernel: GlobalKernel::RadixHistogram { pass: q as u32 }, dispatch: radix_args() })
            && spec_global_radix_steps(n)[2 * q + 1]
            == (GlobalStep { kernel: GlobalKernel::RadixScatter { pass: q as u32 }, dispatch: radix_args() }),
    decreases n,
{
    if n > 0 {
        lemma_global_radix_steps_shape((n - 1) as nat);
        let prev = spec_global_radix_steps((n - 1) as nat);
        assert forall|q: int| 0 <= q < n implies #[trigger] spec_global_radix_steps(n)[2 * q]
            == (GlobalStep { kernel: GlobalKernel::RadixHistogram { pass: q as u32 }, dispatch: radix_args() })
            && spec_global_radix_steps(n)[2 * q + 1]
            == (GlobalStep { kernel: GlobalKernel::RadixScatter { pass: q as u32 }, dispatch: radix_args() }) by {
            if q < n - 1 {
                assert(prev[2 * q] == spec_global_radix_steps(n)[2 * q]);
                assert(prev[2 * q + 1] == spec_global_radix_steps(n)[2 * q + 1]);
            }
        }
    }
}

proof fn lemma_global_writes_slot(k: GlobalKernel, idx: int)
    requires
        0 <= idx < spec_global_kernel_bindings(k).len(),
        spec_global_kernel_bindings(k)[idx].access == Access::ReadWrite,
    ensures
        binds(spec_global_kernel_bindings(k), spec_global_kernel_bindings(k)[idx].buffer, Access::ReadWrite),
{
}

/// In a global-sort frame every buffer a pass reads is one the sort starts
/// from or was written by an earlier pass, and the draw reads the values
/// where the last radix pass left them.
pub proof fn lemma_global_reads_follow_writes()
    ensures
        forall|i: int, b: GpuBuffer| 0 <= i < spec_global_sort_steps().len()
            && #[trigger] global_step_reads(spec_global_sort_steps()[i], b)
            ==> global_sort_input(b)
                || exists|j: int| 0 <= j < i && binds(
                    spec_global_kernel_bindings(#[trigger] spec_global_sort_steps()[j].kernel), b, Access::ReadWrite),
        spec_global_sort_steps().last().kernel == GlobalKernel::Render,
        binds(spec_global_kernel_bindings(GlobalKernel::Render), GpuBuffer::SortValues, Access::ReadOnly),
        binds(spec_global_kernel_bindings(GlobalKernel::RadixScatter { pass: (GLOBAL_RADIX_SORT_PASSES - 1) as u32 }),
            GpuBuffer::SortValues, Access::ReadWrite),
{
    let st = spec_global_sort_steps();
    let rs = spec_global_radix_steps(GLOBAL_RADIX_SORT_PASSES as nat);
    lemma_global_radix_steps_shape(GLOBAL_RADIX_SORT_PASSES as nat);
    assert(st.len() == 10);
    assert forall|q: int| 0 <= q < 4 implies #[trigger] st[1 + 2 * q] == rs[2 * q] && st[2 + 2 * q] == rs[2 * q + 1] by {}
    let first = GlobalKernel::BuildIndirectArgs;
    assert(st[0].kernel == first);
    lemma_global_writes_slot(first, 1);
    lemma_global_writes_slot(first, 2);
    lemma_global_writes_slot(first, 3);
    lemma_global_writes_slot(GlobalKernel::RadixScatter { pass: 3 }, 5);
    assert(spec_global_kernel_bindings(GlobalKernel::Render)[2].buffer == GpuBuffer::SortValues);
    assert forall|i: int, b: GpuBuffer| 0 <= i < st.len() && #[trigger] global_step_reads(st[i], b)
        implies global_sort_input(b)
            || exists|j: int| 0 <= j < i && binds(spec_global_kernel_bindings(#[trigger] st[j].kernel), b, Access::ReadWrite) by {
        if 1 <= i < 9 {
            let q = (i - 1) / 2;
            let sides = spec_radix_pass_buffers(q);
            if q > 0 {
                let prev = GlobalKernel::RadixScatter { pass: (q - 1) as u32 };
                assert(st[1 + 2 * (q - 1)] == rs[2 * (q - 1)]);
                assert(st[2 * q].kernel == prev);
                lemma_global_writes_slot(prev, 3);
                lemma_global_writes_slot(prev, 5);
                assert(spec_radix_pass_buffers(q - 1).keys_out == sides.keys_in);
                assert(spec_radix_pass_buffers(q - 1).values_out == sides.values_in);
            }
            if i == 2 + 2 * q {
                let hist = GlobalKernel::RadixHistogram { pass: q as u32 };
                assert(st[1 + 2 * q].kernel == hist);
                lemma_global_writes_slot(hist, 3);
            }
        }
    }
}

/// Every global-sort bind group numbers its slots from 0 without gaps and
/// binds no buffer twice.
pub proof fn lemma_global_bindings_well_formed(k: GlobalKernel)
    requires
        global_kernel_valid(k),
    ensures
        forall|i: int| 0 <= i < spec_global_kernel_bindings(k).len()
            ==> (#[trigger] spec_global_kernel_bindings(k)[i]).binding == i,
        forall|i: int, j: int| 0 <= i < j < spec_global_kernel_bindings(k).len()
            ==> (#[trigger] spec_global_kernel_bindings(k)[i]).buffer != (#[trigger] spec_global_kernel_bindings(k)[j]).buffer,
{
}

} // verus!
