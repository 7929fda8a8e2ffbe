use splat_viewer::buffer_plan::TileBufferPlan;
use splat_viewer::pass_wiring::{
    global_kernel_bindings, global_sort_steps, kernel_bindings, prefix_scan_steps, tile_sort_steps, Access,
    BufferBinding, Dispatch, GlobalKernel, GpuBuffer, TileKernel,
};

fn b(binding: u32, buffer: GpuBuffer, access: Access) -> BufferBinding {
    BufferBinding { binding, buffer, access }
}

#[test]
fn scan_level_one_scans_level_zero_block_sums() {
    let v = kernel_bindings(TileKernel::Scan { level: 1 }).unwrap();
    assert_eq!(
        v,
        vec![
            b(0, GpuBuffer::PrefixParams1, Access::Uniform),
            b(1, GpuBuffer::PrefixCounts, Access::ReadOnly),
            b(2, GpuBuffer::BlockSums0, Access::ReadOnly),
            b(3, GpuBuffer::BlockOffsets0, Access::ReadWrite),
            b(4, GpuBuffer::BlockSums1, Access::ReadWrite),
        ]
    );
}

#[test]
fn add_level_zero_updates_offsets_from_block_offsets() {
    let v = kernel_bindings(TileKernel::AddBlockOffsets { level: 0 }).unwrap();
    assert_eq!(
        v,
        vec![
            b(0, GpuBuffer::PrefixParams0, Access::Uniform),
            b(1, GpuBuffer::PrefixCounts, Access::ReadOnly),
            b(2, GpuBuffer::Offsets, Access::ReadWrite),
            b(3, GpuBuffer::BlockOffsets0, Access::ReadOnly),
        ]
    );
}

#[test]
fn duplicate_and_tile_range_bindings() {
    let dup = kernel_bindings(TileKernel::Duplicate).unwrap();
    assert_eq!(dup.len(), 6);
    assert_eq!(dup[2], b(2, GpuBuffer::Offsets, Access::ReadOnly));
    assert_eq!(dup[5], b(5, GpuBuffer::VisibleCount, Access::ReadWrite));
    let range = kernel_bindings(TileKernel::TileRange).unwrap();
    assert_eq!(
        range,
        vec![
            b(0, GpuBuffer::TotalPairs, Access::ReadOnly),
            b(1, GpuBuffer::TileRangeParams, Access::Uniform),
            b(2, GpuBuffer::PairKeys, Access::ReadOnly),
            b(3, GpuBuffer::TileRanges, Access::ReadWrite),
        ]
    );
    assert!(kernel_bindings(TileKernel::TileRender).is_none());
}

#[test]
fn odd_radix_pass_reads_scratch_buffers() {
    let v = kernel_bindings(TileKernel::RadixScatter { pass: 1 }).unwrap();
    assert_eq!(v[2].buffer, GpuBuffer::PairKeysTmp);
    assert_eq!(v[3].buffer, GpuBuffer::PairKeys);
    assert_eq!(v[4].buffer, GpuBuffer::PairValuesTmp);
    assert_eq!(v[5].buffer, GpuBuffer::PairValues);
    assert_eq!(v[0].buffer, GpuBuffer::PassIndex { pass: 1 });
}

#[test]
fn prefix_scan_uses_one_dispatch_slot_per_indirect_pass() {
    let steps = prefix_scan_steps();
    assert_eq!(steps.len(), 7);
    assert_eq!(steps[0].kernel, TileKernel::BuildDispatchArgs);
    assert_eq!(steps[0].dispatch, Dispatch::Workgroups { x: 1, y: 1, z: 1 });
    let kernels: Vec<TileKernel> = steps.iter().map(|s| s.kernel).collect();
    assert_eq!(
        kernels[1..6],
        [
            TileKernel::Scan { level: 0 },
            TileKernel::Scan { level: 1 },
            TileKernel::Scan { level: 2 },
            TileKernel::AddBlockOffsets { level: 1 },
            TileKernel::AddBlockOffsets { level: 0 },
        ]
    );
    for (slot, s) in steps[1..6].iter().enumerate() {
        assert_eq!(s.dispatch, Dispatch::Indirect { args: GpuBuffer::PrefixDispatchArgs, offset: 16 * slot as u64 });
    }
    assert_eq!(steps[6].kernel, TileKernel::BuildTotalPairs);
}

#[test]
fn tile_frame_schedule_for_a_plan() {
    let plan = TileBufferPlan::new(1000, 1920, 1080);
    let steps = tile_sort_steps(&plan);
    assert_eq!(steps.len(), 28);
    assert_eq!(steps[7].kernel, TileKernel::Duplicate);
    assert_eq!(steps[7].dispatch, Dispatch::Indirect { args: GpuBuffer::PrefixDispatchArgs, offset: 0 });
    assert_eq!(steps[8].kernel, TileKernel::BuildRadixArgs);
    assert_eq!(steps[9].kernel, TileKernel::RadixHistogram { pass: 0 });
    assert_eq!(steps[24].kernel, TileKernel::RadixScatter { pass: 7 });
    assert_eq!(steps[25].kernel, TileKernel::ClearTileRanges);
    // 120 x 68 tiles, one thread per tile in groups of 256
    assert_eq!(steps[25].dispatch, Dispatch::Workgroups { x: 32, y: 1, z: 1 });
    assert_eq!(steps[26].dispatch, Dispatch::Indirect { args: GpuBuffer::TileRangeDispatchArgs, offset: 0 });
    assert_eq!(steps[27].kernel, TileKernel::TileRender);
    assert_eq!(steps[27].dispatch, Dispatch::Workgroups { x: 120, y: 68, z: 1 });
}

#[test]
fn tile_frame_reads_only_what_was_written() {
    let plan = TileBufferPlan::new(10, 64, 64);
    let steps = tile_sort_steps(&plan);
    let mut written: Vec<GpuBuffer> = kernel_bindings(TileKernel::Preprocess)
        .unwrap()
        .iter()
        .filter(|x| x.access == Access::ReadWrite)
        .map(|x| x.buffer)
        .collect();
    for s in &steps {
        if let Dispatch::Indirect { args, .. } = s.dispatch {
            assert!(written.contains(&args), "{:?} reads {:?}", s.kernel, args);
        }
        if let Some(group) = kernel_bindings(s.kernel) {
            for x in &group {
                if x.access == Access::ReadOnly {
                    assert!(written.contains(&x.buffer), "{:?} reads {:?}", s.kernel, x.buffer);
                }
            }
            for x in &group {
                if x.access == Access::ReadWrite {
                    written.push(x.buffer);
                }
            }
        }
    }
}

#[test]
fn global_sort_schedule_ends_with_indirect_draw() {
    let steps = global_sort_steps();
    assert_eq!(steps.len(), 10);
    assert_eq!(steps[0].kernel, GlobalKernel::BuildIndirectArgs);
    assert_eq!(steps[7].kernel, GlobalKernel::RadixHistogram { pass: 3 });
    assert_eq!(steps[8].kernel, GlobalKernel::RadixScatter { pass: 3 });
    assert_eq!(steps[9].kernel, GlobalKernel::Render);
    assert_eq!(steps[9].dispatch, Dispatch::DrawIndirect { args: GpuBuffer::DrawIndirectArgs, offset: 0 });
    let last_scatter = global_kernel_bindings(GlobalKernel::RadixScatter { pass: 3 });
    assert_eq!(last_scatter[5], b(5, GpuBuffer::SortValues, Access::ReadWrite));
    assert_eq!(
        global_kernel_bindings(GlobalKernel::Render),
        vec![
            b(0, GpuBuffer::SceneUniform, Access::Uniform),
            b(1, GpuBuffer::PreprocessOutput, Access::ReadOnly),
            b(2, GpuBuffer::SortValues, Access::ReadOnly),
        ]
    );
}
