use splat_viewer::buffer_plan::{prefix_dispatch_offset, preprocess_workgroups, GaussianResourcesPlan, GlobalSortBufferPlan, TileBufferPlan};
use splat_viewer::gpu_types::{DuplicateParams, PrefixLevelParams, RadixPassIndex};
use splat_viewer::render_plan::{
    choose_surface_format, frame_status, radix_pass_buffers, surface_texture_action, RenderPlan, RenderStatus,
    SortBuffer, SurfaceAcquire, SurfaceFormatKind, SurfaceLost, SurfaceSize, SurfaceTextureStatus,
};
use splat_viewer::scene::SceneType;

#[test]
fn empty_scene_keeps_one_slot() {
    let p = TileBufferPlan::new(0, 0, 0);
    assert_eq!(p.gaussian_count, 1);
    assert_eq!(p.max_pairs, 32);
    assert_eq!((p.max_blocks0, p.max_blocks1, p.max_blocks2), (1, 1, 1));
    assert_eq!((p.tiles_width, p.tiles_height, p.tile_count), (1, 1, 1));
    assert_eq!(p.preprocess_output_size, 64);
    assert_eq!(p.pair_keys_size, 256);
    assert_eq!(p.pair_values_size, 128);
    assert_eq!(p.tile_ranges_size, 8);
}

#[test]
fn tile_plan_for_full_hd() {
    let p = TileBufferPlan::new(100_000, 1920, 1080);
    assert_eq!(p.gaussian_count, 100_000);
    assert_eq!(p.max_pairs, 3_200_000);
    assert_eq!(p.max_blocks0, 391);
    assert_eq!(p.max_blocks1, 2);
    assert_eq!(p.max_blocks2, 1);
    assert_eq!(p.radix_histogram_len, 65536);
    assert_eq!((p.tiles_width, p.tiles_height, p.tile_count), (120, 68, 8160));
    assert_eq!(p.preprocess_output_size, 6_400_000);
    assert_eq!(p.tiles_touched_size, 400_000);
    assert_eq!(p.offsets_size, 400_000);
    assert_eq!(p.visible_count_size, 4);
    assert_eq!(p.prefix_dispatch_args_size, 80);
    assert_eq!(p.prefix_counts_size, 16);
    assert_eq!(p.block_sums0_size, 1564);
    assert_eq!(p.block_offsets1_size, 8);
    assert_eq!(p.block_sums2_size, 4);
    assert_eq!(p.pair_keys_size, 25_600_000);
    assert_eq!(p.pair_values_tmp_size, 12_800_000);
    assert_eq!(p.radix_histograms_size, 262_144);
    assert_eq!(p.total_pairs_size, 16);
    assert_eq!(p.radix_params_size, 128);
    assert_eq!(p.radix_dispatch_args_size, 16);
    assert_eq!(p.tile_range_dispatch_args_size, 16);
    assert_eq!(p.tile_ranges_size, 65_280);
    assert_eq!(p.clear_tile_ranges_workgroups(), 32);
    assert_eq!(p.tile_render_workgroups(), (120, 68, 1));
    assert_eq!(
        p.duplicate_params(),
        DuplicateParams { tiles_width: 120, tiles_height: 68, max_pairs: 3_200_000, _pad: 0 }
    );
    assert_eq!(p.pair_count_params().max_pairs, 3_200_000);
    assert_eq!(p.tile_range_params().tile_count, 8160);
}

#[test]
fn scan_levels_grow_with_gaussians() {
    let p = TileBufferPlan::new(256 * 256 * 256, 16, 16);
    assert_eq!((p.max_blocks0, p.max_blocks1, p.max_blocks2), (65536, 256, 1));
    let q = TileBufferPlan::new(256 * 256 * 256 + 1, 16, 16);
    assert_eq!((q.max_blocks0, q.max_blocks1, q.max_blocks2), (65537, 257, 2));
}

#[test]
fn resize_only_changes_tile_grid() {
    let mut p = TileBufferPlan::new(5000, 800, 600);
    let before = p;
    assert_eq!((p.tiles_width, p.tiles_height), (50, 38));
    p.resize(33, 17);
    assert_eq!((p.tiles_width, p.tiles_height, p.tile_count), (3, 2, 6));
    assert_eq!(p.tile_ranges_size, 48);
    assert_eq!(p.max_pairs, before.max_pairs);
    assert_eq!(p.pair_keys_size, before.pair_keys_size);
    assert_eq!(p.preprocess_output_size, before.preprocess_output_size);
}

#[test]
fn global_sort_plan_sizes() {
    let p = GlobalSortBufferPlan::new(0);
    assert_eq!((p.gaussian_count, p.capacity), (0, 1));
    assert_eq!(p.preprocess_output_size, 48);
    let q = GlobalSortBufferPlan::new(1000);
    assert_eq!((q.gaussian_count, q.capacity), (1000, 1000));
    assert_eq!(q.preprocess_output_size, 48_000);
    assert_eq!(q.sort_keys_size, 4000);
    assert_eq!(q.sort_values_tmp_size, 4000);
    assert_eq!(q.visible_count_size, 4);
    assert_eq!(q.radix_params_size, 64);
    assert_eq!(q.radix_dispatch_args_size, 12);
    assert_eq!(q.draw_indirect_args_size, 16);
    assert_eq!(q.radix_histograms_size, 262_144);
}

#[test]
fn dispatch_counts() {
    assert_eq!(preprocess_workgroups(0), None);
    assert_eq!(preprocess_workgroups(1), Some(1));
    assert_eq!(preprocess_workgroups(256), Some(1));
    assert_eq!(preprocess_workgroups(257), Some(2));
    assert_eq!(prefix_dispatch_offset(0), 0);
    assert_eq!(prefix_dispatch_offset(3), 48);
    assert_eq!(prefix_dispatch_offset(4), 64);
    assert_eq!(PrefixLevelParams::new(2).level, 2);
    assert_eq!(RadixPassIndex::new(7).value, 7);
}

#[test]
fn radix_passes_alternate_buffers() {
    let first = radix_pass_buffers(0);
    assert_eq!(first.keys_in, SortBuffer::Primary);
    assert_eq!(first.keys_out, SortBuffer::Scratch);
    assert_eq!(first.values_in, SortBuffer::Primary);
    assert_eq!(first.values_out, SortBuffer::Scratch);
    for k in 0..7 {
        assert_eq!(radix_pass_buffers(k).keys_out, radix_pass_buffers(k + 1).keys_in);
        assert_eq!(radix_pass_buffers(k).values_out, radix_pass_buffers(k + 1).values_in);
    }
    assert_eq!(radix_pass_buffers(3).keys_out, SortBuffer::Primary);
    assert_eq!(radix_pass_buffers(7).values_out, SortBuffer::Primary);
}

#[test]
fn static_scene_computes_only_after_changes() {
    let mut plan = RenderPlan::new(SceneType::Gaussian3d);
    assert!(plan.render());
    assert!(!plan.render());
    plan.update_scene_uniform();
    assert!(plan.render());
    assert!(!plan.render());
    plan.resize();
    assert!(plan.render());
    assert!(!plan.render());
}

#[test]
fn dynamic_scene_computes_every_frame() {
    let mut plan = RenderPlan::new(SceneType::Gaussian4d);
    assert!(plan.render());
    assert!(plan.render());
    assert!(plan.render());
}

#[test]
fn replacing_gaussians_rebuilds_preprocess_on_type_change() {
    let mut plan = RenderPlan::new(SceneType::Gaussian3d);
    assert!(plan.render());
    assert!(!plan.replace_gaussians(SceneType::Gaussian3d));
    assert!(plan.render());
    assert!(plan.replace_gaussians(SceneType::Gaussian4d));
    assert_eq!(plan.scene_type(), SceneType::Gaussian4d);
    assert!(plan.replace_gaussians(SceneType::Gaussian3d));
    assert!(plan.render());
    assert!(!plan.render());
}

#[test]
fn surface_statuses_map_to_actions() {
    assert_eq!(surface_texture_action(SurfaceTextureStatus::Success), (false, SurfaceAcquire::Render));
    assert_eq!(surface_texture_action(SurfaceTextureStatus::Suboptimal), (true, SurfaceAcquire::Render));
    assert_eq!(surface_texture_action(SurfaceTextureStatus::Timeout), (false, SurfaceAcquire::Skip));
    assert_eq!(surface_texture_action(SurfaceTextureStatus::Occluded), (false, SurfaceAcquire::Skip));
    assert_eq!(surface_texture_action(SurfaceTextureStatus::Validation), (false, SurfaceAcquire::Skip));
    assert_eq!(surface_texture_action(SurfaceTextureStatus::Outdated), (true, SurfaceAcquire::Skip));
    assert_eq!(surface_texture_action(SurfaceTextureStatus::Lost), (false, SurfaceAcquire::Lost));
}

#[test]
fn frame_status_outcomes() {
    assert_eq!(frame_status(false, SurfaceAcquire::Render), Ok(RenderStatus::Skipped));
    assert_eq!(frame_status(false, SurfaceAcquire::Lost), Ok(RenderStatus::Skipped));
    assert_eq!(frame_status(true, SurfaceAcquire::Render), Ok(RenderStatus::Submitted));
    assert_eq!(frame_status(true, SurfaceAcquire::Skip), Ok(RenderStatus::Skipped));
    assert_eq!(frame_status(true, SurfaceAcquire::Lost), Err(SurfaceLost));
}

#[test]
fn surface_resize_ignores_zero_and_repeats() {
    let mut size = SurfaceSize::new(0, 600);
    assert_eq!(size, SurfaceSize { width: 1, height: 600 });
    assert!(size.resize(800, 600));
    assert_eq!(size, SurfaceSize { width: 800, height: 600 });
    assert!(!size.resize(800, 600));
    assert!(!size.resize(0, 600));
    assert!(!size.resize(1024, 0));
    assert_eq!(size, SurfaceSize { width: 800, height: 600 });
    assert!(size.resize(1024, 768));
}

#[test]
fn surface_format_preference_order() {
    assert_eq!(choose_surface_format(&[SurfaceFormatKind::OtherSrgb, SurfaceFormatKind::Bgra8Unorm, SurfaceFormatKind::Rgba8Unorm]), Some(2));
    assert_eq!(choose_surface_format(&[SurfaceFormatKind::OtherSrgb, SurfaceFormatKind::OtherLinear, SurfaceFormatKind::Bgra8Unorm]), Some(2));
    assert_eq!(choose_surface_format(&[SurfaceFormatKind::OtherSrgb, SurfaceFormatKind::OtherLinear, SurfaceFormatKind::OtherLinear]), Some(1));
    assert_eq!(choose_surface_format(&[SurfaceFormatKind::OtherSrgb, SurfaceFormatKind::OtherSrgb]), Some(0));
    assert_eq!(choose_surface_format(&[]), None);
}

#[test]
fn gaussian_resources_plan_keeps_zero_count_and_one_slot() {
    let empty = GaussianResourcesPlan::new(0, 1920, 1080);
    assert_eq!(empty.gaussian_count, 0);
    assert_eq!(empty.gaussian_buffer_size, 240);
    assert_eq!(empty.buffers.max_pairs, 32);
    assert_eq!(empty.buffers.tile_count, 120 * 68);
    let plan = GaussianResourcesPlan::new(1000, 1920, 1080);
    assert_eq!(plan.gaussian_count, 1000);
    assert_eq!(plan.gaussian_buffer_size, 240_000);
    assert_eq!(plan.buffers.max_pairs, 32_000);
    assert_eq!(plan.buffers.max_blocks0, 4);
}
