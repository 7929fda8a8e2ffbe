use splat_viewer::scene::{should_request_redraw, SceneType};

#[test]
fn only_4d_scenes_are_dynamic() {
    assert!(!SceneType::Gaussian3d.is_dynamic());
    assert!(SceneType::Gaussian4d.is_dynamic());
}

#[test]
fn redraw_continues_while_camera_moves_or_scene_animates() {
    assert!(!should_request_redraw(false, SceneType::Gaussian3d));
    assert!(should_request_redraw(true, SceneType::Gaussian3d));
    assert!(should_request_redraw(false, SceneType::Gaussian4d));
    assert!(should_request_redraw(true, SceneType::Gaussian4d));
}
