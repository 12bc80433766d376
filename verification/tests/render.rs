use blitz_canvas::render::{GpuOp, RenderLoop, Scene};
use blitz_canvas::EngineError;

#[test]
fn render_submits_once_presents_once_and_clears_the_scene() {
    // A render at 800x600 with scale 2.0 performs exactly one GPU submission
    // and one present, and the scene is empty immediately after return.
    let mut looper = RenderLoop::new(800, 600, 200);
    assert_eq!(looper.scene_len(), 0);
    let plan = looper.render(true, vec![101, 102, 103]).unwrap();
    assert_eq!(plan.width, 800);
    assert_eq!(plan.height, 600);
    assert_eq!(plan.scale_hundredths, 200);
    assert_eq!(plan.commands, vec![101, 102, 103]);
    assert_eq!(plan.ops, vec![GpuOp::Submit, GpuOp::Present]);
    assert_eq!(plan.ops.iter().filter(|op| **op == GpuOp::Submit).count(), 1);
    assert_eq!(plan.ops.iter().filter(|op| **op == GpuOp::Present).count(), 1);
    assert_eq!(looper.scene_len(), 0);
}

#[test]
fn unavailable_frame_fails_with_surface_error() {
    let mut looper = RenderLoop::new(320, 200, 100);
    let r = looper.render(false, vec![1]);
    match r {
        Err(e) => assert_eq!(e, EngineError::SurfaceError),
        Ok(_) => panic!("an unavailable frame must fail"),
    }
    assert_eq!(looper.scene_len(), 0);
}

#[test]
fn consecutive_frames_start_from_an_empty_scene() {
    let mut looper = RenderLoop::new(100, 100, 100);
    let first = looper.render(true, vec![1, 2]).unwrap();
    assert_eq!(first.commands, vec![1, 2]);
    // No incremental diff: the second frame holds only its own commands.
    let second = looper.render(true, vec![9]).unwrap();
    assert_eq!(second.commands, vec![9]);
    assert_eq!(looper.scene_len(), 0);
}

#[test]
fn resize_rebuilds_geometry_and_empties_the_scene() {
    let mut looper = RenderLoop::new(100, 100, 100);
    looper.resize(640, 480, 150);
    assert_eq!(looper.width(), 640);
    assert_eq!(looper.height(), 480);
    assert_eq!(looper.scale_hundredths(), 150);
    assert_eq!(looper.scene_len(), 0);
}

#[test]
fn scene_records_and_resets_commands() {
    let mut scene = Scene::new();
    assert!(scene.is_empty());
    scene.push(5);
    scene.push(6);
    assert_eq!(scene.len(), 2);
    scene.reset();
    assert!(scene.is_empty());
}
