use mhdm::config::{CELL_SIZE, PARTICLE_COUNT};
use mhdm::schedule::{compute_bindings, render_bindings, BindGroup, ComputeStage, RenderGroup};
use mhdm::state::{FrameStep, RenderError, SimParams, State, SurfaceStatus};

#[test]
fn new_lays_out_grid_from_surface() {
    let s = State::new(800, 450);
    assert_eq!(
        s.sim_params(),
        SimParams {
            active_cols: 200,
            active_rows: 112,
            cell_size: CELL_SIZE,
            mouse_left_clicked: 0,
            mouse_right_clicked: 0,
        }
    );
    assert_eq!(s.size(), (800, 450));
    assert_eq!(s.particle_count(), PARTICLE_COUNT);
    assert_eq!(s.display(), RenderGroup::ReadingA);
    assert_eq!(s.grid_extent(), (800, 448));
    assert_eq!(s.cell_count(), 200 * 112);
}

#[test]
fn mouse_clicks_set_and_clear_flags() {
    let mut s = State::new(800, 450);
    s.update_mouse_click(0, true);
    assert_eq!(s.sim_params().mouse_left_clicked, 1);
    s.update_mouse_click(1, true);
    assert_eq!(s.sim_params().mouse_right_clicked, 1);
    s.update_mouse_click(0, false);
    assert_eq!(s.sim_params().mouse_left_clicked, 0);
    assert_eq!(s.sim_params().mouse_right_clicked, 1);
    let before = s.sim_params();
    s.update_mouse_click(7, true);
    assert_eq!(s.sim_params(), before);
}

#[test]
fn resize_ignores_empty_sizes_and_keeps_grid() {
    let mut s = State::new(800, 450);
    assert!(!s.resize(0, 300));
    assert!(!s.resize(300, 0));
    assert_eq!(s.size(), (800, 450));
    assert!(s.resize(1920, 1080));
    assert_eq!(s.size(), (1920, 1080));
    assert_eq!(s.sim_params().active_cols, 200);
    assert_eq!(s.sim_params().active_rows, 112);
}

#[test]
fn render_handles_each_surface_status() {
    let mut s = State::new(800, 450);
    for st in [SurfaceStatus::Timeout, SurfaceStatus::Occluded, SurfaceStatus::Validation] {
        assert!(matches!(s.render(st, false), Ok(FrameStep::Skip)));
    }
    assert!(matches!(s.render(SurfaceStatus::Outdated, false), Ok(FrameStep::Reconfigure)));
    assert!(matches!(s.render(SurfaceStatus::Lost, false), Err(RenderError::DeviceLost)));
    assert_eq!(s.display(), RenderGroup::ReadingA);
}

#[test]
fn running_frame_steps_and_shows_result() {
    let mut s = State::new(800, 450);
    match s.render(SurfaceStatus::Suboptimal, false) {
        Ok(FrameStep::Draw(f)) => {
            let plan = f.compute.expect("a running frame steps the simulation");
            assert_eq!(plan.dispatches.len(), 90);
            assert_eq!(plan.dispatches[0].stage, ComputeStage::Interaction);
            assert_eq!(plan.dispatches[89].stage, ComputeStage::Particles);
            assert_eq!(f.display, RenderGroup::ReadingB);
            assert_eq!((f.field_vertices, f.particle_vertices), (3, 4));
            assert_eq!(f.particle_instances, PARTICLE_COUNT);
        }
        _ => panic!("a usable frame is drawn"),
    }
    assert_eq!(s.display(), RenderGroup::ReadingB);
}

#[test]
fn paused_frame_runs_nothing() {
    let mut s = State::new(800, 450);
    match s.render(SurfaceStatus::Success, true) {
        Ok(FrameStep::Draw(f)) => {
            assert!(f.compute.is_none());
            assert_eq!(f.display, RenderGroup::ReadingA);
        }
        _ => panic!("a usable frame is drawn"),
    }
    let _ = s.render(SurfaceStatus::Success, false);
    match s.render(SurfaceStatus::Success, true) {
        Ok(FrameStep::Draw(f)) => assert_eq!(f.display, RenderGroup::ReadingB),
        _ => panic!("a usable frame is drawn"),
    }
}

#[test]
fn update_matches_state_grid() {
    let s = State::new(3840, 2160);
    let plan = s.update();
    assert_eq!(plan.dispatches[0].workgroups_x, 120);
    assert_eq!(plan.dispatches[0].workgroups_y, 68);
    assert_eq!(plan.dispatches[89].workgroups_x, 235);
}

fn step_of(s: &mut State) -> (mhdm::schedule::ComputePlan, RenderGroup) {
    match s.render(SurfaceStatus::Success, false) {
        Ok(FrameStep::Draw(f)) => (f.compute.expect("a running frame steps"), f.display),
        _ => panic!("a usable frame is drawn"),
    }
}

#[test]
fn consecutive_frames_continue_the_grid() {
    let mut s = State::new(800, 450);
    let (first, shown1) = step_of(&mut s);
    assert_eq!(first.dispatches[0].bind_group, BindGroup::A);
    assert_eq!(shown1, RenderGroup::ReadingB);
    let last_write = compute_bindings(first.dispatches[88].bind_group)[2];
    assert_eq!(render_bindings(shown1)[1], last_write);

    // A paused frame and a resize in between change nothing.
    let _ = s.render(SurfaceStatus::Success, true);
    s.resize(1024, 768);
    let (second, shown2) = step_of(&mut s);
    assert_eq!(second.dispatches[0].bind_group, BindGroup::B);
    assert_eq!(compute_bindings(second.dispatches[0].bind_group)[1], last_write);
    assert_eq!(shown2, RenderGroup::ReadingA);

    let (third, _) = step_of(&mut s);
    assert_eq!(third.dispatches[0].bind_group, BindGroup::A);
}

#[test]
fn click_reaches_later_steps() {
    let mut s = State::new(800, 450);
    s.update_mouse_click(0, true);
    s.update_mouse_click(1, true);
    s.resize(640, 480);
    let _ = s.render(SurfaceStatus::Timeout, false);
    let _ = s.render(SurfaceStatus::Success, false);
    match s.render(SurfaceStatus::Success, false) {
        Ok(FrameStep::Draw(f)) => {
            assert_eq!(f.params.mouse_left_clicked, 1);
            assert_eq!(f.params.mouse_right_clicked, 1);
        }
        _ => panic!("a usable frame is drawn"),
    }
}

#[test]
fn reset_clears_buttons_and_shows_first_buffer() {
    let mut s = State::new(800, 450);
    s.update_mouse_click(0, true);
    let _ = step_of(&mut s);
    s.resize(1024, 768);
    s.reset();
    let p = s.sim_params();
    assert_eq!((p.mouse_left_clicked, p.mouse_right_clicked), (0, 0));
    assert_eq!((p.active_cols, p.active_rows), (200, 112));
    assert_eq!(s.display(), RenderGroup::ReadingA);
    assert_eq!(s.size(), (1024, 768));
    let (plan, _) = step_of(&mut s);
    assert_eq!(plan.dispatches[0].bind_group, BindGroup::A);
}
