use mhdm::config::JACOBI_ITERATIONS;
use mhdm::schedule::{
    compute_bindings, plan_compute_pass, render_bindings, render_group, start_group, BindGroup,
    BufferRole, ComputeStage, GridBuffer, RenderGroup,
};

fn stages() -> Vec<ComputeStage> {
    plan_compute_pass(BindGroup::A, 200, 112, 15000).dispatches.iter().map(|d| d.stage).collect()
}

#[test]
fn plan_has_every_kernel_in_order() {
    let s = stages();
    let j = JACOBI_ITERATIONS as usize;
    assert_eq!(s.len(), 5 + 2 * (j + 2) + 1);
    assert_eq!(
        &s[..6],
        &[
            ComputeStage::Interaction,
            ComputeStage::Advection,
            ComputeStage::Induction,
            ComputeStage::CurrentDensity,
            ComputeStage::LorentzForce,
            ComputeStage::FluidDivergence,
        ]
    );
    assert!(s[6..6 + j].iter().all(|&k| k == ComputeStage::FluidJacobi));
    assert_eq!(s[6 + j], ComputeStage::PressureGradient);
    assert_eq!(s[7 + j], ComputeStage::MagneticDivergence);
    assert!(s[8 + j..8 + 2 * j].iter().all(|&k| k == ComputeStage::MagneticJacobi));
    assert_eq!(s[8 + 2 * j], ComputeStage::PotentialGradient);
    assert_eq!(s[9 + 2 * j], ComputeStage::Particles);
}

#[test]
fn jacobi_sweeps_are_forty_each() {
    let s = stages();
    assert_eq!(s.iter().filter(|&&k| k == ComputeStage::FluidJacobi).count(), 40);
    assert_eq!(s.iter().filter(|&&k| k == ComputeStage::MagneticJacobi).count(), 40);
}

#[test]
fn bind_groups_ping_pong() {
    let plan = plan_compute_pass(BindGroup::A, 200, 112, 15000);
    let d = &plan.dispatches;
    for (i, x) in d[..d.len() - 1].iter().enumerate() {
        let expected = if i % 2 == 0 { BindGroup::A } else { BindGroup::B };
        assert_eq!(x.bind_group, expected);
    }
    // 89 grid kernels: the last one runs on A, so the particles read through B.
    assert_eq!(d[d.len() - 2].bind_group, BindGroup::A);
    assert_eq!(d[d.len() - 1].bind_group, BindGroup::B);
    assert!(!plan.ends_on_a);
    assert_eq!(render_group(plan.ends_on_a), RenderGroup::ReadingB);
}

#[test]
fn workgroups_cover_grid_and_particles() {
    let plan = plan_compute_pass(BindGroup::A, 201, 112, 15000);
    let d = &plan.dispatches;
    for x in &d[..d.len() - 1] {
        assert_eq!((x.workgroups_x, x.workgroups_y, x.workgroups_z), (26, 14, 1));
    }
    let p = d[d.len() - 1];
    assert_eq!((p.workgroups_x, p.workgroups_y, p.workgroups_z), (235, 1, 1));
}

#[test]
fn empty_grid_dispatches_no_workgroups() {
    let plan = plan_compute_pass(BindGroup::B, 0, 0, 0);
    assert!(plan.dispatches.iter().all(|d| d.workgroups_x == 0));
}

#[test]
fn render_group_follows_parity() {
    assert_eq!(render_group(true), RenderGroup::ReadingA);
    assert_eq!(render_group(false), RenderGroup::ReadingB);
}

#[test]
fn compute_bindings_swap_grid_buffers() {
    assert_eq!(
        compute_bindings(BindGroup::A),
        [
            BufferRole::SimParams,
            BufferRole::Grid(GridBuffer::In),
            BufferRole::Grid(GridBuffer::Out),
            BufferRole::Particles,
        ]
    );
    assert_eq!(
        compute_bindings(BindGroup::B),
        [
            BufferRole::SimParams,
            BufferRole::Grid(GridBuffer::Out),
            BufferRole::Grid(GridBuffer::In),
            BufferRole::Particles,
        ]
    );
}

#[test]
fn render_bindings_show_one_grid() {
    assert_eq!(
        render_bindings(RenderGroup::ReadingA),
        [BufferRole::SimParams, BufferRole::Grid(GridBuffer::In)]
    );
    assert_eq!(
        render_bindings(RenderGroup::ReadingB),
        [BufferRole::SimParams, BufferRole::Grid(GridBuffer::Out)]
    );
}

#[test]
fn each_kernel_reads_what_the_previous_wrote() {
    let plan = plan_compute_pass(BindGroup::A, 200, 112, 15000);
    let d = &plan.dispatches;
    for i in 1..d.len() {
        let prev_writes = compute_bindings(d[i - 1].bind_group)[2];
        let reads = compute_bindings(d[i].bind_group)[1];
        assert_eq!(prev_writes, reads);
    }
    let last_write = compute_bindings(d[d.len() - 2].bind_group)[2];
    assert_eq!(render_bindings(render_group(plan.ends_on_a))[1], last_write);
}

#[test]
fn plan_starting_on_b_mirrors_a() {
    let plan = plan_compute_pass(BindGroup::B, 200, 112, 15000);
    let d = &plan.dispatches;
    assert_eq!(d[0].bind_group, BindGroup::B);
    assert_eq!(d[1].bind_group, BindGroup::A);
    assert_eq!(d[d.len() - 2].bind_group, BindGroup::B);
    assert_eq!(d[d.len() - 1].bind_group, BindGroup::A);
    assert!(plan.ends_on_a);
    assert_eq!(render_group(plan.ends_on_a), RenderGroup::ReadingA);
}

#[test]
fn next_step_reads_what_the_last_step_wrote() {
    let first = plan_compute_pass(BindGroup::A, 200, 112, 15000);
    let last_write = compute_bindings(first.dispatches[first.dispatches.len() - 2].bind_group)[2];
    let next_start = start_group(render_group(first.ends_on_a));
    assert_eq!(next_start, BindGroup::B);
    assert_eq!(compute_bindings(next_start)[1], last_write);
    let second = plan_compute_pass(next_start, 200, 112, 15000);
    let last_write2 = compute_bindings(second.dispatches[second.dispatches.len() - 2].bind_group)[2];
    assert_eq!(start_group(render_group(second.ends_on_a)), BindGroup::A);
    assert_eq!(compute_bindings(BindGroup::A)[1], last_write2);
}
