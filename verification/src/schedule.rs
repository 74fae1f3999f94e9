use vstd::prelude::*;

use crate::config::{GRID_WORKGROUP_SIZE, JACOBI_ITERATIONS, PARTICLE_WORKGROUP_SIZE};
use crate::grid::{workgroup_count, workgroup_count_spec};

verus! {

/// The compute kernels of one simulation step, in the order the shader names them.
#[derive(Clone, Copy, Debug, PartialEq, Eq, Structural)]
pub enum ComputeStage {
    Interaction,
    Advection,
    Induction,
    CurrentDensity,
    LorentzForce,
    FluidDivergence,
    FluidJacobi,
    PressureGradient,
    MagneticDivergence,
    MagneticJacobi,
    PotentialGradient,
    Particles,
}

/// The two grid buffers that the kernels alternate between.
#[derive(Clone, Copy, Debug, PartialEq, Eq, Structural)]
pub enum GridBuffer {
    In,
    Out,
}

/// The two compute bind groups: `A` reads the grid from `In` and writes it to
/// `Out`, `B` the other way round.
#[derive(Clone, Copy, Debug, PartialEq, Eq, Structural)]
pub enum BindGroup {
    A,
    B,
}

/// The two render bind groups: `ReadingA` shows `In`, `ReadingB` shows `Out`.
#[derive(Clone, Copy, Debug, PartialEq, Eq, Structural)]
pub enum RenderGroup {
    ReadingA,
    ReadingB,
}

/// The grid buffer that a compute bind group reads.
pub open spec fn group_reads(g: BindGroup) -> GridBuffer {
    match g {
        BindGroup::A => GridBuffer::In,
        BindGroup::B => GridBuffer::Out,
    }
}

/// The grid buffer that a compute bind group writes.
pub open spec fn group_writes(g: BindGroup) -> GridBuffer {
    match g {
        BindGroup::A => GridBuffer::Out,
        BindGroup::B => GridBuffer::In,
    }
}

/// The grid buffer that a render bind group shows.
pub open spec fn render_group_reads(g: RenderGroup) -> GridBuffer {
    match g {
        RenderGroup::ReadingA => GridBuffer::In,
        RenderGroup::ReadingB => GridBuffer::Out,
    }
}

/// One dispatch of a compute kernel: which kernel, over which bind group, on how
/// many workgroups along each axis.
#[derive(Clone, Copy, Debug, PartialEq, Eq, Structural)]
pub struct Dispatch {
    pub stage: ComputeStage,
    pub bind_group: BindGroup,
    pub workgroups_x: u32,
    pub workgroups_y: u32,
    pub workgroups_z: u32,
}

/// The dispatches of one simulation step, and whether the bind group that comes
/// after the last grid kernel is `A`.
pub struct ComputePlan {
    pub dispatches: Vec<Dispatch>,
    pub ends_on_a: bool,
}

/// Number of grid kernels in one step: five force and transport kernels, then for
/// each of the fluid and the magnetic field a divergence, the Jacobi sweeps and a
/// gradient.
pub open spec fn grid_dispatch_count() -> int {
    5 + 2 * (JACOBI_ITERATIONS + 2)
}

/// The grid kernel that runs `i`-th in a step.
pub open spec fn grid_stage(i: int) -> ComputeStage {
    let j = JACOBI_ITERATIONS as int;
    if i == 0 {
        ComputeStage::Interaction
    } else if i == 1 {
        ComputeStage::Advection
    } else if i == 2 {
        ComputeStage::Induction
    } else if i == 3 {
        ComputeStage::CurrentDensity
    } else if i == 4 {
        ComputeStage::LorentzForce
    } else if i == 5 {
        ComputeStage::FluidDivergence
    } else if i < 6 + j {
        ComputeStage::FluidJacobi
    } else if i == 6 + j {
        ComputeStage::PressureGradient
    } else if i == 7 + j {
        ComputeStage::MagneticDivergence
    } else if i < 8 + 2 * j {
        ComputeStage::MagneticJacobi
    } else {
        ComputeStage::PotentialGradient
    }
}

/// The other compute bind group.
pub open spec fn other_group(g: BindGroup) -> BindGroup {
    match g {
        BindGroup::A => BindGroup::B,
        BindGroup::B => BindGroup::A,
    }
}

/// The compute bind group of the `i`-th dispatch of a step that starts on `start`:
/// the groups alternate.
pub open spec fn group_at(start: BindGroup, i: int) -> BindGroup {
    if i % 2 == 0 {
        start
    } else {
        other_group(start)
    }
}

/// The `i`-th dispatch of a step that starts on bind group `start`, on a grid of
/// `cols` by `rows` cells with `particles` particles: the grid kernels in turn, then
/// the particle kernel on the bind group that follows the last grid kernel.
pub open spec fn planned_dispatch(
    i: int,
    start: BindGroup,
    cols: u32,
    rows: u32,
    particles: u32,
) -> Dispatch {
    if i < grid_dispatch_count() {
        Dispatch {
            stage: grid_stage(i),
            bind_group: group_at(start, i),
            workgroups_x: workgroup_count_spec(cols as int, GRID_WORKGROUP_SIZE as int) as u32,
            workgroups_y: workgroup_count_spec(rows as int, GRID_WORKGROUP_SIZE as int) as u32,
            workgroups_z: 1,
        }
    } else {
        Dispatch {
            stage: ComputeStage::Particles,
            bind_group: group_at(start, grid_dispatch_count()),
            workgroups_x: workgroup_count_spec(particles as int, PARTICLE_WORKGROUP_SIZE as int)
                as u32,
            workgroups_y: 1,
            workgroups_z: 1,
        }
    }
}

/// Appends a grid kernel on the current bind group and flips to the other group.
fn push_grid_dispatch(
    dispatches: &mut Vec<Dispatch>,
    stage: ComputeStage,
    is_a: &mut bool,
    workgroups_x: u32,
    workgroups_y: u32,
)
    ensures
        final(dispatches)@ == old(dispatches)@.push(
            Dispatch {
                stage,
                bind_group: if *old(is_a) {
                    BindGroup::A
                } else {
                    BindGroup::B
                },
                workgroups_x,
                workgroups_y,
                workgroups_z: 1,
            },
        ),
        *final(is_a) == !*old(is_a),
{
    let bind_group = if *is_a {
        BindGroup::A
    } else {
        BindGroup::B
    };
    dispatches.push(Dispatch { stage, bind_group, workgroups_x, workgroups_y, workgroups_z: 1 });
    *is_a = !*is_a;
}

/// What the plan of a step that starts on `start` holds after its first `n` dispatches.
pub open spec fn plan_prefix_ok(
    d: Seq<Dispatch>,
    n: int,
    start: BindGroup,
    cols: u32,
    rows: u32,
    particles: u32,
) -> bool {
    &&& d.len() == n
    &&& forall|i: int|
        0 <= i < n ==> #[trigger] d[i] == planned_dispatch(i, start, cols, rows, particles)
}

/// Appends `count` dispatches of the same grid kernel, which must be the kernel of
/// every position they take.
fn push_sweeps(
    dispatches: &mut Vec<Dispatch>,
    stage: ComputeStage,
    count: u32,
    is_a: &mut bool,
    start: BindGroup,
    cols: u32,
    rows: u32,
    particles: u32,
    workgroups_x: u32,
    workgroups_y: u32,
)
    requires
        plan_prefix_ok(
            old(dispatches)@,
            old(dispatches)@.len() as int,
            start,
            cols,
            rows,
            particles,
        ),
        *old(is_a) == (group_at(start, old(dispatches)@.len() as int) == BindGroup::A),
        old(dispatches)@.len() + count <= grid_dispatch_count(),
        forall|i: int|
            old(dispatches)@.len() <= i < old(dispatches)@.len() + count ==> grid_stage(i)
                == stage,
        workgroups_x == workgroup_count_spec(cols as int, GRID_WORKGROUP_SIZE as int),
        workgroups_y == workgroup_count_spec(rows as int, GRID_WORKGROUP_SIZE as int),
    ensures
        plan_prefix_ok(
            final(dispatches)@,
            old(dispatches)@.len() + count as int,
            start,
            cols,
            rows,
            particles,
        ),
        *final(is_a) == (group_at(start, final(dispatches)@.len() as int) == BindGroup::A),
{
    let ghost first = dispatches@.len();
    let mut k: u32 = 0;
    while k < count
        invariant
            k <= count,
            plan_prefix_ok(dispatches@, first + k, start, cols, rows, particles),
            *is_a == (group_at(start, dispatches@.len() as int) == BindGroup::A),
            first + count <= grid_dispatch_count(),
            forall|i: int| first <= i < first + count ==> grid_stage(i) == stage,
            workgroups_x == workgroup_count_spec(cols as int, GRID_WORKGROUP_SIZE as int),
            workgroups_y == workgroup_count_spec(rows as int, GRID_WORKGROUP_SIZE as int),
        decreases count - k,
    {
        let ghost n = dispatches@.len() as int;
        push_grid_dispatch(dispatches, stage, is_a, workgroups_x, workgroups_y);
        assert(grid_stage(n) == stage);
        assert(dispatches@[n] == planned_dispatch(n, start, cols, rows, particles));
        k = k + 1;
    }
}

/// Appends the single grid kernel that runs at the plan's next position.
fn push_step(
    dispatches: &mut Vec<Dispatch>,
    stage: ComputeStage,
    is_a: &mut bool,
    start: BindGroup,
    cols: u32,
    rows: u32,
    particles: u32,
    workgroups_x: u32,
    workgroups_y: u32,
)
    requires
        plan_prefix_ok(
            old(dispatches)@,
            old(dispatches)@.len() as int,
            start,
            cols,
            rows,
            particles,
        ),
        *old(is_a) == (group_at(start, old(dispatches)@.len() as int) == BindGroup::A),
        old(dispatches)@.len() < grid_dispatch_count(),
        grid_stage(old(dispatches)@.len() as int) == stage,
        workgroups_x == workgroup_count_spec(cols as int, GRID_WORKGROUP_SIZE as int),
        workgroups_y == workgroup_count_spec(rows as int, GRID_WORKGROUP_SIZE as int),
    ensures
        plan_prefix_ok(
            final(dispatches)@,
            old(dispatches)@.len() + 1int,
            start,
            cols,
            rows,
            particles,
        ),
        *final(is_a) == (group_at(start, final(dispatches)@.len() as int) == BindGroup::A),
{
    push_sweeps(
        dispatches,
        stage,
        1,
        is_a,
        start,
        cols,
        rows,
        particles,
        workgroups_x,
        workgroups_y,
    );
}

/// A plan whose dispatches are those of a step that starts on `start`, on the given
/// grid and particle count, and whose `ends_on_a` says whether the group after the
/// last grid kernel is `A`.
pub open spec fn plan_is_step(
    plan: ComputePlan,
    start: BindGroup,
    cols: u32,
    rows: u32,
    particles: u32,
) -> bool {
    &&& plan.dispatches@.len() == grid_dispatch_count() + 1
    &&& forall|i: int|
        0 <= i < plan.dispatches@.len() ==> #[trigger] plan.dispatches@[i] == planned_dispatch(
            i,
            start,
            cols,
            rows,
            particles,
        )
    &&& plan.ends_on_a == (group_at(start, grid_dispatch_count()) == BindGroup::A)
}

/// The dispatches of one simulation step that starts on bind group `start`, on a grid
/// of `cols` by `rows` cells with `particles` particles. The grid kernels alternate
/// between the two compute bind groups; the particle kernel runs last, on the group
/// that follows the last grid kernel, which `ends_on_a` reports.
pub fn plan_compute_pass(start: BindGroup, cols: u32, rows: u32, particles: u32) -> (plan:
    ComputePlan)
    requires
        cols + GRID_WORKGROUP_SIZE - 1 <= u32::MAX,
        rows + GRID_WORKGROUP_SIZE - 1 <= u32::MAX,
        particles + PARTICLE_WORKGROUP_SIZE - 1 <= u32::MAX,
    ensures
        plan_is_step(plan, start, cols, rows, particles),
{
    let wx = workgroup_count(cols, GRID_WORKGROUP_SIZE);
    let wy = workgroup_count(rows, GRID_WORKGROUP_SIZE);
    let mut dispatches: Vec<Dispatch> = Vec::new();
    let mut is_a = match start {
        BindGroup::A => true,
        BindGroup::B => false,
    };
    let s = start;
    let c = cols;
    let r = rows;
    let p = particles;

    push_step(&mut dispatches, ComputeStage::Interaction, &mut is_a, s, c, r, p, wx, wy);
    push_step(&mut dispatches, ComputeStage::Advection, &mut is_a, s, c, r, p, wx, wy);
    push_step(&mut dispatches, ComputeStage::Induction, &mut is_a, s, c, r, p, wx, wy);
    push_step(&mut dispatches, ComputeStage::CurrentDensity, &mut is_a, s, c, r, p, wx, wy);
    push_step(&mut dispatches, ComputeStage::LorentzForce, &mut is_a, s, c, r, p, wx, wy);

    push_step(&mut dispatches, ComputeStage::FluidDivergence, &mut is_a, s, c, r, p, wx, wy);
    push_sweeps(
        &mut dispatches,
        ComputeStage::FluidJacobi,
        JACOBI_ITERATIONS,
        &mut is_a,
        s,
        c,
        r,
        p,
        wx,
        wy,
    );
    push_step(&mut dispatches, ComputeStage::PressureGradient, &mut is_a, s, c, r, p, wx, wy);

    push_step(&mut dispatches, ComputeStage::MagneticDivergence, &mut is_a, s, c, r, p, wx, wy);
    push_sweeps(
        &mut dispatches,
        ComputeStage::MagneticJacobi,
        JACOBI_ITERATIONS,
        &mut is_a,
        s,
        c,
        r,
        p,
        wx,
        wy,
    );
    push_step(&mut dispatches, ComputeStage::PotentialGradient, &mut is_a, s, c, r, p, wx, wy);

    let particle_group = if is_a {
        BindGroup::A
    } else {
        BindGroup::B
    };
    let pw = workgroup_count(particles, PARTICLE_WORKGROUP_SIZE);
    dispatches.push(
        Dispatch {
            stage: ComputeStage::Particles,
            bind_group: particle_group,
            workgroups_x: pw,
            workgroups_y: 1,
            workgroups_z: 1,
        },
    );
    proof {
        let n = grid_dispatch_count();
        assert(dispatches@[n] == planned_dispatch(n, start, cols, rows, particles));
    }
    ComputePlan { dispatches, ends_on_a: is_a }
}

/// The render bind group that shows the grid after a step whose plan reported
/// `ends_on_a`.
pub open spec fn render_group_spec(ends_on_a: bool) -> RenderGroup {
    if ends_on_a {
        RenderGroup::ReadingA
    } else {
        RenderGroup::ReadingB
    }
}

/// Picks the render bind group that shows the grid after a step whose plan
/// reported `ends_on_a`.
pub fn render_group(ends_on_a: bool) -> (g: RenderGroup)
    ensures
        g == render_group_spec(ends_on_a),
{
    if ends_on_a {
        RenderGroup::ReadingA
    } else {
        RenderGroup::ReadingB
    }
}

/// The compute bind group that the next step starts on while `shown` is on screen:
/// the one that reads the buffer shown.
pub open spec fn start_group_spec(shown: RenderGroup) -> BindGroup {
    match shown {
        RenderGroup::ReadingA => BindGroup::A,
        RenderGroup::ReadingB => BindGroup::B,
    }
}

/// Picks the compute bind group that the next step starts on while `shown` is on screen.
pub fn start_group(shown: RenderGroup) -> (g: BindGroup)
    ensures
        g == start_group_spec(shown),
        group_reads(g) == render_group_reads(shown),
{
    match shown {
        RenderGroup::ReadingA => BindGroup::A,
        RenderGroup::ReadingB => BindGroup::B,
    }
}

/// Within a step, each grid kernel reads the buffer that the kernel before it wrote.
pub proof fn lemma_grid_kernels_chain(
    i: int,
    start: BindGroup,
    cols: u32,
    rows: u32,
    particles: u32,
)
    requires
        0 <= i,
        i + 1 < grid_dispatch_count(),
    ensures
        group_reads(planned_dispatch(i + 1, start, cols, rows, particles).bind_group)
            == group_writes(planned_dispatch(i, start, cols, rows, particles).bind_group),
{
}

/// The particle kernel reads the buffer that the last grid kernel of the step wrote.
pub proof fn lemma_particles_read_last_write(
    start: BindGroup,
    cols: u32,
    rows: u32,
    particles: u32,
)
    ensures
        planned_dispatch(grid_dispatch_count(), start, cols, rows, particles).stage
            == ComputeStage::Particles,
        group_reads(planned_dispatch(grid_dispatch_count(), start, cols, rows, particles).bind_group)
            == group_writes(
            planned_dispatch(grid_dispatch_count() - 1, start, cols, rows, particles).bind_group,
        ),
{
}

/// The frame that follows a step shows the buffer that the step's last grid kernel
/// wrote.
pub proof fn lemma_render_shows_last_write(
    plan: ComputePlan,
    start: BindGroup,
    cols: u32,
    rows: u32,
    particles: u32,
)
    requires
        plan_is_step(plan, start, cols, rows, particles),
    ensures
        render_group_reads(render_group_spec(plan.ends_on_a)) == group_writes(
            planned_dispatch(grid_dispatch_count() - 1, start, cols, rows, particles).bind_group,
        ),
{
}

/// Steps follow on from each other: the step that starts from the buffer a step
/// left on screen first reads what that step's last grid kernel wrote, and the start
/// group alternates from step to step.
pub proof fn lemma_steps_continue(
    plan: ComputePlan,
    start: BindGroup,
    cols: u32,
    rows: u32,
    particles: u32,
)
    requires
        plan_is_step(plan, start, cols, rows, particles),
    ensures
        group_reads(
            planned_dispatch(
                0,
                start_group_spec(render_group_spec(plan.ends_on_a)),
                cols,
                rows,
                particles,
            ).bind_group,
        ) == group_writes(
            planned_dispatch(grid_dispatch_count() - 1, start, cols, rows, particles).bind_group,
        ),
        start_group_spec(render_group_spec(plan.ends_on_a)) == other_group(start),
{
}

/// Every dispatch of a step has a lane for each item it works on: each grid kernel
/// for every cell, the particle kernel for every particle.
pub proof fn lemma_dispatches_cover(
    i: int,
    start: BindGroup,
    cols: u32,
    rows: u32,
    particles: u32,
)
    requires
        0 <= i <= grid_dispatch_count(),
    ensures
        i < grid_dispatch_count() ==> planned_dispatch(i, start, cols, rows, particles).workgroups_x
            * GRID_WORKGROUP_SIZE >= cols && planned_dispatch(
            i,
            start,
            cols,
            rows,
            particles,
        ).workgroups_y * GRID_WORKGROUP_SIZE >= rows,
        i == grid_dispatch_count() ==> planned_dispatch(
            i,
            start,
            cols,
            rows,
            particles,
        ).workgroups_x * PARTICLE_WORKGROUP_SIZE >= particles,
{
    crate::grid::lemma_workgroup_count_covers(cols as int, GRID_WORKGROUP_SIZE as int);
    crate::grid::lemma_workgroup_count_covers(rows as int, GRID_WORKGROUP_SIZE as int);
    crate::grid::lemma_workgroup_count_covers(particles as int, PARTICLE_WORKGROUP_SIZE as int);
    crate::grid::lemma_workgroup_count_fits(cols as int, GRID_WORKGROUP_SIZE as int);
    crate::grid::lemma_workgroup_count_fits(rows as int, GRID_WORKGROUP_SIZE as int);
    crate::grid::lemma_workgroup_count_fits(particles as int, PARTICLE_WORKGROUP_SIZE as int);
}

/// A buffer that a bind group binds.
#[derive(Clone, Copy, Debug, PartialEq, Eq, Structural)]
pub enum BufferRole {
    SimParams,
    Grid(GridBuffer),
    Particles,
}

/// The buffers of a compute bind group, by binding slot: the parameters, the grid
/// the kernel reads, the grid it writes, and the particles.
pub open spec fn compute_bindings_spec(g: BindGroup) -> Seq<BufferRole> {
    seq![
        BufferRole::SimParams,
        BufferRole::Grid(group_reads(g)),
        BufferRole::Grid(group_writes(g)),
        BufferRole::Particles,
    ]
}

/// The buffers of a render bind group, by binding slot: the parameters and the grid
/// it shows.
pub open spec fn render_bindings_spec(g: RenderGroup) -> Seq<BufferRole> {
    seq![BufferRole::SimParams, BufferRole::Grid(render_group_reads(g))]
}

/// The buffer bound at each slot of a compute bind group.
pub fn compute_bindings(g: BindGroup) -> (b: [BufferRole; 4])
    ensures
        b@ == compute_bindings_spec(g),
        b@[0] == BufferRole::SimParams,
        b@[3] == BufferRole::Particles,
        b@[1] != b@[2],
        b@[1] is Grid && b@[2] is Grid,
{
    let (read, write) = match g {
        BindGroup::A => (GridBuffer::In, GridBuffer::Out),
        BindGroup::B => (GridBuffer::Out, GridBuffer::In),
    };
    let b = [
        BufferRole::SimParams,
        BufferRole::Grid(read),
        BufferRole::Grid(write),
        BufferRole::Particles,
    ];
    assert(b@ =~= compute_bindings_spec(g));
    b
}

/// The buffer bound at each slot of a render bind group.
pub fn render_bindings(g: RenderGroup) -> (b: [BufferRole; 2])
    ensures
        b@ == render_bindings_spec(g),
        b@[0] == BufferRole::SimParams,
        b@[1] is Grid,
{
    let shown = match g {
        RenderGroup::ReadingA => GridBuffer::In,
        RenderGroup::ReadingB => GridBuffer::Out,
    };
    let b = [BufferRole::SimParams, BufferRole::Grid(shown)];
    assert(b@ =~= render_bindings_spec(g));
    b
}

/// No kernel writes the grid buffer it reads, and the two compute bind groups swap
/// the buffers' parts.
pub proof fn lemma_groups_swap_buffers(g: BindGroup)
    ensures
        group_reads(g) != group_writes(g),
        group_reads(BindGroup::A) == group_writes(BindGroup::B),
        group_reads(BindGroup::B) == group_writes(BindGroup::A),
{
}

/// Where a kernel stands in the physical order of a step.
pub open spec fn stage_rank(s: ComputeStage) -> int {
    match s {
        ComputeStage::Interaction => 0,
        ComputeStage::Advection => 1,
        ComputeStage::Induction => 2,
        ComputeStage::CurrentDensity => 3,
        ComputeStage::LorentzForce => 4,
        ComputeStage::FluidDivergence => 5,
        ComputeStage::FluidJacobi => 6,
        ComputeStage::PressureGradient => 7,
        ComputeStage::MagneticDivergence => 8,
        ComputeStage::MagneticJacobi => 9,
        ComputeStage::PotentialGradient => 10,
        ComputeStage::Particles => 11,
    }
}

/// The kernels of a step run in physical order, every kernel but the two Jacobi
/// sweeps runs exactly once, each Jacobi sweep runs `JACOBI_ITERATIONS` times in a
/// row, and the particle kernel runs last.
pub proof fn lemma_stage_order(i: int, j: int)
    requires
        0 <= i < j < grid_dispatch_count(),
    ensures
        stage_rank(grid_stage(i)) <= stage_rank(grid_stage(j)),
        grid_stage(i) != ComputeStage::FluidJacobi && grid_stage(i) != ComputeStage::MagneticJacobi
            ==> grid_stage(i) != grid_stage(j),
        grid_stage(i) != ComputeStage::Particles,
        grid_stage(i) == ComputeStage::FluidJacobi && grid_stage(j) == ComputeStage::FluidJacobi
            ==> j - i < JACOBI_ITERATIONS,
        grid_stage(i) == ComputeStage::MagneticJacobi && grid_stage(j)
            == ComputeStage::MagneticJacobi ==> j - i < JACOBI_ITERATIONS,
        grid_stage(0) == ComputeStage::Interaction,
        grid_stage(grid_dispatch_count() - 1) == ComputeStage::PotentialGradient,
        grid_stage(5 + JACOBI_ITERATIONS) == ComputeStage::FluidJacobi,
        grid_stage(8 + 2 * JACOBI_ITERATIONS - 1) == ComputeStage::MagneticJacobi,
{
}

} // verus!
