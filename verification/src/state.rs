use vstd::prelude::*;

use crate::config::{CELL_SIZE, PARTICLE_COUNT};
use crate::schedule::{
    grid_dispatch_count, group_reads, group_writes, plan_compute_pass, plan_is_step,
    render_group, render_group_reads, render_group_spec, start_group, start_group_spec,
    ComputePlan, RenderGroup,
};

verus! {

/// The integer part of the parameters that every kernel reads: the size of the
/// active grid, the cell size, and which mouse buttons are held (1) or not (0).
#[derive(Clone, Copy, Debug, PartialEq, Eq, Structural)]
pub struct SimParams {
    pub active_cols: u32,
    pub active_rows: u32,
    pub cell_size: u32,
    pub mouse_left_clicked: u32,
    pub mouse_right_clicked: u32,
}

/// How the surface answered a request for the next frame's texture.
#[derive(Clone, Copy, Debug, PartialEq, Eq, Structural)]
pub enum SurfaceStatus {
    Success,
    Suboptimal,
    Timeout,
    Occluded,
    Validation,
    Outdated,
    Lost,
}

/// Why a frame could not be rendered.
#[derive(Clone, Copy, Debug, PartialEq, Eq, Structural)]
pub enum RenderError {
    /// The surface reported that its device is gone.
    DeviceLost,
}

/// What to draw in a frame: the simulation step to run first, if any, with the
/// parameters to hand it, the render bind group that shows the grid, and the two
/// draws (the full-screen triangle over the grid, and one quad strip per particle).
pub struct FramePlan {
    pub compute: Option<ComputePlan>,
    pub params: SimParams,
    pub display: RenderGroup,
    pub field_vertices: u32,
    pub particle_vertices: u32,
    pub particle_instances: u32,
}

/// What to do with the frame that the surface offered.
pub enum FrameStep {
    /// Draw it.
    Draw(FramePlan),
    /// Leave it and try again at the next redraw.
    Skip,
    /// Configure the surface anew and try again at the next redraw.
    Reconfigure,
}

/// The simulation's state as the contracts see it.
pub struct StateView {
    pub width: u32,
    pub height: u32,
    pub params: SimParams,
    pub particle_count: u32,
    pub display: RenderGroup,
}

/// The simulation's state apart from the GPU: the surface size, the grid it was laid
/// out for, the mouse buttons, the particle count, and which grid buffer is shown.
pub struct State {
    width: u32,
    height: u32,
    params: SimParams,
    particle_count: u32,
    display: RenderGroup,
}

/// The parameters that a fresh state starts with on a `width` by `height` surface.
pub open spec fn initial_params(width: u32, height: u32) -> SimParams {
    SimParams {
        active_cols: width / CELL_SIZE,
        active_rows: height / CELL_SIZE,
        cell_size: CELL_SIZE,
        mouse_left_clicked: 0,
        mouse_right_clicked: 0,
    }
}

/// The parameters after mouse button `button` was pressed or released: button 0 is
/// the left one, 1 the right one, and any other is ignored.
pub open spec fn params_after_click(p: SimParams, button: u32, is_pressed: bool) -> SimParams {
    let v: u32 = if is_pressed {
        1
    } else {
        0
    };
    if button == 0 {
        SimParams { mouse_left_clicked: v, ..p }
    } else if button == 1 {
        SimParams { mouse_right_clicked: v, ..p }
    } else {
        p
    }
}

/// The buffer on screen after a step that started from `shown`: a step has an odd
/// number of grid kernels, so it ends on the other buffer.
pub open spec fn shown_after_step(shown: RenderGroup) -> RenderGroup {
    match shown {
        RenderGroup::ReadingA => RenderGroup::ReadingB,
        RenderGroup::ReadingB => RenderGroup::ReadingA,
    }
}

/// Whether the surface offered a frame that can be drawn.
pub open spec fn surface_draws(surface: SurfaceStatus) -> bool {
    surface == SurfaceStatus::Success || surface == SurfaceStatus::Suboptimal
}

/// The state after mouse button `button` was pressed or released.
pub open spec fn view_after_click(v: StateView, button: u32, is_pressed: bool) -> StateView {
    StateView { params: params_after_click(v.params, button, is_pressed), ..v }
}

/// The state after the surface was resized to `width` by `height`: only a size with
/// both sides nonzero is taken, and the grid keeps its layout.
pub open spec fn view_after_resize(v: StateView, width: u32, height: u32) -> StateView {
    if width > 0 && height > 0 {
        StateView { width, height, ..v }
    } else {
        v
    }
}

/// The state after a frame was offered: a drawn frame that is not paused runs a step
/// and then shows the other buffer; anything else leaves the state as it was.
pub open spec fn view_after_render(v: StateView, surface: SurfaceStatus, paused: bool) -> StateView {
    if surface_draws(surface) && !paused {
        StateView { display: shown_after_step(v.display), ..v }
    } else {
        v
    }
}

/// The state after a restart: no mouse button held and the first buffer shown, as
/// in a fresh state; the surface size, the grid and the particles are kept.
pub open spec fn view_after_reset(v: StateView) -> StateView {
    StateView {
        params: SimParams { mouse_left_clicked: 0, mouse_right_clicked: 0, ..v.params },
        display: RenderGroup::ReadingA,
        ..v
    }
}

/// One of the calls that change the state.
pub enum StateOp {
    Click { button: u32, pressed: bool },
    Resize { width: u32, height: u32 },
    Render { surface: SurfaceStatus, paused: bool },
    Reset,
}

/// The state after one call.
pub open spec fn apply_op(v: StateView, op: StateOp) -> StateView {
    match op {
        StateOp::Click { button, pressed } => view_after_click(v, button, pressed),
        StateOp::Resize { width, height } => view_after_resize(v, width, height),
        StateOp::Render { surface, paused } => view_after_render(v, surface, paused),
        StateOp::Reset => view_after_reset(v),
    }
}

/// The state after a sequence of calls, in order.
pub open spec fn apply_ops(v: StateView, ops: Seq<StateOp>) -> StateView
    decreases ops.len(),
{
    if ops.len() == 0 {
        v
    } else {
        apply_ops(apply_op(v, ops[0]), ops.drop_first())
    }
}

/// The flag that records mouse button `button` (0 left, 1 right).
pub open spec fn button_flag(p: SimParams, button: u32) -> u32 {
    if button == 0 {
        p.mouse_left_clicked
    } else {
        p.mouse_right_clicked
    }
}

/// Whether a call leaves the flag of mouse button `button` alone.
pub open spec fn keeps_button(op: StateOp, button: u32) -> bool {
    match op {
        StateOp::Click { button: b, .. } => b != button,
        StateOp::Reset => false,
        _ => true,
    }
}

/// A press or release of the left or right mouse button reaches every later step:
/// until that button is clicked again or the simulation restarts, resizing and
/// rendering keep its flag, and each step is handed the state's parameters.
pub proof fn lemma_click_reaches_later_steps(
    v: StateView,
    button: u32,
    pressed: bool,
    ops: Seq<StateOp>,
)
    requires
        button <= 1,
        forall|i: int| 0 <= i < ops.len() ==> keeps_button(#[trigger] ops[i], button),
    ensures
        button_flag(apply_ops(view_after_click(v, button, pressed), ops).params, button) == (if pressed {
            1u32
        } else {
            0u32
        }),
{
    lemma_ops_keep_button(view_after_click(v, button, pressed), button, ops);
}

/// Calls that leave a mouse button alone keep its flag.
proof fn lemma_ops_keep_button(v: StateView, button: u32, ops: Seq<StateOp>)
    requires
        button <= 1,
        forall|i: int| 0 <= i < ops.len() ==> keeps_button(#[trigger] ops[i], button),
    ensures
        button_flag(apply_ops(v, ops).params, button) == button_flag(v.params, button),
    decreases ops.len(),
{
    if ops.len() > 0 {
        let w = apply_op(v, ops[0]);
        assert(keeps_button(ops[0], button));
        assert(button_flag(w.params, button) == button_flag(v.params, button));
        assert forall|i: int| 0 <= i < ops.drop_first().len() implies keeps_button(
            #[trigger] ops.drop_first()[i],
            button,
        ) by {
            assert(ops.drop_first()[i] == ops[i + 1]);
        }
        lemma_ops_keep_button(w, button, ops.drop_first());
    }
}

/// Consecutive steps follow on from each other: after a drawn, running frame, the
/// next step first reads the buffer that the last grid kernel of the frame's step
/// wrote, with any resizes, clicks, skipped or paused frames in between.
pub proof fn lemma_consecutive_steps(
    v: StateView,
    first: ComputePlan,
    surface: SurfaceStatus,
    between: Seq<StateOp>,
    second: ComputePlan,
)
    requires
        surface_draws(surface),
        plan_is_step(
            first,
            start_group_spec(v.display),
            v.params.active_cols,
            v.params.active_rows,
            v.particle_count,
        ),
        forall|i: int|
            0 <= i < between.len() ==> match #[trigger] between[i] {
                StateOp::Render { surface, paused } => paused || !surface_draws(surface),
                StateOp::Reset => false,
                _ => true,
            },
        ({
            let u = apply_ops(view_after_render(v, surface, false), between);
            plan_is_step(
                second,
                start_group_spec(u.display),
                u.params.active_cols,
                u.params.active_rows,
                u.particle_count,
            )
        }),
    ensures
        group_reads(second.dispatches@[0].bind_group) == group_writes(
            first.dispatches@[grid_dispatch_count() - 1].bind_group,
        ),
{
    lemma_ops_keep_display(view_after_render(v, surface, false), between);
}

/// Clicks, resizes and frames that run no step keep the buffer on screen.
proof fn lemma_ops_keep_display(v: StateView, ops: Seq<StateOp>)
    requires
        forall|i: int|
            0 <= i < ops.len() ==> match #[trigger] ops[i] {
                StateOp::Render { surface, paused } => paused || !surface_draws(surface),
                StateOp::Reset => false,
                _ => true,
            },
    ensures
        apply_ops(v, ops).display == v.display,
    decreases ops.len(),
{
    if ops.len() > 0 {
        let w = apply_op(v, ops[0]);
        assert(match ops[0] {
            StateOp::Render { surface, paused } => paused || !surface_draws(surface),
            StateOp::Reset => false,
            _ => true,
        });
        assert(w.display == v.display);
        assert forall|i: int| 0 <= i < ops.drop_first().len() implies match #[trigger] ops.drop_first()[i] {
            StateOp::Render { surface, paused } => paused || !surface_draws(surface),
            StateOp::Reset => false,
            _ => true,
        } by {
            assert(ops.drop_first()[i] == ops[i + 1]);
        }
        lemma_ops_keep_display(w, ops.drop_first());
    }
}

impl View for State {
    type V = StateView;

    closed spec fn view(&self) -> StateView {
        StateView {
            width: self.width,
            height: self.height,
            params: self.params,
            particle_count: self.particle_count,
            display: self.display,
        }
    }
}

impl State {
    #[verifier::type_invariant]
    closed spec fn wf(self) -> bool {
        &&& self.params.active_cols <= u32::MAX / CELL_SIZE
        &&& self.params.active_rows <= u32::MAX / CELL_SIZE
        &&& self.params.cell_size == CELL_SIZE
        &&& self.params.mouse_left_clicked <= 1
        &&& self.params.mouse_right_clicked <= 1
        &&& self.particle_count == PARTICLE_COUNT
    }

    /// The state of a fresh simulation on a `width` by `height` surface: the grid
    /// has one cell per `CELL_SIZE` pixels in each direction, no button is held, and
    /// the first buffer is shown.
    pub fn new(width: u32, height: u32) -> (s: State)
        ensures
            s@.width == width,
            s@.height == height,
            s@.params == initial_params(width, height),
            s@.particle_count == PARTICLE_COUNT,
            s@.display == RenderGroup::ReadingA,
            s@.params.active_cols * CELL_SIZE <= width < (s@.params.active_cols + 1) * CELL_SIZE,
            s@.params.active_rows * CELL_SIZE <= height < (s@.params.active_rows + 1) * CELL_SIZE,
    {
        let active_cols = width / CELL_SIZE;
        let active_rows = height / CELL_SIZE;
        let params = SimParams {
            active_cols,
            active_rows,
            cell_size: CELL_SIZE,
            mouse_left_clicked: 0,
            mouse_right_clicked: 0,
        };
        State {
            width,
            height,
            params,
            particle_count: PARTICLE_COUNT,
            display: RenderGroup::ReadingA,
        }
    }

    /// The parameters that the kernels are handed. The cell size never changes, and
    /// each button flag is 0 or 1.
    pub fn sim_params(&self) -> (p: SimParams)
        ensures
            p == self@.params,
            p.cell_size == CELL_SIZE,
            p.mouse_left_clicked <= 1,
            p.mouse_right_clicked <= 1,
            p.active_cols <= u32::MAX / CELL_SIZE,
            p.active_rows <= u32::MAX / CELL_SIZE,
    {
        proof {
            use_type_invariant(self);
        }
        self.params
    }

    /// The surface's current width and height.
    pub fn size(&self) -> (wh: (u32, u32))
        ensures
            wh == (self@.width, self@.height),
    {
        (self.width, self.height)
    }

    /// How many particles the simulation carries.
    pub fn particle_count(&self) -> (n: u32)
        ensures
            n == self@.particle_count,
    {
        self.particle_count
    }

    /// The render bind group that shows the grid now.
    pub fn display(&self) -> (g: RenderGroup)
        ensures
            g == self@.display,
    {
        self.display
    }

    /// The grid's extent in pixels: whole cells only.
    pub fn grid_extent(&self) -> (wh: (u32, u32))
        ensures
            wh.0 == self@.params.active_cols * CELL_SIZE,
            wh.1 == self@.params.active_rows * CELL_SIZE,
    {
        proof {
            use_type_invariant(self);
        }
        (self.params.active_cols * CELL_SIZE, self.params.active_rows * CELL_SIZE)
    }

    /// Number of cells in the grid buffer.
    pub fn cell_count(&self) -> (n: u32)
        requires
            self@.params.active_cols * self@.params.active_rows <= u32::MAX,
        ensures
            n == self@.params.active_cols * self@.params.active_rows,
    {
        self.params.active_cols * self.params.active_rows
    }

    /// Records that mouse button `button` (0 left, 1 right) was pressed or released;
    /// any other button leaves the state as it was.
    pub fn update_mouse_click(&mut self, button: u32, is_pressed: bool)
        ensures
            final(self)@ == view_after_click(old(self)@, button, is_pressed),
            button == 0 ==> final(self)@.params.mouse_left_clicked == (if is_pressed {
                1u32
            } else {
                0u32
            }) && final(self)@.params.mouse_right_clicked == old(self)@.params.mouse_right_clicked,
            button == 1 ==> final(self)@.params.mouse_right_clicked == (if is_pressed {
                1u32
            } else {
                0u32
            }) && final(self)@.params.mouse_left_clicked == old(self)@.params.mouse_left_clicked,
            button > 1 ==> final(self)@ == old(self)@,
            final(self)@.params.active_cols == old(self)@.params.active_cols,
            final(self)@.params.active_rows == old(self)@.params.active_rows,
            final(self)@.width == old(self)@.width,
            final(self)@.height == old(self)@.height,
            final(self)@.display == old(self)@.display,
    {
        proof {
            use_type_invariant(&*self);
        }
        let state_val: u32 = if is_pressed {
            1
        } else {
            0
        };
        if button == 0 {
            self.params.mouse_left_clicked = state_val;
        } else if button == 1 {
            self.params.mouse_right_clicked = state_val;
        }
    }

    /// Takes the surface's new size when both sides are nonzero, and reports whether
    /// it did, so that the caller configures the surface anew. The grid keeps the
    /// size it was laid out for.
    pub fn resize(&mut self, width: u32, height: u32) -> (applied: bool)
        ensures
            applied == (width > 0 && height > 0),
            final(self)@ == view_after_resize(old(self)@, width, height),
            applied ==> final(self)@.width == width && final(self)@.height == height,
            !applied ==> final(self)@ == old(self)@,
            final(self)@.params == old(self)@.params,
    {
        proof {
            use_type_invariant(&*self);
        }
        if width > 0 && height > 0 {
            self.width = width;
            self.height = height;
            true
        } else {
            false
        }
    }

    /// Puts the state back as a restart leaves it: no mouse button held and the
    /// first buffer shown. The caller uploads the initial grid into both buffers.
    pub fn reset(&mut self)
        ensures
            final(self)@ == view_after_reset(old(self)@),
            final(self)@.params.mouse_left_clicked == 0,
            final(self)@.params.mouse_right_clicked == 0,
            final(self)@.display == RenderGroup::ReadingA,
            final(self)@.params.active_cols == old(self)@.params.active_cols,
            final(self)@.params.active_rows == old(self)@.params.active_rows,
            final(self)@.params.cell_size == old(self)@.params.cell_size,
            final(self)@.width == old(self)@.width,
            final(self)@.height == old(self)@.height,
            final(self)@.particle_count == old(self)@.particle_count,
    {
        proof {
            use_type_invariant(&*self);
        }
        self.params.mouse_left_clicked = 0;
        self.params.mouse_right_clicked = 0;
        self.display = RenderGroup::ReadingA;
    }

    /// The dispatches of one simulation step on this state's grid and particles. The
    /// step starts on the bind group that reads the buffer on screen, which is the
    /// buffer the last step wrote last.
    pub fn update(&self) -> (plan: ComputePlan)
        ensures
            plan_is_step(
                plan,
                start_group_spec(self@.display),
                self@.params.active_cols,
                self@.params.active_rows,
                self@.particle_count,
            ),
            group_reads(plan.dispatches@[0].bind_group) == render_group_reads(self@.display),
    {
        proof {
            use_type_invariant(self);
        }
        let start = start_group(self.display);
        plan_compute_pass(
            start,
            self.params.active_cols,
            self.params.active_rows,
            self.particle_count,
        )
    }

    /// Decides what to do with the frame that the surface offered. A usable frame is
    /// drawn: unless the simulation is paused, one step runs first, reading the
    /// buffer on screen, and the frame shows the buffer it ended on; a paused frame
    /// runs nothing and shows what the last frame showed. A frame that timed out, is
    /// hidden or failed validation is skipped; an outdated surface is configured
    /// anew; a lost device is an error.
    pub fn render(&mut self, surface: SurfaceStatus, paused: bool) -> (r: Result<
        FrameStep,
        RenderError,
    >)
        ensures
            (r is Err) == (surface == SurfaceStatus::Lost),
            r is Err ==> r->Err_0 == RenderError::DeviceLost,
            (r matches Ok(FrameStep::Skip)) == (surface == SurfaceStatus::Timeout || surface
                == SurfaceStatus::Occluded || surface == SurfaceStatus::Validation),
            (r matches Ok(FrameStep::Reconfigure)) == (surface == SurfaceStatus::Outdated),
            (r matches Ok(FrameStep::Draw(_))) == surface_draws(surface),
            r matches Ok(FrameStep::Draw(f)) ==> {
                &&& f.field_vertices == 3
                &&& f.particle_vertices == 4
                &&& f.particle_instances == old(self)@.particle_count
                &&& f.params == old(self)@.params
                &&& (paused ==> f.compute is None && f.display == old(self)@.display)
                &&& (!paused ==> f.compute is Some && plan_is_step(
                    f.compute->0,
                    start_group_spec(old(self)@.display),
                    old(self)@.params.active_cols,
                    old(self)@.params.active_rows,
                    old(self)@.particle_count,
                ) && group_reads(f.compute->0.dispatches@[0].bind_group) == render_group_reads(
                    old(self)@.display,
                ) && f.display == render_group_spec(f.compute->0.ends_on_a))
                &&& f.display == final(self)@.display
            },
            final(self)@ == view_after_render(old(self)@, surface, paused),
            final(self)@.params == old(self)@.params,
            final(self)@.width == old(self)@.width,
            final(self)@.height == old(self)@.height,
            final(self)@.particle_count == old(self)@.particle_count,
            surface_draws(surface) && !paused ==> final(self)@.display != old(self)@.display,
            !(surface_draws(surface) && !paused) ==> final(self)@ == old(self)@,
    {
        proof {
            use_type_invariant(&*self);
        }
        match surface {
            SurfaceStatus::Success | SurfaceStatus::Suboptimal => {},
            SurfaceStatus::Timeout | SurfaceStatus::Occluded | SurfaceStatus::Validation => {
                return Ok(FrameStep::Skip);
            },
            SurfaceStatus::Outdated => {
                return Ok(FrameStep::Reconfigure);
            },
            SurfaceStatus::Lost => {
                return Err(RenderError::DeviceLost);
            },
        }
        let compute = if paused {
            None
        } else {
            let plan = self.update();
            self.display = render_group(plan.ends_on_a);
            Some(plan)
        };
        Ok(
            FrameStep::Draw(
                FramePlan {
                    compute,
                    params: self.params,
                    display: self.display,
                    field_vertices: 3,
                    particle_vertices: 4,
                    particle_instances: self.particle_count,
                },
            ),
        )
    }
}


/// A fresh grid covers the surface with whole cells: it fits inside the surface and
/// leaves less than one cell uncovered along each side, so the column count follows
/// the width and the row count follows the height.
pub proof fn lemma_initial_grid_fills_surface(width: u32, height: u32)
    ensures
        initial_params(width, height).active_cols * CELL_SIZE <= width < (initial_params(
            width,
            height,
        ).active_cols + 1) * CELL_SIZE,
        initial_params(width, height).active_rows * CELL_SIZE <= height < (initial_params(
            width,
            height,
        ).active_rows + 1) * CELL_SIZE,
        initial_params(width, height).cell_size == CELL_SIZE,
        initial_params(width, height).mouse_left_clicked == 0,
        initial_params(width, height).mouse_right_clicked == 0,
{
}

/// The grid is laid out once: no sequence of clicks, resizes, frames and restarts
/// changes the number of columns or rows, the cell size or the particle count, and a
/// frame changes nothing but the buffer on screen.
pub proof fn lemma_grid_layout_fixed(v: StateView, ops: Seq<StateOp>)
    ensures
        apply_ops(v, ops).params.active_cols == v.params.active_cols,
        apply_ops(v, ops).params.active_rows == v.params.active_rows,
        apply_ops(v, ops).params.cell_size == v.params.cell_size,
        apply_ops(v, ops).particle_count == v.particle_count,
    decreases ops.len(),
{
    if ops.len() > 0 {
        lemma_grid_layout_fixed(apply_op(v, ops[0]), ops.drop_first());
    }
}

/// A frame, whatever the surface answered and whether or not the simulation is
/// paused, keeps the parameters, the surface size and the particle count.
pub proof fn lemma_render_keeps_state(v: StateView, surface: SurfaceStatus, paused: bool)
    ensures
        view_after_render(v, surface, paused).params == v.params,
        view_after_render(v, surface, paused).width == v.width,
        view_after_render(v, surface, paused).height == v.height,
        view_after_render(v, surface, paused).particle_count == v.particle_count,
        !surface_draws(surface) || paused ==> view_after_render(v, surface, paused) == v,
{
}

/// A resize to a size with both sides nonzero takes exactly that size, whether the
/// surface grows or shrinks, and it stays until the next such resize: clicks,
/// frames and restarts keep it. A size with a zero side changes nothing.
pub proof fn lemma_resize_takes_size(v: StateView, width: u32, height: u32, ops: Seq<StateOp>)
    requires
        forall|i: int| 0 <= i < ops.len() ==> !(#[trigger] ops[i] is Resize),
    ensures
        width > 0 && height > 0 ==> apply_ops(view_after_resize(v, width, height), ops).width
            == width && apply_ops(view_after_resize(v, width, height), ops).height == height,
        !(width > 0 && height > 0) ==> view_after_resize(v, width, height) == v,
        view_after_resize(v, width, height).params == v.params,
    decreases ops.len(),
{
    lemma_ops_keep_size(view_after_resize(v, width, height), ops);
}

/// Calls other than resizes keep the surface size.
proof fn lemma_ops_keep_size(v: StateView, ops: Seq<StateOp>)
    requires
        forall|i: int| 0 <= i < ops.len() ==> !(#[trigger] ops[i] is Resize),
    ensures
        apply_ops(v, ops).width == v.width,
        apply_ops(v, ops).height == v.height,
    decreases ops.len(),
{
    if ops.len() > 0 {
        assert(!(ops[0] is Resize));
        assert forall|i: int| 0 <= i < ops.drop_first().len() implies !(
        #[trigger] ops.drop_first()[i] is Resize) by {
            assert(ops.drop_first()[i] == ops[i + 1]);
        }
        lemma_ops_keep_size(apply_op(v, ops[0]), ops.drop_first());
    }
}

} // verus!
