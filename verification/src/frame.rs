//! Per-frame decisions: what each of the two render passes loads, draws and
//! stores, and how the frame counter advances.

use vstd::prelude::*;

verus! {

/// Number of sprite cells the quad pass cycles through.
pub const SPRITE_CELL_COUNT: u32 = 4;

/// Number of vertices each pass draws (two triangles forming a quad).
pub const QUAD_VERTEX_COUNT: u32 = 6;

/// Solid colours a render target can be cleared to.
#[derive(Clone, Copy, PartialEq, Eq, Structural, Debug)]
pub enum ClearColor {
    Transparent,
    White,
}

/// What a render pass does with its colour attachment on begin: clear it to a
/// colour, or keep what the previous pass left there.
#[derive(Clone, Copy, PartialEq, Eq, Structural, Debug)]
pub enum LoadOp {
    Clear(ClearColor),
    Load,
}

/// One draw call: a contiguous vertex range and a contiguous instance range.
#[derive(Clone, Copy, PartialEq, Eq, Structural, Debug)]
pub struct DrawCall {
    pub first_vertex: u32,
    pub vertex_count: u32,
    pub first_instance: u32,
    pub instance_count: u32,
}

/// One render pass: its load operation, whether the result is stored back to
/// the attachment, and the single draw call it records.
#[derive(Clone, Copy, PartialEq, Eq, Structural, Debug)]
pub struct PassPlan {
    pub load: LoadOp,
    pub store: bool,
    pub draw: DrawCall,
}

/// Everything one frame records: the quad pass into the spritesheet, then the
/// blit pass onto the output target.
#[derive(Clone, Copy, PartialEq, Eq, Structural, Debug)]
pub struct FramePlan {
    pub quad_pass: PassPlan,
    pub blit_pass: PassPlan,
}

/// Which sprite cell the quad pass selects on the given frame.
pub open spec fn quad_instance(counter: u32) -> u32 {
    counter % 4
}

/// The quad pass clears the spritesheet only on the very first frame; every
/// later frame accumulates over what is already there.
pub open spec fn quad_load(counter: u32) -> LoadOp {
    if counter == 0 {
        LoadOp::Clear(ClearColor::Transparent)
    } else {
        LoadOp::Load
    }
}

/// The quad pass recorded on the given frame.
pub open spec fn quad_pass_plan(counter: u32) -> PassPlan {
    PassPlan {
        load: quad_load(counter),
        store: true,
        draw: DrawCall {
            first_vertex: 0,
            vertex_count: 6,
            first_instance: quad_instance(counter),
            instance_count: 1,
        },
    }
}

/// The blit pass is the same on every frame: clear the output to white, then
/// draw the full-target quad once.
pub open spec fn blit_pass_plan() -> PassPlan {
    PassPlan {
        load: LoadOp::Clear(ClearColor::White),
        store: true,
        draw: DrawCall {
            first_vertex: 0,
            vertex_count: 6,
            first_instance: 0,
            instance_count: 1,
        },
    }
}

/// Both passes recorded on the given frame.
pub open spec fn frame_plan(counter: u32) -> FramePlan {
    FramePlan { quad_pass: quad_pass_plan(counter), blit_pass: blit_pass_plan() }
}

/// The counter after a frame: it advances by one and saturates at the top of
/// its range rather than wrapping back to a clearing first frame.
pub open spec fn next_counter(counter: u32) -> u32 {
    if counter == u32::MAX {
        u32::MAX
    } else {
        (counter + 1) as u32
    }
}

/// The only mutable state: how many frames have been rendered, saturating.
#[derive(Clone, Copy, PartialEq, Eq, Structural, Debug)]
pub struct FrameState {
    pub counter: u32,
}

impl FrameState {
    /// A fresh state: no frame rendered yet, so the next frame clears.
    pub fn new() -> (s: Self)
        ensures
            s.counter == 0,
    {
        FrameState { counter: 0 }
    }

    /// Decide everything the current frame records, and advance the counter.
    pub fn next_frame(&mut self) -> (plan: FramePlan)
        ensures
            plan == frame_plan(old(self).counter),
            final(self).counter == next_counter(old(self).counter),
    {
        let instance: u32 = self.counter % 4;
        let load = if self.counter == 0 {
            LoadOp::Clear(ClearColor::Transparent)
        } else {
            LoadOp::Load
        };
        let plan = FramePlan {
            quad_pass: PassPlan {
                load,
                store: true,
                draw: DrawCall {
                    first_vertex: 0,
                    vertex_count: 6,
                    first_instance: instance,
                    instance_count: 1,
                },
            },
            blit_pass: PassPlan {
                load: LoadOp::Clear(ClearColor::White),
                store: true,
                draw: DrawCall {
                    first_vertex: 0,
                    vertex_count: 6,
                    first_instance: 0,
                    instance_count: 1,
                },
            },
        };
        if self.counter != u32::MAX {
            self.counter = self.counter + 1;
        }
        plan
    }
}

/// The quad pass always selects one of the four sprite cells: the instance it
/// draws is below `SPRITE_CELL_COUNT` on every frame.
pub proof fn lemma_instance_in_range(counter: u32)
    ensures
        quad_instance(counter) < SPRITE_CELL_COUNT,
{
}

/// The sprite cell selection cycles with period `SPRITE_CELL_COUNT`: four
/// frames later the quad pass draws the same cell again.
pub proof fn lemma_instance_cycles(counter: u32)
    requires
        counter + SPRITE_CELL_COUNT <= u32::MAX,
    ensures
        quad_instance((counter + SPRITE_CELL_COUNT) as u32) == quad_instance(counter),
{
    assert((counter + 4) as u32 % 4 == counter % 4) by (nonlinear_arith)
        requires
            counter + 4 <= u32::MAX,
    ;
}

/// The frame counter never goes backwards, so once the first frame has
/// cleared the spritesheet no later frame clears it again.
pub proof fn lemma_no_second_clear(counter: u32)
    ensures
        next_counter(counter) >= counter,
        counter > 0 ==> quad_load(counter) is Load,
        quad_load(next_counter(counter)) is Load,
{
}

} // verus!
