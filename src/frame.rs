use vstd::prelude::*;

verus! {

/// A draw call over the half-open vertex range `[first_vertex, vertex_end)`
/// and instance range `[first_instance, instance_end)`, with no vertex or
/// index buffer bound.
#[derive(Clone, Copy, Debug, PartialEq, Eq, Structural)]
pub struct DrawCall {
    pub first_vertex: u32,
    pub vertex_end: u32,
    pub first_instance: u32,
    pub instance_end: u32,
}

/// One render pass: it clears each of its color attachments, binds the
/// render pipeline and issues one draw call.
#[derive(Clone, Copy, Debug, PartialEq, Eq, Structural)]
pub struct PassPlan {
    pub color_attachments: usize,
    pub draw: DrawCall,
}

/// The work of one frame: the render passes recorded into one command
/// buffer, then whether that buffer is submitted, the frame presented and
/// the device waited on until the work is done.
#[derive(Debug)]
pub struct FramePlan {
    pub passes: Vec<PassPlan>,
    pub submit: bool,
    pub present: bool,
    pub wait_idle: bool,
}

/// The procedural triangle: three vertices, one instance.
pub open spec fn triangle_draw() -> DrawCall {
    DrawCall { first_vertex: 0, vertex_end: 3, first_instance: 0, instance_end: 1 }
}

/// The single pass of a frame: one color attachment, the triangle drawn.
pub open spec fn triangle_pass() -> PassPlan {
    PassPlan { color_attachments: 1, draw: triangle_draw() }
}

/// A frame records exactly the triangle pass, is submitted and presented, and
/// the device is waited on before control returns.
pub open spec fn is_triangle_frame(p: FramePlan) -> bool {
    &&& p.passes@ == seq![triangle_pass()]
    &&& p.submit
    &&& p.present
    &&& p.wait_idle
}

/// Plans a frame once the next presentable frame has been acquired.
pub fn triangle_frame() -> (r: FramePlan)
    ensures
        is_triangle_frame(r),
{
    let pass = PassPlan {
        color_attachments: 1,
        draw: DrawCall { first_vertex: 0, vertex_end: 3, first_instance: 0, instance_end: 1 },
    };
    let mut passes: Vec<PassPlan> = Vec::new();
    passes.push(pass);
    FramePlan { passes, submit: true, present: true, wait_idle: true }
}

/// A frame plan that a redraw hands out records exactly one render pass with
/// exactly one color attachment, whose draw covers vertices `[0, 3)` and
/// instances `[0, 1)`.
pub proof fn lemma_one_pass_one_attachment(p: FramePlan)
    requires
        is_triangle_frame(p),
    ensures
        p.passes@.len() == 1,
        p.passes@[0].color_attachments == 1,
        p.passes@[0].draw.first_vertex == 0,
        p.passes@[0].draw.vertex_end == 3,
        p.passes@[0].draw.first_instance == 0,
        p.passes@[0].draw.instance_end == 1,
        p.submit && p.present,
{
}

} // verus!
