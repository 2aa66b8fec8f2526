//! The per-frame clock and the plan of render passes that draws one frame.
//!
//! Each frame the sketch may blur its draw texture in two passes (horizontal
//! into the blur texture, vertical back into the draw texture), then draws all
//! particles as instanced discs onto the draw texture, and finally copies the
//! draw texture onto the window's frame.
use vstd::prelude::*;
use crate::layout::Pipeline;

verus! {

/// Length, in frames, of the animation loop.
pub const LENGTH_FRAME: u64 = 420;

/// Vertices of the full-screen quad (two triangles).
pub const QUAD_VERTEX_COUNT: u32 = 6;

/// Position of frame `elapsed` within the animation loop.
pub fn loop_frame(elapsed: u64) -> (position: u64)
    ensures
        position == elapsed % LENGTH_FRAME,
        position < LENGTH_FRAME,
{
    elapsed % LENGTH_FRAME
}

/// How the update step prepares the draw texture before drawing on it.
#[derive(PartialEq, Eq, Structural, Clone, Copy, Debug)]
pub enum Backdrop {
    /// Paint the whole texture black, replacing what it held.
    Black,
    /// Lay a nearly transparent black rectangle over it, fading older frames.
    Fade,
}

/// The backdrop of the update step for frame `elapsed`: the texture starts
/// black on the first frames and fades afterwards.
pub fn update_backdrop(elapsed: u64) -> (backdrop: Backdrop)
    ensures
        backdrop == (if elapsed <= 1 { Backdrop::Black } else { Backdrop::Fade }),
{
    if elapsed <= 1 {
        Backdrop::Black
    } else {
        Backdrop::Fade
    }
}

/// What a render pass does with its target's contents when it begins.
#[derive(PartialEq, Eq, Structural, Clone, Copy, Debug)]
pub enum LoadAction {
    /// Keep the target's contents.
    Load,
    /// Clear the target to opaque red.
    ClearRed,
}

/// The load action of the blur passes of frame `elapsed`.
pub open spec fn spec_blur_load(elapsed: u64) -> LoadAction {
    if elapsed == 1 {
        LoadAction::ClearRed
    } else {
        LoadAction::Load
    }
}

/// Load action of the blur passes: they clear on the very first frame only.
pub fn blur_load_action(elapsed: u64) -> (load: LoadAction)
    ensures
        load == spec_blur_load(elapsed),
        (load == LoadAction::ClearRed) <==> elapsed == 1,
        (load == LoadAction::Load) <==> elapsed != 1,
{
    if elapsed == 1 {
        LoadAction::ClearRed
    } else {
        LoadAction::Load
    }
}

/// A texture a pass can render into or sample from.
#[derive(PartialEq, Eq, Structural, Clone, Copy, Debug)]
pub enum Surface {
    /// The texture the sketch draws into and keeps between frames.
    DrawTexture,
    /// The intermediate texture of the two-pass blur.
    BlurTexture,
    /// The window's frame.
    Frame,
}

/// A texture a pass can sample.
#[derive(PartialEq, Eq, Structural, Clone, Copy, Debug)]
pub enum SampledTexture {
    /// The texture the sketch draws into.
    DrawTexture,
    /// The intermediate texture of the two-pass blur.
    BlurTexture,
}

/// The surface a sampled texture is.
pub open spec fn spec_texture_surface(t: SampledTexture) -> Surface {
    match t {
        SampledTexture::DrawTexture => Surface::DrawTexture,
        SampledTexture::BlurTexture => Surface::BlurTexture,
    }
}

/// What a pass binds for its shaders.
#[derive(PartialEq, Eq, Structural, Clone, Copy, Debug)]
pub enum Binding {
    /// The uniforms holding the frame's size.
    FrameUniforms,
    /// A texture and its sampler.
    Texture(SampledTexture),
    /// A texture, its sampler and the blur uniforms.
    TextureWithBlurUniforms(SampledTexture),
}

/// The surface a binding samples, if any.
pub open spec fn spec_sampled(b: Binding) -> Option<Surface> {
    match b {
        Binding::FrameUniforms => None,
        Binding::Texture(t) => Some(spec_texture_surface(t)),
        Binding::TextureWithBlurUniforms(t) => Some(spec_texture_surface(t)),
    }
}

/// The vertices a pass draws.
#[derive(PartialEq, Eq, Structural, Clone, Copy, Debug)]
pub enum Geometry {
    /// The full-screen quad; the element count counts vertices.
    Quad,
    /// One disc per instance; the element count counts indices into the disc.
    InstancedDisc,
}

/// The work of one render pass.
#[derive(PartialEq, Eq, Structural, Clone, Copy, Debug)]
pub enum PassKind {
    /// Blur along the x axis.
    BlurHorizontal,
    /// Blur along the y axis.
    BlurVertical,
    /// Draw every particle as an instanced disc.
    Instances,
    /// Copy the draw texture onto the frame.
    Present,
}

/// One render pass: what it draws, where, from which texture, and how much.
#[derive(PartialEq, Eq, Structural, Clone, Copy, Debug)]
pub struct RenderPassPlan {
    pub kind: PassKind,
    pub target: Surface,
    pub pipeline: Pipeline,
    pub binding: Binding,
    pub load: LoadAction,
    pub geometry: Geometry,
    /// Vertices of the quad, or indices of the disc, drawn per instance.
    pub element_count: u32,
    pub instance_count: u32,
}

pub open spec fn spec_blur_horizontal(elapsed: u64) -> RenderPassPlan {
    RenderPassPlan {
        kind: PassKind::BlurHorizontal,
        target: Surface::BlurTexture,
        pipeline: Pipeline::Blur,
        binding: Binding::TextureWithBlurUniforms(SampledTexture::DrawTexture),
        load: spec_blur_load(elapsed),
        geometry: Geometry::Quad,
        element_count: QUAD_VERTEX_COUNT,
        instance_count: 1,
    }
}

pub open spec fn spec_blur_vertical(elapsed: u64) -> RenderPassPlan {
    RenderPassPlan {
        kind: PassKind::BlurVertical,
        target: Surface::DrawTexture,
        pipeline: Pipeline::Blur,
        binding: Binding::TextureWithBlurUniforms(SampledTexture::BlurTexture),
        load: spec_blur_load(elapsed),
        geometry: Geometry::Quad,
        element_count: QUAD_VERTEX_COUNT,
        instance_count: 1,
    }
}

pub open spec fn spec_instances_pass(index_count: u32, instance_count: u32) -> RenderPassPlan {
    RenderPassPlan {
        kind: PassKind::Instances,
        target: Surface::DrawTexture,
        pipeline: Pipeline::Instances,
        binding: Binding::FrameUniforms,
        load: LoadAction::Load,
        geometry: Geometry::InstancedDisc,
        element_count: index_count,
        instance_count: instance_count,
    }
}

pub open spec fn spec_present_pass() -> RenderPassPlan {
    RenderPassPlan {
        kind: PassKind::Present,
        target: Surface::Frame,
        pipeline: Pipeline::FromTexture,
        binding: Binding::Texture(SampledTexture::DrawTexture),
        load: LoadAction::Load,
        geometry: Geometry::Quad,
        element_count: QUAD_VERTEX_COUNT,
        instance_count: 1,
    }
}

/// The passes of frame `elapsed`, in the order they are recorded.
pub open spec fn spec_view_passes(
    elapsed: u64,
    do_blur: bool,
    index_count: u32,
    instance_count: u32,
) -> Seq<RenderPassPlan> {
    let tail = seq![spec_instances_pass(index_count, instance_count), spec_present_pass()];
    if do_blur {
        seq![spec_blur_horizontal(elapsed), spec_blur_vertical(elapsed)] + tail
    } else {
        tail
    }
}

/// The render passes that draw frame `elapsed`: the two blur passes when
/// `do_blur`, then the instanced particles (`index_count` indices per disc,
/// `instance_count` discs), then the copy onto the frame.
pub fn plan_view_passes(elapsed: u64, do_blur: bool, index_count: u32, instance_count: u32) -> (passes:
    Vec<RenderPassPlan>)
    ensures
        passes@ == spec_view_passes(elapsed, do_blur, index_count, instance_count),
        passes@.len() == (if do_blur { 4int } else { 2int }),
        forall|i: int|
            0 <= i < passes@.len() && (#[trigger] passes@[i]).geometry == Geometry::Quad ==> passes@[i].element_count
                == 6 && passes@[i].instance_count == 1,
        forall|i: int|
            0 <= i < passes@.len() ==> ((#[trigger] passes@[i]).kind == PassKind::Instances <==> i
                == passes@.len() - 2),
        passes@[passes@.len() - 2].kind == PassKind::Instances,
        passes@[passes@.len() - 2].geometry == Geometry::InstancedDisc,
        passes@[passes@.len() - 2].element_count == index_count,
        passes@[passes@.len() - 2].instance_count == instance_count,
        passes@[passes@.len() - 2].target == Surface::DrawTexture,
        passes@[passes@.len() - 2].load == LoadAction::Load,
        passes@[passes@.len() - 1].kind == PassKind::Present,
        passes@[passes@.len() - 1].target == Surface::Frame,
        passes@[passes@.len() - 1].geometry == Geometry::Quad,
        passes@[passes@.len() - 1].element_count == 6,
        passes@[passes@.len() - 1].instance_count == 1,
        forall|i: int|
            0 <= i < passes@.len() ==> ((#[trigger] passes@[i]).load == LoadAction::ClearRed <==> (
            elapsed == 1 && do_blur && i < 2)),
        do_blur ==> passes@[0].kind == PassKind::BlurHorizontal && passes@[1].kind
            == PassKind::BlurVertical,
{
    let mut passes: Vec<RenderPassPlan> = Vec::new();
    if do_blur {
        let load = blur_load_action(elapsed);
        passes.push(
            RenderPassPlan {
                kind: PassKind::BlurHorizontal,
                target: Surface::BlurTexture,
                pipeline: Pipeline::Blur,
                binding: Binding::TextureWithBlurUniforms(SampledTexture::DrawTexture),
                load,
                geometry: Geometry::Quad,
                element_count: QUAD_VERTEX_COUNT,
                instance_count: 1,
            },
        );
        passes.push(
            RenderPassPlan {
                kind: PassKind::BlurVertical,
                target: Surface::DrawTexture,
                pipeline: Pipeline::Blur,
                binding: Binding::TextureWithBlurUniforms(SampledTexture::BlurTexture),
                load,
                geometry: Geometry::Quad,
                element_count: QUAD_VERTEX_COUNT,
                instance_count: 1,
            },
        );
    }
    passes.push(
        RenderPassPlan {
            kind: PassKind::Instances,
            target: Surface::DrawTexture,
            pipeline: Pipeline::Instances,
            binding: Binding::FrameUniforms,
            load: LoadAction::Load,
            geometry: Geometry::InstancedDisc,
            element_count: index_count,
            instance_count,
        },
    );
    passes.push(
        RenderPassPlan {
            kind: PassKind::Present,
            target: Surface::Frame,
            pipeline: Pipeline::FromTexture,
            binding: Binding::Texture(SampledTexture::DrawTexture),
            load: LoadAction::Load,
            geometry: Geometry::Quad,
            element_count: QUAD_VERTEX_COUNT,
            instance_count: 1,
        },
    );
    assert(passes@ =~= spec_view_passes(elapsed, do_blur, index_count, instance_count));
    proof {
        lemma_plan_draws_what_it_should(elapsed, do_blur, index_count, instance_count);
    }
    passes
}

/// The loop position repeats every `LENGTH_FRAME` frames and stays below it.
pub proof fn lemma_loop_frame_periodic(elapsed: int)
    requires
        elapsed >= 0,
    ensures
        (elapsed + LENGTH_FRAME) % (LENGTH_FRAME as int) == elapsed % (LENGTH_FRAME as int),
        0 <= elapsed % (LENGTH_FRAME as int) < LENGTH_FRAME,
{
}

/// Every frame ends by presenting the draw texture on the window's frame.
pub proof fn lemma_frame_ends_presenting(elapsed: u64, do_blur: bool, index_count: u32, instance_count: u32)
    ensures
        ({
            let p = spec_view_passes(elapsed, do_blur, index_count, instance_count);
            &&& p.len() >= 2
            &&& p.last().kind == PassKind::Present
            &&& p.last().target == Surface::Frame
            &&& spec_sampled(p.last().binding) == Some(Surface::DrawTexture)
        }),
{
}

/// No pass samples the texture it renders into.
pub proof fn lemma_no_pass_samples_its_target(elapsed: u64, do_blur: bool, index_count: u32, instance_count: u32)
    ensures
        forall|i: int|
            0 <= i < spec_view_passes(elapsed, do_blur, index_count, instance_count).len() ==> spec_sampled(
                (#[trigger] spec_view_passes(elapsed, do_blur, index_count, instance_count)[i]).binding,
            ) != Some(spec_view_passes(elapsed, do_blur, index_count, instance_count)[i].target),
{
}

/// No pass samples the window's frame: the frame is only ever a target.
pub proof fn lemma_frame_never_sampled(elapsed: u64, do_blur: bool, index_count: u32, instance_count: u32)
    ensures
        forall|i: int|
            0 <= i < spec_view_passes(elapsed, do_blur, index_count, instance_count).len() ==> spec_sampled(
                (#[trigger] spec_view_passes(elapsed, do_blur, index_count, instance_count)[i]).binding,
            ) != Some(Surface::Frame),
{
}

/// Each pass runs the pipeline of its work and binds what that pipeline reads:
/// the blur passes a texture with the blur uniforms, the particle pass the
/// frame uniforms, the copy a texture alone; only the particle pass draws
/// instanced discs.
pub proof fn lemma_pass_pipeline_matches_binding(
    elapsed: u64,
    do_blur: bool,
    index_count: u32,
    instance_count: u32,
)
    ensures
        forall|i: int|
            0 <= i < spec_view_passes(elapsed, do_blur, index_count, instance_count).len() ==> {
                let p = #[trigger] spec_view_passes(elapsed, do_blur, index_count, instance_count)[i];
                &&& (p.pipeline == Pipeline::Blur) <==> (p.kind == PassKind::BlurHorizontal || p.kind
                    == PassKind::BlurVertical)
                &&& (p.pipeline == Pipeline::Blur) <==> (p.binding matches Binding::TextureWithBlurUniforms(_))
                &&& (p.pipeline == Pipeline::Instances) <==> (p.binding == Binding::FrameUniforms)
                &&& (p.pipeline == Pipeline::FromTexture) <==> (p.binding matches Binding::Texture(_))
                &&& (p.pipeline == Pipeline::Instances) <==> (p.geometry == Geometry::InstancedDisc)
            },
{
}

/// With blur on, the frame starts with two passes that go from the draw texture
/// to the blur texture and back, so the blurred image lands in the draw texture
/// before the particles are drawn over it; with blur off, no pass blurs.
pub proof fn lemma_blur_ping_pong(elapsed: u64, do_blur: bool, index_count: u32, instance_count: u32)
    ensures
        ({
            let p = spec_view_passes(elapsed, do_blur, index_count, instance_count);
            if do_blur {
                &&& p.len() == 4
                &&& p[0].kind == PassKind::BlurHorizontal
                &&& spec_sampled(p[0].binding) == Some(Surface::DrawTexture)
                &&& p[0].target == Surface::BlurTexture
                &&& p[1].kind == PassKind::BlurVertical
                &&& spec_sampled(p[1].binding) == Some(p[0].target)
                &&& p[1].target == Surface::DrawTexture
                &&& p[2].kind == PassKind::Instances
            } else {
                &&& p.len() == 2
                &&& p[0].kind == PassKind::Instances
            }
        }),
{
}

/// The particles are drawn once per frame onto the draw texture: one indexed
/// draw of `index_count` indices and `instance_count` instances, kept on top of
/// what the texture already holds.
pub proof fn lemma_instances_drawn_once(elapsed: u64, do_blur: bool, index_count: u32, instance_count: u32)
    ensures
        ({
            let p = spec_view_passes(elapsed, do_blur, index_count, instance_count);
            &&& forall|i: int| 0 <= i < p.len() && (#[trigger] p[i]).kind == PassKind::Instances ==> p[i]
                == spec_instances_pass(index_count, instance_count)
            &&& exists|i: int| 0 <= i < p.len() && (#[trigger] p[i]).kind == PassKind::Instances
            &&& forall|i: int, j: int|
                0 <= i < p.len() && 0 <= j < p.len() && (#[trigger] p[i]).kind == PassKind::Instances && (
                #[trigger] p[j]).kind == PassKind::Instances ==> i == j
        }),
{
    let p = spec_view_passes(elapsed, do_blur, index_count, instance_count);
    let k: int = if do_blur { 2 } else { 0 };
    assert(p[k].kind == PassKind::Instances);
}

/// A pass clears its target only on the first frame, and only when blurring.
pub proof fn lemma_clear_only_first_blur(elapsed: u64, do_blur: bool, index_count: u32, instance_count: u32)
    ensures
        forall|i: int|
            0 <= i < spec_view_passes(elapsed, do_blur, index_count, instance_count).len() && (
            #[trigger] spec_view_passes(elapsed, do_blur, index_count, instance_count)[i]).load
                == LoadAction::ClearRed ==> elapsed == 1 && do_blur && i < 2,
{
}

/// The blur passes clear to red on frame 1 and on no other frame, whatever
/// the position in the animation loop.
pub proof fn lemma_blur_clears_on_frame_one_only(elapsed: u64)
    ensures
        (spec_blur_load(elapsed) == LoadAction::ClearRed) <==> elapsed == 1,
        (spec_blur_load(elapsed) == LoadAction::Load) <==> elapsed != 1,
{
}

/// What every frame's plan draws, in terms of its inputs: four passes with
/// blur, two without; every quad pass draws the whole six-vertex quad once;
/// the one particle pass, second to last, draws `index_count` indices of the
/// disc for each of `instance_count` instances onto the draw texture; the last
/// pass copies the quad onto the window once; and a pass clears exactly when
/// it is a blur pass of frame 1.
pub proof fn lemma_plan_draws_what_it_should(elapsed: u64, do_blur: bool, index_count: u32, instance_count: u32)
    ensures
        ({
            let p = spec_view_passes(elapsed, do_blur, index_count, instance_count);
            &&& p.len() == (if do_blur { 4int } else { 2int })
            &&& forall|i: int|
                0 <= i < p.len() && (#[trigger] p[i]).geometry == Geometry::Quad ==> p[i].element_count
                    == 6 && p[i].instance_count == 1
            &&& forall|i: int|
                0 <= i < p.len() ==> ((#[trigger] p[i]).kind == PassKind::Instances <==> i == p.len() - 2)
            &&& p[p.len() - 2].kind == PassKind::Instances
            &&& p[p.len() - 2].geometry == Geometry::InstancedDisc
            &&& p[p.len() - 2].element_count == index_count
            &&& p[p.len() - 2].instance_count == instance_count
            &&& p[p.len() - 2].target == Surface::DrawTexture
            &&& p[p.len() - 2].load == LoadAction::Load
            &&& p[p.len() - 1].kind == PassKind::Present
            &&& p[p.len() - 1].target == Surface::Frame
            &&& p[p.len() - 1].geometry == Geometry::Quad
            &&& p[p.len() - 1].element_count == 6
            &&& p[p.len() - 1].instance_count == 1
            &&& forall|i: int|
                0 <= i < p.len() ==> ((#[trigger] p[i]).load == LoadAction::ClearRed <==> (elapsed == 1
                    && do_blur && i < 2))
            &&& do_blur ==> p[0].kind == PassKind::BlurHorizontal && p[1].kind == PassKind::BlurVertical
        }),
{
}

} // verus!
