//! Vertex buffer layouts and fixed states of the render pipelines.
//!
//! The disc and quad vertices carry one 2-component float position at shader
//! location 0. Each particle instance carries two 4-component float vectors
//! (position, size and loop fraction; then colour) at shader locations 1 and 2.
//! The particle pipeline blends its discs over the texture; the blur and copy
//! pipelines replace what they cover.
use vstd::prelude::*;

verus! {

/// Bytes in one 4-component vector of 32-bit floats.
pub const VEC4_BYTES: u64 = 16;

/// Number of 4-component vectors in one instance.
pub const INSTANCE_VEC4_COUNT: u32 = 2;

/// Bytes between consecutive instances in the instance buffer.
pub const INSTANCE_STRIDE: u64 = 32;

/// One vertex attribute of 32-bit float components.
#[derive(PartialEq, Eq, Structural, Clone, Copy, Debug)]
pub struct AttributeSlot {
    pub shader_location: u32,
    /// Byte offset within one vertex or instance.
    pub offset: u64,
    /// Number of float components (2 or 4).
    pub components: u32,
}

/// The single attribute of a disc or quad vertex.
pub fn vertex_attribute() -> (slot: AttributeSlot)
    ensures
        slot == (AttributeSlot { shader_location: 0, offset: 0, components: 2 }),
{
    AttributeSlot { shader_location: 0, offset: 0, components: 2 }
}

/// Attribute `i` of a particle instance: shader location `i + 1`, `i * 16`
/// bytes into the instance, four float components.
pub open spec fn spec_instance_attribute(i: int) -> AttributeSlot {
    AttributeSlot { shader_location: (i + 1) as u32, offset: (VEC4_BYTES * i) as u64, components: 4 }
}

/// All attributes of a particle instance, in shader-location order.
pub open spec fn spec_instance_attributes() -> Seq<AttributeSlot> {
    Seq::new(INSTANCE_VEC4_COUNT as nat, |i: int| spec_instance_attribute(i))
}

/// The attributes of one particle instance: vector `i` at shader location
/// `i + 1`, `i * 16` bytes into the instance.
pub fn instance_attributes() -> (slots: Vec<AttributeSlot>)
    ensures
        slots@ == spec_instance_attributes(),
{
    let mut slots: Vec<AttributeSlot> = Vec::new();
    let mut i: u32 = 0;
    while i < INSTANCE_VEC4_COUNT
        invariant
            i <= INSTANCE_VEC4_COUNT,
            slots@ =~= spec_instance_attributes().take(i as int),
        decreases INSTANCE_VEC4_COUNT - i,
    {
        slots.push(AttributeSlot { shader_location: i + 1, offset: VEC4_BYTES * (i as u64), components: 4 });
        i = i + 1;
        assert(slots@ =~= spec_instance_attributes().take(i as int));
    }
    assert(spec_instance_attributes().take(INSTANCE_VEC4_COUNT as int) =~= spec_instance_attributes());
    slots
}

/// The instance attributes fit in one instance stride without overlapping,
/// each at its own shader location, none at the vertex attribute's location.
pub proof fn lemma_instance_layout_fits()
    ensures
        ({
            let slots = spec_instance_attributes();
            &&& forall|i: int|
                0 <= i < slots.len() ==> (#[trigger] slots[i]).offset + 4 * slots[i].components
                    <= INSTANCE_STRIDE
            &&& forall|i: int, j: int|
                0 <= i < j < slots.len() ==> (#[trigger] slots[i]).offset + 4 * slots[i].components
                    <= (#[trigger] slots[j]).offset && slots[i].shader_location
                    != slots[j].shader_location
            &&& forall|i: int| 0 <= i < slots.len() ==> (#[trigger] slots[i]).shader_location != 0
        }),
{
}

/// The render pipelines of the sketch.
#[derive(PartialEq, Eq, Structural, Clone, Copy, Debug)]
pub enum Pipeline {
    /// Full-screen quad that blurs a texture along one axis.
    Blur,
    /// Instanced discs, one per particle.
    Instances,
    /// Full-screen quad that copies a texture.
    FromTexture,
}

/// A factor of a blend equation.
#[derive(PartialEq, Eq, Structural, Clone, Copy, Debug)]
pub enum BlendFactor {
    Zero,
    One,
    SrcAlpha,
    OneMinusSrcAlpha,
}

/// One blend equation: `source * src_factor + destination * dst_factor`.
#[derive(PartialEq, Eq, Structural, Clone, Copy, Debug)]
pub struct BlendComponent {
    pub src_factor: BlendFactor,
    pub dst_factor: BlendFactor,
}

/// How a pipeline assembles its vertices into triangles.
#[derive(PartialEq, Eq, Structural, Clone, Copy, Debug)]
pub enum Topology {
    TriangleList,
    TriangleStrip,
}

/// The fixed state of one pipeline.
#[derive(PartialEq, Eq, Structural, Clone, Copy, Debug)]
pub struct PipelineState {
    pub color_blend: BlendComponent,
    pub alpha_blend: BlendComponent,
    pub topology: Topology,
    /// Whether the pipeline reads a per-instance buffer besides its vertices.
    pub instanced: bool,
}

/// Writing the source over the destination: `source * 1 + destination * 0`.
pub open spec fn spec_replace() -> BlendComponent {
    BlendComponent { src_factor: BlendFactor::One, dst_factor: BlendFactor::Zero }
}

/// The state of pipeline `p`.
pub open spec fn spec_pipeline_state(p: Pipeline) -> PipelineState {
    match p {
        Pipeline::Instances => PipelineState {
            color_blend: BlendComponent {
                src_factor: BlendFactor::SrcAlpha,
                dst_factor: BlendFactor::OneMinusSrcAlpha,
            },
            alpha_blend: BlendComponent {
                src_factor: BlendFactor::One,
                dst_factor: BlendFactor::OneMinusSrcAlpha,
            },
            topology: Topology::TriangleList,
            instanced: true,
        },
        _ => PipelineState {
            color_blend: spec_replace(),
            alpha_blend: spec_replace(),
            topology: Topology::TriangleStrip,
            instanced: false,
        },
    }
}

/// The fixed state of pipeline `p`: the particle discs are alpha-blended
/// triangle lists with an instance buffer; the blur and copy quads replace
/// their target as triangle strips.
pub fn pipeline_state(p: Pipeline) -> (state: PipelineState)
    ensures
        state == spec_pipeline_state(p),
{
    match p {
        Pipeline::Instances => PipelineState {
            color_blend: BlendComponent {
                src_factor: BlendFactor::SrcAlpha,
                dst_factor: BlendFactor::OneMinusSrcAlpha,
            },
            alpha_blend: BlendComponent {
                src_factor: BlendFactor::One,
                dst_factor: BlendFactor::OneMinusSrcAlpha,
            },
            topology: Topology::TriangleList,
            instanced: true,
        },
        _ => {
            let replace = BlendComponent { src_factor: BlendFactor::One, dst_factor: BlendFactor::Zero };
            PipelineState {
                color_blend: replace,
                alpha_blend: replace,
                topology: Topology::TriangleStrip,
                instanced: false,
            }
        },
    }
}

/// Only the particle pipeline reads an instance buffer, and only it blends
/// with what lies beneath; the others overwrite their target.
pub proof fn lemma_only_particles_blend(p: Pipeline)
    ensures
        spec_pipeline_state(p).instanced <==> p == Pipeline::Instances,
        (spec_pipeline_state(p).color_blend == spec_replace() && spec_pipeline_state(p).alpha_blend
            == spec_replace()) <==> p != Pipeline::Instances,
{
}

} // verus!
