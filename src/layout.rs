//! Byte layouts of the vertex and instance records read by the shaders.
//!
//! Every attribute is a run of 32-bit float components. Attributes are
//! packed back to back from offset 0 and take consecutive shader locations.
use vstd::prelude::*;

verus! {

/// Size in bytes of one 32-bit component.
pub const COMPONENT_SIZE: u64 = 4;

/// Bytes between consecutive model vertices: position (3), texture
/// coordinate (2), normal (3), tangent (3), bitangent (3).
pub const MODEL_VERTEX_STRIDE: u64 = 56;

/// Bytes between consecutive instance records: a 4x4 model matrix, a 3x3
/// normal matrix and three words of padding.
pub const INSTANCE_STRIDE: u64 = 112;

/// Bytes between consecutive vertices of a flat shape: position (3) and
/// texture coordinate (2).
pub const SIMPLE_VERTEX_STRIDE: u64 = 20;

/// One attribute of a record: where it starts, where the shader reads it,
/// and how many float components it has.
#[derive(Clone, Copy, Debug, PartialEq, Eq, Structural)]
pub struct VertexAttribute {
    pub offset: u64,
    pub shader_location: u32,
    pub components: u32,
}

/// Whether a buffer advances per vertex or per instance.
#[derive(Clone, Copy, Debug, PartialEq, Eq, Structural)]
pub enum StepMode {
    Vertex,
    Instance,
}

/// The layout of one vertex buffer.
pub struct VertexLayout {
    pub array_stride: u64,
    pub step_mode: StepMode,
    pub attributes: Vec<VertexAttribute>,
}

/// Number of components in the attributes before position `i`.
pub open spec fn components_before(components: Seq<u32>, i: int) -> nat
    decreases i,
{
    if i <= 0 {
        0
    } else {
        components_before(components, i - 1) + components[i - 1] as nat
    }
}

/// Attributes with the given component counts packed from offset 0, at
/// shader locations counting up from `first_location`.
pub open spec fn packed(first_location: u32, components: Seq<u32>) -> Seq<VertexAttribute> {
    Seq::new(
        components.len(),
        |i: int|
            VertexAttribute {
                offset: (COMPONENT_SIZE * components_before(components, i)) as u64,
                shader_location: (first_location + i) as u32,
                components: components[i],
            },
    )
}

proof fn lemma_components_before_monotonic(components: Seq<u32>, i: int, j: int)
    requires
        i <= j,
    ensures
        components_before(components, i) <= components_before(components, j),
    decreases j - i,
{
    if i < j {
        lemma_components_before_monotonic(components, i, j - 1);
    }
}

/// Lays attributes with the given component counts out back to back.
pub fn packed_attributes(first_location: u32, components: &Vec<u32>) -> (r: Vec<VertexAttribute>)
    requires
        first_location + components@.len() <= u32::MAX + 1,
        COMPONENT_SIZE * components_before(components@, components@.len() as int) <= u64::MAX,
    ensures
        r@ == packed(first_location, components@),
{
    let mut r: Vec<VertexAttribute> = Vec::new();
    let mut offset: u64 = 0;
    let mut i: usize = 0;
    while i < components.len()
        invariant
            i <= components@.len(),
            first_location + components@.len() <= u32::MAX + 1,
            COMPONENT_SIZE * components_before(components@, components@.len() as int) <= u64::MAX,
            offset == COMPONENT_SIZE * components_before(components@, i as int),
            r@ =~= packed(first_location, components@).take(i as int),
        decreases components@.len() - i,
    {
        proof {
            lemma_components_before_monotonic(components@, i + 1, components@.len() as int);
        }
        r.push(
            VertexAttribute {
                offset,
                shader_location: first_location + i as u32,
                components: components[i],
            },
        );
        offset = offset + COMPONENT_SIZE * components[i] as u64;
        i += 1;
    }
    r
}

/// Layout of the model vertex record, read at shader locations 0 to 4.
pub fn model_vertex_layout() -> (r: VertexLayout)
    ensures
        r.array_stride == MODEL_VERTEX_STRIDE,
        r.step_mode == StepMode::Vertex,
        r.attributes@ == seq![
            VertexAttribute { offset: 0, shader_location: 0, components: 3 },
            VertexAttribute { offset: 12, shader_location: 1, components: 2 },
            VertexAttribute { offset: 20, shader_location: 2, components: 3 },
            VertexAttribute { offset: 32, shader_location: 3, components: 3 },
            VertexAttribute { offset: 44, shader_location: 4, components: 3 },
        ],
{
    let components: Vec<u32> = vec![3, 2, 3, 3, 3];
    proof {
        reveal_with_fuel(components_before, 6);
    }
    let attributes = packed_attributes(0, &components);
    assert(attributes@ =~= seq![
        VertexAttribute { offset: 0, shader_location: 0, components: 3 },
        VertexAttribute { offset: 12, shader_location: 1, components: 2 },
        VertexAttribute { offset: 20, shader_location: 2, components: 3 },
        VertexAttribute { offset: 32, shader_location: 3, components: 3 },
        VertexAttribute { offset: 44, shader_location: 4, components: 3 },
    ]);
    VertexLayout { array_stride: MODEL_VERTEX_STRIDE, step_mode: StepMode::Vertex, attributes }
}

/// Layout of the instance record: the model matrix as four columns at
/// shader locations 5 to 8, then the normal matrix as three columns at 9 to
/// 11. The padding at the end is read by no attribute.
pub fn instance_layout() -> (r: VertexLayout)
    ensures
        r.array_stride == INSTANCE_STRIDE,
        r.step_mode == StepMode::Instance,
        r.attributes@ == seq![
            VertexAttribute { offset: 0, shader_location: 5, components: 4 },
            VertexAttribute { offset: 16, shader_location: 6, components: 4 },
            VertexAttribute { offset: 32, shader_location: 7, components: 4 },
            VertexAttribute { offset: 48, shader_location: 8, components: 4 },
            VertexAttribute { offset: 64, shader_location: 9, components: 3 },
            VertexAttribute { offset: 76, shader_location: 10, components: 3 },
            VertexAttribute { offset: 88, shader_location: 11, components: 3 },
        ],
{
    let components: Vec<u32> = vec![4, 4, 4, 4, 3, 3, 3];
    proof {
        reveal_with_fuel(components_before, 8);
    }
    let attributes = packed_attributes(5, &components);
    assert(attributes@ =~= seq![
        VertexAttribute { offset: 0, shader_location: 5, components: 4 },
        VertexAttribute { offset: 16, shader_location: 6, components: 4 },
        VertexAttribute { offset: 32, shader_location: 7, components: 4 },
        VertexAttribute { offset: 48, shader_location: 8, components: 4 },
        VertexAttribute { offset: 64, shader_location: 9, components: 3 },
        VertexAttribute { offset: 76, shader_location: 10, components: 3 },
        VertexAttribute { offset: 88, shader_location: 11, components: 3 },
    ]);
    VertexLayout { array_stride: INSTANCE_STRIDE, step_mode: StepMode::Instance, attributes }
}

/// Layout of a flat shape's vertex record, read at shader locations 0 and 1.
pub fn simple_vertex_layout() -> (r: VertexLayout)
    ensures
        r.array_stride == SIMPLE_VERTEX_STRIDE,
        r.step_mode == StepMode::Vertex,
        r.attributes@ == seq![
            VertexAttribute { offset: 0, shader_location: 0, components: 3 },
            VertexAttribute { offset: 12, shader_location: 1, components: 2 },
        ],
{
    let components: Vec<u32> = vec![3, 2];
    proof {
        reveal_with_fuel(components_before, 3);
    }
    let attributes = packed_attributes(0, &components);
    assert(attributes@ =~= seq![
        VertexAttribute { offset: 0, shader_location: 0, components: 3 },
        VertexAttribute { offset: 12, shader_location: 1, components: 2 },
    ]);
    VertexLayout { array_stride: SIMPLE_VERTEX_STRIDE, step_mode: StepMode::Vertex, attributes }
}

} // verus!
