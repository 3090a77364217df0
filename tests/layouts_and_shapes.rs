use graphics::layout::{
    instance_layout, model_vertex_layout, packed_attributes, simple_vertex_layout, StepMode,
    VertexAttribute, INSTANCE_STRIDE, MODEL_VERTEX_STRIDE,
};
use graphics::shapes::circle_indices;

fn attr(offset: u64, shader_location: u32, components: u32) -> VertexAttribute {
    VertexAttribute { offset, shader_location, components }
}

#[test]
fn model_vertex_layout_offsets() {
    let l = model_vertex_layout();
    assert_eq!(l.array_stride, 56);
    assert_eq!(l.array_stride, MODEL_VERTEX_STRIDE);
    assert_eq!(l.step_mode, StepMode::Vertex);
    assert_eq!(
        l.attributes,
        vec![attr(0, 0, 3), attr(12, 1, 2), attr(20, 2, 3), attr(32, 3, 3), attr(44, 4, 3)]
    );
}

#[test]
fn instance_layout_offsets() {
    let l = instance_layout();
    assert_eq!(l.array_stride, INSTANCE_STRIDE);
    assert_eq!(l.step_mode, StepMode::Instance);
    assert_eq!(
        l.attributes,
        vec![
            attr(0, 5, 4),
            attr(16, 6, 4),
            attr(32, 7, 4),
            attr(48, 8, 4),
            attr(64, 9, 3),
            attr(76, 10, 3),
            attr(88, 11, 3),
        ]
    );
    // the padding after the normal matrix is read by no attribute
    let last = l.attributes[6];
    assert_eq!(last.offset + 4 * last.components as u64 + 12, l.array_stride);
}

#[test]
fn simple_vertex_layout_offsets() {
    let l = simple_vertex_layout();
    assert_eq!(l.array_stride, 20);
    assert_eq!(l.attributes, vec![attr(0, 0, 3), attr(12, 1, 2)]);
}

#[test]
fn packed_attributes_from_custom_location() {
    assert_eq!(packed_attributes(3, &vec![1, 4, 2]), vec![attr(0, 3, 1), attr(4, 4, 4), attr(20, 5, 2)]);
    assert!(packed_attributes(0, &vec![]).is_empty());
}

#[test]
fn circle_indices_fan() {
    assert_eq!(circle_indices(4), vec![0, 1, 0, 0, 2, 1, 0, 3, 2, 0, 3, 0]);
}

#[test]
fn circle_with_one_point() {
    assert_eq!(circle_indices(1), vec![0, 0, 0]);
}
