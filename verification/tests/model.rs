use kengine::gl::vertex_array::VertexAttribPointerType;
use kengine::model::cube_polygons;
use kengine::model::cube_vertices;
use kengine::gl::vertex_array::VertexAttribPointer;
use kengine::model::default_attribute_descriptions;
use kengine::model::default_attribute_pointers;
use kengine::model::AttributeDescription;
use kengine::model::ModelLayout;
use kengine::model::Polygon;
use kengine::model::COMPONENT_SIZE;
use kengine::model::CUBE_POLYGONS;
use kengine::model::CUBE_VERTICES;
use kengine::model::POLYGON_SIZE;
use kengine::model::VERTEX_SIZE;

#[test]
fn sizes_are_those_of_the_data_in_memory() {
    assert_eq!(COMPONENT_SIZE, std::mem::size_of::<f32>());
    assert_eq!(VERTEX_SIZE, std::mem::size_of::<([f32; 3], [f32; 3], [f32; 2])>());
    assert_eq!(POLYGON_SIZE, std::mem::size_of::<Polygon>());
    assert_eq!(POLYGON_SIZE, std::mem::size_of::<[u32; 3]>());
}

#[test]
fn vertex_has_position_colour_and_texture_coordinates() {
    let float = VertexAttribPointerType::Float;
    assert_eq!(
        default_attribute_descriptions(),
        vec![
            AttributeDescription { location: 0, components: 3, data_type: float, stride: 32, offset: 0 },
            AttributeDescription { location: 1, components: 3, data_type: float, stride: 32, offset: 12 },
            AttributeDescription { location: 2, components: 2, data_type: float, stride: 32, offset: 24 },
        ]
    );
}

#[test]
fn attributes_fill_the_vertex_without_gaps() {
    let attributes = default_attribute_descriptions();
    let mut end = 0;
    for attribute in &attributes {
        assert_eq!(attribute.offset, end);
        assert_eq!(attribute.stride, VERTEX_SIZE);
        end = attribute.offset + attribute.components as usize * COMPONENT_SIZE;
    }
    assert_eq!(end, VERTEX_SIZE);
}

#[test]
fn layout_of_the_cube() {
    assert_eq!(
        ModelLayout::new(8, 12),
        Some(ModelLayout { vertex_count: 36, vertex_bytes: 256, index_bytes: 144 })
    );
}

#[test]
fn layout_of_nothing() {
    assert_eq!(
        ModelLayout::new(0, 0),
        Some(ModelLayout { vertex_count: 0, vertex_bytes: 0, index_bytes: 0 })
    );
}

#[test]
fn layout_that_cannot_be_held_is_refused() {
    let most_polygons = i32::MAX as usize / 3;
    assert_eq!(
        ModelLayout::new(1, most_polygons),
        Some(ModelLayout {
            vertex_count: 2_147_483_646,
            vertex_bytes: 32,
            index_bytes: most_polygons as isize * 12,
        })
    );
    assert_eq!(ModelLayout::new(1, most_polygons + 1), None);
    assert_eq!(ModelLayout::new(1, usize::MAX), None);
    assert_eq!(ModelLayout::new(isize::MAX as usize / 32 + 1, 1), None);
    assert_eq!(ModelLayout::new(usize::MAX, 1), None);
    assert_eq!(
        ModelLayout::new(isize::MAX as usize / 32, 1).map(|layout| layout.vertex_bytes),
        Some(isize::MAX / 32 * 32)
    );
}

#[test]
fn cube_has_its_eight_corners() {
    let expected: [([f32; 3], [f32; 3], [f32; 2]); 8] = [
        ([-1.0, -1.0, 1.0], [0.0, 0.0, 1.0], [0.0, 1.0]),
        ([-1.0, 1.0, 1.0], [0.0, 1.0, 1.0], [0.0, 0.0]),
        ([1.0, 1.0, 1.0], [1.0, 1.0, 1.0], [1.0, 0.0]),
        ([1.0, -1.0, 1.0], [1.0, 0.0, 1.0], [1.0, 1.0]),
        ([-1.0, -1.0, -1.0], [0.0, 0.0, 0.0], [0.0, 0.0]),
        ([-1.0, 1.0, -1.0], [0.0, 1.0, 0.0], [0.0, 1.0]),
        ([1.0, 1.0, -1.0], [1.0, 1.0, 0.0], [1.0, 1.0]),
        ([1.0, -1.0, -1.0], [1.0, 0.0, 0.0], [1.0, 0.0]),
    ];
    let vertices = cube_vertices();
    assert_eq!(vertices.len(), CUBE_VERTICES);
    assert_eq!(vertices.len(), expected.len());
    for (vertex, (position, color, tex_coords)) in vertices.iter().zip(expected) {
        assert_eq!(vertex.position.map(|part| part as f32), position);
        assert_eq!(vertex.color.map(|part| part as f32), color);
        assert_eq!(vertex.tex_coords.map(|part| part as f32), tex_coords);
    }
}

#[test]
fn cube_has_its_twelve_triangles() {
    let expected: [[u32; 3]; 12] = [
        [0, 1, 2],
        [2, 3, 0],
        [4, 5, 6],
        [6, 7, 4],
        [0, 4, 7],
        [7, 3, 0],
        [1, 5, 6],
        [6, 2, 1],
        [1, 0, 4],
        [4, 5, 1],
        [3, 2, 6],
        [6, 7, 3],
    ];
    let polygons = cube_polygons();
    assert_eq!(polygons.len(), CUBE_POLYGONS);
    let indices: Vec<[u32; 3]> = polygons.iter().map(|polygon| polygon.indices).collect();
    assert_eq!(indices, expected);
}

#[test]
fn cube_triangles_name_cube_corners() {
    let vertices = cube_vertices();
    for polygon in cube_polygons() {
        for index in polygon.indices {
            assert!((index as usize) < vertices.len());
        }
        assert_ne!(polygon.indices[0], polygon.indices[1]);
        assert_ne!(polygon.indices[1], polygon.indices[2]);
        assert_ne!(polygon.indices[2], polygon.indices[0]);
    }
    let layout = ModelLayout::new(vertices.len(), cube_polygons().len()).unwrap();
    assert_eq!(layout.vertex_count, 36);
}

#[test]
fn attributes_are_handed_to_the_driver_as_floats_of_a_packed_vertex() {
    let float = gl46::GL_FLOAT.0;
    assert_eq!(
        default_attribute_pointers(),
        vec![
            VertexAttribPointer { location: 0, components: 3, data_type: float, normalized: 1, stride: 32, offset: 0 },
            VertexAttribPointer { location: 1, components: 3, data_type: float, normalized: 1, stride: 32, offset: 12 },
            VertexAttribPointer { location: 2, components: 2, data_type: float, normalized: 1, stride: 32, offset: 24 },
        ]
    );
}
