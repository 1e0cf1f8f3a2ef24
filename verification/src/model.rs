//! The geometry of a model, and how it is laid out for the driver.
//!
//! A vertex is eight numbers of four bytes each: three for its position, three for its
//! colour and two for its texture coordinates. A polygon is a triangle of three vertex
//! indices.

use crate::gl::buffer::data_size;
use crate::gl::vertex_array::vertex_attrib_pointer;
use crate::gl::vertex_array::VertexAttribPointer;
use crate::gl::vertex_array::VertexAttribPointerType;
use crate::shader_program::ShaderProgram;
use std::rc::Rc;
use vstd::prelude::*;

verus! {

/// Bytes in one part of a vertex attribute.
pub const COMPONENT_SIZE: usize = 4;

/// Bytes in one vertex.
pub const VERTEX_SIZE: usize = 32;

/// Bytes in one polygon.
pub const POLYGON_SIZE: usize = 12;

/// A triangle, by the indices of its three vertices.
#[derive(Clone, Copy, Debug)]
pub struct Polygon {
    pub indices: [u32; 3],
}

/// Where one attribute of a vertex is found.
#[derive(Clone, Copy, Debug, PartialEq, Eq, Structural)]
pub struct AttributeDescription {
    /// The attribute's location in the shader.
    pub location: u32,
    /// How many parts the attribute has.
    pub components: i32,
    /// The type of its parts.
    pub data_type: VertexAttribPointerType,
    /// The distance in bytes from one vertex to the next.
    pub stride: usize,
    /// Where in a vertex the attribute begins, in bytes.
    pub offset: usize,
}

/// What a kind of model draws itself with.
pub trait IModel {
    /// The shader program that models of this kind are drawn with.
    fn shader_program() -> Rc<ShaderProgram>;

    /// The attributes of a vertex of this kind of model.
    fn attribute_descriptions() -> Vec<AttributeDescription>;
}

/// The attribute at `location` that has `components` parts and begins at `offset` in a
/// vertex of [`VERTEX_SIZE`] bytes.
pub open spec fn vertex_attribute(location: u32, components: i32, offset: usize)
    -> AttributeDescription {
    AttributeDescription {
        location,
        components,
        data_type: VertexAttribPointerType::Float,
        stride: VERTEX_SIZE,
        offset,
    }
}

/// The attributes of a vertex: position, colour and texture coordinates, in this order.
pub open spec fn default_attributes() -> Seq<AttributeDescription> {
    seq![vertex_attribute(0, 3, 0), vertex_attribute(1, 3, 12), vertex_attribute(2, 2, 24)]
}

/// Whether the attributes fill a vertex without gaps: the first begins the vertex, each
/// other one begins where the one before it ends, and the last ends the vertex, whose size
/// is every attribute's stride.
pub open spec fn tightly_packed(attributes: Seq<AttributeDescription>, vertex_size: int) -> bool {
    &&& attributes.len() > 0
    &&& attributes[0].offset == 0
    &&& forall|i: int|
        0 <= i < attributes.len() ==> (#[trigger] attributes[i]).stride == vertex_size
    &&& forall|i: int|
        0 <= i < attributes.len() - 1 ==> (#[trigger] attributes[i + 1]).offset
            == attributes[i].offset + attributes[i].components * COMPONENT_SIZE
    &&& attributes.last().offset + attributes.last().components * COMPONENT_SIZE == vertex_size
}

/// The attributes of a vertex: position, colour and texture coordinates, in this order.
pub fn default_attribute_descriptions() -> (attributes: Vec<AttributeDescription>)
    ensures
        attributes@ == default_attributes(),
        tightly_packed(attributes@, VERTEX_SIZE as int),
{
    let attributes = vec![
        AttributeDescription {
            location: 0,
            components: 3,
            data_type: VertexAttribPointerType::Float,
            stride: VERTEX_SIZE,
            offset: 0,
        },
        AttributeDescription {
            location: 1,
            components: 3,
            data_type: VertexAttribPointerType::Float,
            stride: VERTEX_SIZE,
            offset: 12,
        },
        AttributeDescription {
            location: 2,
            components: 2,
            data_type: VertexAttribPointerType::Float,
            stride: VERTEX_SIZE,
            offset: 24,
        },
    ];
    assert(attributes@ =~= default_attributes());
    attributes
}

/// What the driver is handed to describe the attribute, as [`vertex_attrib_pointer`] makes it
/// up where `normalized` is not set: the flag that is handed on is 1.
pub open spec fn attribute_pointer(attribute: AttributeDescription) -> VertexAttribPointer {
    VertexAttribPointer {
        location: attribute.location,
        components: attribute.components,
        data_type: attribute.data_type.value(),
        normalized: 1,
        stride: attribute.stride as i32,
        offset: attribute.offset,
    }
}

/// What the driver is handed to describe the attributes of a vertex, one after the other.
pub fn default_attribute_pointers() -> (pointers: Vec<VertexAttribPointer>)
    ensures
        pointers@ == default_attributes().map_values(
            |attribute: AttributeDescription| attribute_pointer(attribute),
        ),
{
    let attributes = default_attribute_descriptions();
    let mut pointers: Vec<VertexAttribPointer> = Vec::new();
    let mut i: usize = 0;
    while i < attributes.len()
        invariant
            i <= attributes.len(),
            attributes@ == default_attributes(),
            pointers@ == attributes@.take(i as int).map_values(
                |attribute: AttributeDescription| attribute_pointer(attribute),
            ),
        decreases attributes.len() - i,
    {
        let attribute = attributes[i];
        pointers.push(
            vertex_attrib_pointer(
                attribute.location,
                attribute.components,
                attribute.data_type,
                false,
                attribute.stride,
                attribute.offset,
            ),
        );
        i = i + 1;
        proof {
            assert(attributes@.take(i as int) =~= attributes@.take(i - 1).push(attribute));
            assert(pointers@ =~= attributes@.take(i as int).map_values(
                |attribute: AttributeDescription| attribute_pointer(attribute),
            ));
        }
    }
    proof {
        assert(attributes@.take(attributes@.len() as int) =~= attributes@);
    }
    pointers
}

/// Whether every polygon names vertices among the first `vertices` ones only.
pub open spec fn indices_in_range(polygons: Seq<Polygon>, vertices: int) -> bool {
    forall|i: int, j: int|
        0 <= i < polygons.len() && 0 <= j < 3 ==> (#[trigger] polygons[i].indices[j]) < vertices
}

/// The sizes that the driver is told when a model's geometry is handed to it.
#[derive(Clone, Copy, Debug, PartialEq, Eq, Structural)]
pub struct ModelLayout {
    /// How many indices a draw call runs through: three for each polygon.
    pub vertex_count: i32,
    /// Bytes in the vertex buffer.
    pub vertex_bytes: isize,
    /// Bytes in the index buffer.
    pub index_bytes: isize,
}

impl ModelLayout {
    /// Whether the sizes of a model with this many vertices and polygons can be held.
    pub open spec fn fits(vertices: usize, polygons: usize) -> bool {
        &&& polygons * 3 <= i32::MAX
        &&& polygons * POLYGON_SIZE <= isize::MAX
        &&& vertices * VERTEX_SIZE <= isize::MAX
    }

    /// The sizes of a model with this many vertices and polygons, or nothing where one of
    /// them cannot be held.
    pub fn new(vertices: usize, polygons: usize) -> (layout: Option<ModelLayout>)
        ensures
            ModelLayout::fits(vertices, polygons) <==> layout is Some,
            layout matches Some(sizes) ==> {
                &&& sizes.vertex_count == polygons * 3
                &&& sizes.vertex_bytes == vertices * VERTEX_SIZE
                &&& sizes.index_bytes == polygons * POLYGON_SIZE
            },
    {
        if polygons > i32::MAX as usize / 3 {
            return None;
        }
        let vertex_count: i32 = (polygons * 3) as i32;
        match (data_size(vertices, VERTEX_SIZE), data_size(polygons, POLYGON_SIZE)) {
            (Some(vertex_bytes), Some(index_bytes)) => Some(
                ModelLayout { vertex_count, vertex_bytes, index_bytes },
            ),
            _ => None,
        }
    }
}

/// A vertex whose position, colour and texture coordinates are whole numbers.
#[derive(Clone, Copy, Debug)]
pub struct Vertex {
    pub position: [i8; 3],
    pub color: [i8; 3],
    pub tex_coords: [i8; 2],
}

/// Where the cube begins along each axis.
pub const LOW: i8 = -1;

/// Where the cube ends along each axis.
pub const HIGH: i8 = 1;

/// How many corners a cube has.
pub const CUBE_VERTICES: usize = 8;

/// How many triangles the faces of a cube are made of.
pub const CUBE_POLYGONS: usize = 12;

/// Whether the vertex is a corner of the cube that reaches from low to high along each axis,
/// coloured by its place: each colour channel is 0 where the corner lies low and 1 where it
/// lies high, and each texture coordinate is 0 or 1.
pub open spec fn is_cube_corner(vertex: Vertex) -> bool {
    &&& forall|axis: int|
        0 <= axis < 3 ==> (#[trigger] vertex.position[axis] == LOW || vertex.position[axis]
            == HIGH)
    &&& forall|axis: int|
        0 <= axis < 3 ==> 2 * (#[trigger] vertex.color[axis]) == vertex.position[axis] + 1
    &&& forall|axis: int|
        0 <= axis < 2 ==> (#[trigger] vertex.tex_coords[axis] == 0 || vertex.tex_coords[axis] == 1)
}

/// Whether the three corners of the polygon are three different vertices.
pub open spec fn is_triangle(polygon: Polygon) -> bool {
    &&& polygon.indices[0] != polygon.indices[1]
    &&& polygon.indices[1] != polygon.indices[2]
    &&& polygon.indices[2] != polygon.indices[0]
}

/// The corners of the cube, in the order in which the polygons count them.
pub open spec fn cube_corners() -> Seq<Vertex> {
    seq![
        Vertex {
            position: [LOW, LOW, HIGH],
            color: [0, 0, 1],
            tex_coords: [0, 1],
        },
        Vertex {
            position: [LOW, HIGH, HIGH],
            color: [0, 1, 1],
            tex_coords: [0, 0],
        },
        Vertex {
            position: [HIGH, HIGH, HIGH],
            color: [1, 1, 1],
            tex_coords: [1, 0],
        },
        Vertex {
            position: [HIGH, LOW, HIGH],
            color: [1, 0, 1],
            tex_coords: [1, 1],
        },
        Vertex {
            position: [LOW, LOW, LOW],
            color: [0, 0, 0],
            tex_coords: [0, 0],
        },
        Vertex {
            position: [LOW, HIGH, LOW],
            color: [0, 1, 0],
            tex_coords: [0, 1],
        },
        Vertex {
            position: [HIGH, HIGH, LOW],
            color: [1, 1, 0],
            tex_coords: [1, 1],
        },
        Vertex {
            position: [HIGH, LOW, LOW],
            color: [1, 0, 0],
            tex_coords: [1, 0],
        },
    ]
}

/// The triangles of the cube, two to a face: front, back, bottom, top, left, right.
pub open spec fn cube_triangles() -> Seq<Polygon> {
    seq![
        Polygon { indices: [0, 1, 2] },
        Polygon { indices: [2, 3, 0] },
        Polygon { indices: [4, 5, 6] },
        Polygon { indices: [6, 7, 4] },
        Polygon { indices: [0, 4, 7] },
        Polygon { indices: [7, 3, 0] },
        Polygon { indices: [1, 5, 6] },
        Polygon { indices: [6, 2, 1] },
        Polygon { indices: [1, 0, 4] },
        Polygon { indices: [4, 5, 1] },
        Polygon { indices: [3, 2, 6] },
        Polygon { indices: [6, 7, 3] },
    ]
}

/// The eight corners of the cube.
pub fn cube_vertices() -> (vertices: Vec<Vertex>)
    ensures
        vertices@ == cube_corners(),
        vertices@.len() == CUBE_VERTICES,
        forall|i: int| 0 <= i < vertices@.len() ==> is_cube_corner(#[trigger] vertices@[i]),
        forall|i: int, j: int|
            0 <= i < j < vertices@.len() ==> (#[trigger] vertices@[i]).position@ != (
            #[trigger] vertices@[j]).position@,
{
    let vertices = vec![
        Vertex {
            position: [LOW, LOW, HIGH],
            color: [0, 0, 1],
            tex_coords: [0, 1],
        },
        Vertex {
            position: [LOW, HIGH, HIGH],
            color: [0, 1, 1],
            tex_coords: [0, 0],
        },
        Vertex {
            position: [HIGH, HIGH, HIGH],
            color: [1, 1, 1],
            tex_coords: [1, 0],
        },
        Vertex {
            position: [HIGH, LOW, HIGH],
            color: [1, 0, 1],
            tex_coords: [1, 1],
        },
        Vertex {
            position: [LOW, LOW, LOW],
            color: [0, 0, 0],
            tex_coords: [0, 0],
        },
        Vertex {
            position: [LOW, HIGH, LOW],
            color: [0, 1, 0],
            tex_coords: [0, 1],
        },
        Vertex {
            position: [HIGH, HIGH, LOW],
            color: [1, 1, 0],
            tex_coords: [1, 1],
        },
        Vertex {
            position: [HIGH, LOW, LOW],
            color: [1, 0, 0],
            tex_coords: [1, 0],
        },
    ];
    proof {
        assert forall|i: int, j: int| 0 <= i < j < vertices@.len() implies (
        #[trigger] vertices@[i]).position@ != (#[trigger] vertices@[j]).position@ by {
            let a = vertices@[i].position;
            let b = vertices@[j].position;
            assert(a@[0] != b@[0] || a@[1] != b@[1] || a@[2] != b@[2]);
        }
    }
    vertices
}

/// The twelve triangles that the faces of the cube are made of, two to a face.
pub fn cube_polygons() -> (polygons: Vec<Polygon>)
    ensures
        polygons@ == cube_triangles(),
        polygons@.len() == CUBE_POLYGONS,
        indices_in_range(polygons@, CUBE_VERTICES as int),
        forall|i: int| 0 <= i < polygons@.len() ==> is_triangle(#[trigger] polygons@[i]),
{
    vec![
        Polygon { indices: [0, 1, 2] },
        Polygon { indices: [2, 3, 0] },
        Polygon { indices: [4, 5, 6] },
        Polygon { indices: [6, 7, 4] },
        Polygon { indices: [0, 4, 7] },
        Polygon { indices: [7, 3, 0] },
        Polygon { indices: [1, 5, 6] },
        Polygon { indices: [6, 2, 1] },
        Polygon { indices: [1, 0, 4] },
        Polygon { indices: [4, 5, 1] },
        Polygon { indices: [3, 2, 6] },
        Polygon { indices: [6, 7, 3] },
    ]
}

} // verus!
