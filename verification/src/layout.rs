//! Layout of the fixed triangle's vertex buffer: three vertices, each an
//! interleaved run of three position components followed by three color
//! components, every component one 32-bit float wide on the device.

use vstd::prelude::*;

verus! {

/// Bytes in one 32-bit float component as the device stores it.
pub const FLOAT_BYTES: usize = 4;

/// Interleaved components per vertex: three for position, three for color.
pub const FLOATS_PER_VERTEX: usize = 6;

/// The triangle always has exactly three vertices.
pub const VERTEX_COUNT: usize = 3;

/// Components in the position attribute of one vertex.
pub const POSITION_COMPONENTS: u32 = 3;

/// Components in the color attribute of one vertex.
pub const COLOR_COMPONENTS: u32 = 3;

/// Shader input slot of the position attribute.
pub const POSITION_LOCATION: u32 = 0;

/// Shader input slot of the color attribute.
pub const COLOR_LOCATION: u32 = 1;

/// Byte offset of the position attribute of vertex `i` from the start of
/// the buffer.
pub open spec fn position_offset_spec(i: int) -> int {
    i * (FLOATS_PER_VERTEX * FLOAT_BYTES)
}

/// Byte offset of the color attribute of vertex `i`: the color occupies
/// the final three float slots of the vertex's run.
pub open spec fn color_offset_spec(i: int) -> int {
    i * (FLOATS_PER_VERTEX * FLOAT_BYTES) + POSITION_COMPONENTS * FLOAT_BYTES
}

/// Device-side description of one vertex attribute slot, as handed to the
/// attribute-pointer configuration call.
pub struct AttributeLayout {
    /// Shader input location the attribute binds to.
    pub location: u32,
    /// Number of float components read per vertex.
    pub components: u32,
    /// Bytes between the attribute of one vertex and the next.
    pub stride_bytes: usize,
    /// Bytes from the start of the buffer to the first value.
    pub offset_bytes: usize,
}

/// Bytes between the same attribute of two consecutive vertices.
pub fn vertex_stride_bytes() -> (n: usize)
    ensures
        n == FLOATS_PER_VERTEX * FLOAT_BYTES,
{
    FLOATS_PER_VERTEX * FLOAT_BYTES
}

/// Byte offset of vertex `i`'s position attribute.
pub fn position_offset_bytes(i: usize) -> (n: usize)
    requires
        i < VERTEX_COUNT,
    ensures
        n == position_offset_spec(i as int),
{
    proof {
        assert(i * 24 <= 48) by (nonlinear_arith)
            requires
                i < 3,
        ;
    }
    i * (FLOATS_PER_VERTEX * FLOAT_BYTES)
}

/// Byte offset of vertex `i`'s color attribute.
pub fn color_offset_bytes(i: usize) -> (n: usize)
    requires
        i < VERTEX_COUNT,
    ensures
        n == color_offset_spec(i as int),
{
    proof {
        assert(i * 24 <= 48) by (nonlinear_arith)
            requires
                i < 3,
        ;
    }
    i * (FLOATS_PER_VERTEX * FLOAT_BYTES) + POSITION_COMPONENTS as usize * FLOAT_BYTES
}

/// The attribute slot the position data binds to.
pub fn position_attribute() -> (a: AttributeLayout)
    ensures
        a.location == POSITION_LOCATION,
        a.components == POSITION_COMPONENTS,
        a.stride_bytes == FLOATS_PER_VERTEX * FLOAT_BYTES,
        a.offset_bytes == 0,
{
    AttributeLayout {
        location: POSITION_LOCATION,
        components: POSITION_COMPONENTS,
        stride_bytes: FLOATS_PER_VERTEX * FLOAT_BYTES,
        offset_bytes: 0,
    }
}

/// The attribute slot the color data binds to.
pub fn color_attribute() -> (a: AttributeLayout)
    ensures
        a.location == COLOR_LOCATION,
        a.components == COLOR_COMPONENTS,
        a.stride_bytes == FLOATS_PER_VERTEX * FLOAT_BYTES,
        a.offset_bytes == color_offset_spec(0),
{
    AttributeLayout {
        location: COLOR_LOCATION,
        components: COLOR_COMPONENTS,
        stride_bytes: FLOATS_PER_VERTEX * FLOAT_BYTES,
        offset_bytes: POSITION_COMPONENTS as usize * FLOAT_BYTES,
    }
}

/// Number of float components the whole triangle uploads.
pub fn triangle_float_count() -> (n: usize)
    ensures
        n == VERTEX_COUNT * FLOATS_PER_VERTEX,
{
    VERTEX_COUNT * FLOATS_PER_VERTEX
}

/// Size in bytes of an upload of `float_count` float components.
pub fn buffer_size_bytes(float_count: usize) -> (n: usize)
    requires
        float_count <= usize::MAX / FLOAT_BYTES,
    ensures
        n == float_count * FLOAT_BYTES,
{
    float_count * FLOAT_BYTES
}

/// Law: the stride between consecutive vertices' position attributes is
/// six float components, and the color attribute of vertex `i` begins
/// `6 * i + 3` float components into the buffer.
pub proof fn lemma_vertex_layout(i: int)
    requires
        0 <= i < VERTEX_COUNT,
    ensures
        i + 1 < VERTEX_COUNT ==> position_offset_spec(i + 1) - position_offset_spec(i)
            == FLOATS_PER_VERTEX * FLOAT_BYTES,
        color_offset_spec(i) == (FLOATS_PER_VERTEX * i + POSITION_COMPONENTS) * FLOAT_BYTES,
{
    assert((6 * i + 3) * 4 == i * 24 + 12) by (nonlinear_arith);
}

} // verus!
