use vstd::prelude::*;
use crate::graphics::renderer::codes;
use crate::graphics::renderer::gl_enum::GlEnum;

verus! {

/// The primitive that a draw call assembles from its vertices.
#[derive(Debug, Clone, Copy, PartialEq, Eq, Structural)]
pub enum DrawMode {
    Points,
    LineStrip,
    LineLoop,
    Lines,
    TriangleStrip,
    TriangleFan,
    Triangles,
}

impl GlEnum for DrawMode {
    open spec fn gl_value(&self) -> u32 {
        match *self {
            DrawMode::Points => codes::GL_POINTS,
            DrawMode::LineStrip => codes::GL_LINE_STRIP,
            DrawMode::LineLoop => codes::GL_LINE_LOOP,
            DrawMode::Lines => codes::GL_LINES,
            DrawMode::TriangleStrip => codes::GL_TRIANGLE_STRIP,
            DrawMode::TriangleFan => codes::GL_TRIANGLE_FAN,
            DrawMode::Triangles => codes::GL_TRIANGLES,
        }
    }

    proof fn lemma_gl_value_injective(a: Self, b: Self) {
    }

    fn to_gl_enum(&self) -> (r: u32) {
        match self {
            DrawMode::Points => codes::GL_POINTS,
            DrawMode::LineStrip => codes::GL_LINE_STRIP,
            DrawMode::LineLoop => codes::GL_LINE_LOOP,
            DrawMode::Lines => codes::GL_LINES,
            DrawMode::TriangleStrip => codes::GL_TRIANGLE_STRIP,
            DrawMode::TriangleFan => codes::GL_TRIANGLE_FAN,
            DrawMode::Triangles => codes::GL_TRIANGLES,
        }
    }

    fn from_gl_enum(value: u32) -> (r: Option<Self>) {
        if value == codes::GL_POINTS {
            Some(DrawMode::Points)
        } else if value == codes::GL_LINE_STRIP {
            Some(DrawMode::LineStrip)
        } else if value == codes::GL_LINE_LOOP {
            Some(DrawMode::LineLoop)
        } else if value == codes::GL_LINES {
            Some(DrawMode::Lines)
        } else if value == codes::GL_TRIANGLE_STRIP {
            Some(DrawMode::TriangleStrip)
        } else if value == codes::GL_TRIANGLE_FAN {
            Some(DrawMode::TriangleFan)
        } else if value == codes::GL_TRIANGLES {
            Some(DrawMode::Triangles)
        } else {
            None
        }
    }
}

/// Each variant of `DrawMode` has the OpenGL code of the same name, as the
/// Khronos registry numbers it (`DrawMode::Points` is `GL_POINTS`, 0x0000).
pub proof fn lemma_draw_mode_codes()
    ensures
        DrawMode::Points.gl_value() == 0x0000u32,
        DrawMode::LineStrip.gl_value() == 0x0003u32,
        DrawMode::LineLoop.gl_value() == 0x0002u32,
        DrawMode::Lines.gl_value() == 0x0001u32,
        DrawMode::TriangleStrip.gl_value() == 0x0005u32,
        DrawMode::TriangleFan.gl_value() == 0x0006u32,
        DrawMode::Triangles.gl_value() == 0x0004u32,
{
}

} // verus!
