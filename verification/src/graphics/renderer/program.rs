use vstd::prelude::*;
use crate::graphics::renderer::codes;
use crate::graphics::renderer::gl_enum::GlEnum;

verus! {

/// The stage of the pipeline that a shader runs in.
#[derive(Debug, Clone, Copy, PartialEq, Eq, Structural)]
pub enum ShaderType {
    Vertex,
    TesselationControl,
    TesselationEvaluation,
    Geometry,
    Fragment,
    Compute,
}

impl GlEnum for ShaderType {
    open spec fn gl_value(&self) -> u32 {
        match *self {
            ShaderType::Vertex => codes::GL_VERTEX_SHADER,
            ShaderType::TesselationControl => codes::GL_TESS_CONTROL_SHADER,
            ShaderType::TesselationEvaluation => codes::GL_TESS_EVALUATION_SHADER,
            ShaderType::Geometry => codes::GL_GEOMETRY_SHADER,
            ShaderType::Fragment => codes::GL_FRAGMENT_SHADER,
            ShaderType::Compute => codes::GL_COMPUTE_SHADER,
        }
    }

    proof fn lemma_gl_value_injective(a: Self, b: Self) {
    }

    fn to_gl_enum(&self) -> (r: u32) {
        match self {
            ShaderType::Vertex => codes::GL_VERTEX_SHADER,
            ShaderType::TesselationControl => codes::GL_TESS_CONTROL_SHADER,
            ShaderType::TesselationEvaluation => codes::GL_TESS_EVALUATION_SHADER,
            ShaderType::Geometry => codes::GL_GEOMETRY_SHADER,
            ShaderType::Fragment => codes::GL_FRAGMENT_SHADER,
            ShaderType::Compute => codes::GL_COMPUTE_SHADER,
        }
    }

    fn from_gl_enum(value: u32) -> (r: Option<Self>) {
        if value == codes::GL_VERTEX_SHADER {
            Some(ShaderType::Vertex)
        } else if value == codes::GL_TESS_CONTROL_SHADER {
            Some(ShaderType::TesselationControl)
        } else if value == codes::GL_TESS_EVALUATION_SHADER {
            Some(ShaderType::TesselationEvaluation)
        } else if value == codes::GL_GEOMETRY_SHADER {
            Some(ShaderType::Geometry)
        } else if value == codes::GL_FRAGMENT_SHADER {
            Some(ShaderType::Fragment)
        } else if value == codes::GL_COMPUTE_SHADER {
            Some(ShaderType::Compute)
        } else {
            None
        }
    }
}

/// Each variant of `ShaderType` has the OpenGL code of the same name, as the
/// Khronos registry numbers it (`ShaderType::Vertex` is `GL_VERTEX_SHADER`, 0x8B31).
pub proof fn lemma_shader_type_codes()
    ensures
        ShaderType::Vertex.gl_value() == 0x8B31u32,
        ShaderType::TesselationControl.gl_value() == 0x8E88u32,
        ShaderType::TesselationEvaluation.gl_value() == 0x8E87u32,
        ShaderType::Geometry.gl_value() == 0x8DD9u32,
        ShaderType::Fragment.gl_value() == 0x8B30u32,
        ShaderType::Compute.gl_value() == 0x91B9u32,
{
}

} // verus!
