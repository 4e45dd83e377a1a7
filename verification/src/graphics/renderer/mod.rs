pub mod atlas;
pub mod codes;
pub mod drawable;
pub mod fonts;
pub mod gl_enum;
pub mod positioning;
pub mod program;
pub mod texture;
pub mod types;
pub mod vertex_array_object;

use vstd::prelude::*;
use crate::graphics::renderer::gl_enum::GlEnum;

verus! {

/// Something that can be made the current object of its kind on the GPU.
pub trait Bindable {
    fn bind(&self);
}

/// A buffer that a clear operation can reset.
#[derive(Debug, Clone, Copy, PartialEq, Eq, Structural)]
pub enum ClearField {
    Color,
    Depth,
    Stencil,
}

impl GlEnum for ClearField {
    open spec fn gl_value(&self) -> u32 {
        match *self {
            ClearField::Color => codes::GL_COLOR_BUFFER_BIT,
            ClearField::Depth => codes::GL_DEPTH_BUFFER_BIT,
            ClearField::Stencil => codes::GL_STENCIL_BUFFER_BIT,
        }
    }

    proof fn lemma_gl_value_injective(a: Self, b: Self) {
    }

    fn to_gl_enum(&self) -> (r: u32) {
        match self {
            ClearField::Color => codes::GL_COLOR_BUFFER_BIT,
            ClearField::Depth => codes::GL_DEPTH_BUFFER_BIT,
            ClearField::Stencil => codes::GL_STENCIL_BUFFER_BIT,
        }
    }

    fn from_gl_enum(value: u32) -> (r: Option<Self>) {
        if value == codes::GL_COLOR_BUFFER_BIT {
            Some(ClearField::Color)
        } else if value == codes::GL_DEPTH_BUFFER_BIT {
            Some(ClearField::Depth)
        } else if value == codes::GL_STENCIL_BUFFER_BIT {
            Some(ClearField::Stencil)
        } else {
            None
        }
    }
}

/// A server-side capability that can be enabled or disabled.
#[derive(Debug, Clone, Copy, PartialEq, Eq, Structural)]
pub enum Capability {
    Blend,
    CullFace,
    DepthTest,
    StencilTest,
    ScissorTest,
}

impl GlEnum for Capability {
    open spec fn gl_value(&self) -> u32 {
        match *self {
            Capability::Blend => codes::GL_BLEND,
            Capability::CullFace => codes::GL_CULL_FACE,
            Capability::DepthTest => codes::GL_DEPTH_TEST,
            Capability::StencilTest => codes::GL_STENCIL_TEST,
            Capability::ScissorTest => codes::GL_SCISSOR_TEST,
        }
    }

    proof fn lemma_gl_value_injective(a: Self, b: Self) {
    }

    fn to_gl_enum(&self) -> (r: u32) {
        match self {
            Capability::Blend => codes::GL_BLEND,
            Capability::CullFace => codes::GL_CULL_FACE,
            Capability::DepthTest => codes::GL_DEPTH_TEST,
            Capability::StencilTest => codes::GL_STENCIL_TEST,
            Capability::ScissorTest => codes::GL_SCISSOR_TEST,
        }
    }

    fn from_gl_enum(value: u32) -> (r: Option<Self>) {
        if value == codes::GL_BLEND {
            Some(Capability::Blend)
        } else if value == codes::GL_CULL_FACE {
            Some(Capability::CullFace)
        } else if value == codes::GL_DEPTH_TEST {
            Some(Capability::DepthTest)
        } else if value == codes::GL_STENCIL_TEST {
            Some(Capability::StencilTest)
        } else if value == codes::GL_SCISSOR_TEST {
            Some(Capability::ScissorTest)
        } else {
            None
        }
    }
}

/// A factor of the blend equation.
#[derive(Debug, Clone, Copy, PartialEq, Eq, Structural)]
pub enum BlendFactor {
    Zero,
    One,
    SrcColor,
    OneMinusSrcColor,
    DstColor,
    OneMinusDstColor,
    SrcAlpha,
    OneMinusSrcAlpha,
    DstAlpha,
    OneMinusDstAlpha,
}

impl GlEnum for BlendFactor {
    open spec fn gl_value(&self) -> u32 {
        match *self {
            BlendFactor::Zero => codes::GL_ZERO,
            BlendFactor::One => codes::GL_ONE,
            BlendFactor::SrcColor => codes::GL_SRC_COLOR,
            BlendFactor::OneMinusSrcColor => codes::GL_ONE_MINUS_SRC_COLOR,
            BlendFactor::DstColor => codes::GL_DST_COLOR,
            BlendFactor::OneMinusDstColor => codes::GL_ONE_MINUS_DST_COLOR,
            BlendFactor::SrcAlpha => codes::GL_SRC_ALPHA,
            BlendFactor::OneMinusSrcAlpha => codes::GL_ONE_MINUS_SRC_ALPHA,
            BlendFactor::DstAlpha => codes::GL_DST_ALPHA,
            BlendFactor::OneMinusDstAlpha => codes::GL_ONE_MINUS_DST_ALPHA,
        }
    }

    proof fn lemma_gl_value_injective(a: Self, b: Self) {
    }

    fn to_gl_enum(&self) -> (r: u32) {
        match self {
            BlendFactor::Zero => codes::GL_ZERO,
            BlendFactor::One => codes::GL_ONE,
            BlendFactor::SrcColor => codes::GL_SRC_COLOR,
            BlendFactor::OneMinusSrcColor => codes::GL_ONE_MINUS_SRC_COLOR,
            BlendFactor::DstColor => codes::GL_DST_COLOR,
            BlendFactor::OneMinusDstColor => codes::GL_ONE_MINUS_DST_COLOR,
            BlendFactor::SrcAlpha => codes::GL_SRC_ALPHA,
            BlendFactor::OneMinusSrcAlpha => codes::GL_ONE_MINUS_SRC_ALPHA,
            BlendFactor::DstAlpha => codes::GL_DST_ALPHA,
            BlendFactor::OneMinusDstAlpha => codes::GL_ONE_MINUS_DST_ALPHA,
        }
    }

    fn from_gl_enum(value: u32) -> (r: Option<Self>) {
        if value == codes::GL_ZERO {
            Some(BlendFactor::Zero)
        } else if value == codes::GL_ONE {
            Some(BlendFactor::One)
        } else if value == codes::GL_SRC_COLOR {
            Some(BlendFactor::SrcColor)
        } else if value == codes::GL_ONE_MINUS_SRC_COLOR {
            Some(BlendFactor::OneMinusSrcColor)
        } else if value == codes::GL_DST_COLOR {
            Some(BlendFactor::DstColor)
        } else if value == codes::GL_ONE_MINUS_DST_COLOR {
            Some(BlendFactor::OneMinusDstColor)
        } else if value == codes::GL_SRC_ALPHA {
            Some(BlendFactor::SrcAlpha)
        } else if value == codes::GL_ONE_MINUS_SRC_ALPHA {
            Some(BlendFactor::OneMinusSrcAlpha)
        } else if value == codes::GL_DST_ALPHA {
            Some(BlendFactor::DstAlpha)
        } else if value == codes::GL_ONE_MINUS_DST_ALPHA {
            Some(BlendFactor::OneMinusDstAlpha)
        } else {
            None
        }
    }
}

/// The mask that clears every buffer in `fields`: the bitwise or of their codes.
pub open spec fn clear_mask_of(fields: Seq<ClearField>) -> u32
    decreases fields.len(),
{
    if fields.len() == 0 {
        0
    } else {
        clear_mask_of(fields.drop_last()) | fields.last().gl_value()
    }
}

/// The mask for a clear operation on the buffers `fields`.
pub fn combined_clear_mask(fields: &[ClearField]) -> (r: u32)
    ensures
        r == clear_mask_of(fields@),
{
    let mut mask: u32 = 0;
    let mut i: usize = 0;
    while i < fields.len()
        invariant
            i <= fields.len(),
            mask == clear_mask_of(fields@.take(i as int)),
        decreases fields.len() - i,
    {
        assert(fields@.take(i as int + 1).drop_last() =~= fields@.take(i as int));
        mask = mask | fields[i].to_gl_enum();
        i = i + 1;
    }
    assert(fields@.take(fields.len() as int) =~= fields@);
    mask
}

/// A clear mask holds the bit of a buffer exactly when that buffer is among
/// the fields, and holds no other bits.
pub proof fn lemma_clear_mask_selects(fields: Seq<ClearField>, f: ClearField)
    ensures
        (clear_mask_of(fields) & f.gl_value() == f.gl_value()) <==> fields.contains(f),
        (clear_mask_of(fields) & f.gl_value() == 0) <==> !fields.contains(f),
        clear_mask_of(fields) & !0x4500u32 == 0,
    decreases fields.len(),
{
    if fields.len() == 0 {
        let m = clear_mask_of(fields);
        assert(m == 0);
        assert(0u32 & 0x4000u32 == 0 && 0u32 & 0x0100u32 == 0 && 0u32 & 0x0400u32 == 0 && 0u32 & !0x4500u32 == 0) by (bit_vector);
        assert(!fields.contains(f));
    } else {
        let rest = fields.drop_last();
        let last = fields.last();
        lemma_clear_mask_selects(rest, f);
        lemma_clear_mask_selects(rest, last);
        let m = clear_mask_of(rest);
        let b = f.gl_value();
        let c = last.gl_value();
        assert(clear_mask_of(fields) == m | c);
        assert(fields.contains(f) <==> (rest.contains(f) || last == f)) by {
            if fields.contains(f) {
                let k = choose|k: int| 0 <= k < fields.len() && fields[k] == f;
                if k < fields.len() - 1 {
                    assert(rest[k] == f);
                }
            }
            if rest.contains(f) {
                let k = choose|k: int| 0 <= k < rest.len() && rest[k] == f;
                assert(fields[k] == f);
            }
            if last == f {
                assert(fields[fields.len() - 1] == f);
            }
        }
        assert(m & !0x4500u32 == 0 ==> (m | c) & !0x4500u32 == 0) by (bit_vector)
            requires c == 0x4000u32 || c == 0x0100u32 || c == 0x0400u32;
        assert(((m | c) & b == 0) <==> (m & b == 0 && c != b)) by (bit_vector)
            requires
                b == 0x4000u32 || b == 0x0100u32 || b == 0x0400u32,
                c == 0x4000u32 || c == 0x0100u32 || c == 0x0400u32;
        assert(((m | c) & b == b) <==> (m & b == b || c == b)) by (bit_vector)
            requires
                (m & b == b) || (m & b == 0),
                b == 0x4000u32 || b == 0x0100u32 || b == 0x0400u32,
                c == 0x4000u32 || c == 0x0100u32 || c == 0x0400u32;
        ClearField::lemma_gl_value_injective(last, f);
    }
}

/// The handle through which every drawing operation is issued; it stands for
/// a current OpenGL context.
pub struct Renderer;

impl Renderer {
    pub fn new() -> (r: Renderer) {
        Renderer
    }
}

/// Each variant of `ClearField` has the OpenGL code of the same name, as the
/// Khronos registry numbers it (`ClearField::Color` is `GL_COLOR_BUFFER_BIT`, 0x4000).
pub proof fn lemma_clear_field_codes()
    ensures
        ClearField::Color.gl_value() == 0x4000u32,
        ClearField::Depth.gl_value() == 0x0100u32,
        ClearField::Stencil.gl_value() == 0x0400u32,
{
}

/// Each variant of `Capability` has the OpenGL code of the same name, as the
/// Khronos registry numbers it (`Capability::Blend` is `GL_BLEND`, 0x0BE2).
pub proof fn lemma_capability_codes()
    ensures
        Capability::Blend.gl_value() == 0x0BE2u32,
        Capability::CullFace.gl_value() == 0x0B44u32,
        Capability::DepthTest.gl_value() == 0x0B71u32,
        Capability::StencilTest.gl_value() == 0x0B90u32,
        Capability::ScissorTest.gl_value() == 0x0C11u32,
{
}

/// Each variant of `BlendFactor` has the OpenGL code of the same name, as the
/// Khronos registry numbers it (`BlendFactor::SrcAlpha` is `GL_SRC_ALPHA`, 0x0302).
pub proof fn lemma_blend_factor_codes()
    ensures
        BlendFactor::Zero.gl_value() == 0u32,
        BlendFactor::One.gl_value() == 1u32,
        BlendFactor::SrcColor.gl_value() == 0x0300u32,
        BlendFactor::OneMinusSrcColor.gl_value() == 0x0301u32,
        BlendFactor::DstColor.gl_value() == 0x0306u32,
        BlendFactor::OneMinusDstColor.gl_value() == 0x0307u32,
        BlendFactor::SrcAlpha.gl_value() == 0x0302u32,
        BlendFactor::OneMinusSrcAlpha.gl_value() == 0x0303u32,
        BlendFactor::DstAlpha.gl_value() == 0x0304u32,
        BlendFactor::OneMinusDstAlpha.gl_value() == 0x0305u32,
{
}

} // verus!
