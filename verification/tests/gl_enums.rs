use flappy_bird::graphics::renderer::codes;
use flappy_bird::graphics::renderer::drawable::DrawMode;
use flappy_bird::graphics::renderer::gl_enum::GlEnum;
use flappy_bird::graphics::renderer::program::ShaderType;
use flappy_bird::graphics::renderer::texture::{MagFiltering, MinFiltering, TextureWrap};
use flappy_bird::graphics::renderer::types::GlTypeEnum;
use flappy_bird::graphics::renderer::{combined_clear_mask, BlendFactor, Capability, ClearField};

fn assert_round_trip<E: GlEnum + PartialEq + std::fmt::Debug + Copy>(all: &[E]) {
    for x in all {
        assert_eq!(E::from_gl_enum(x.to_gl_enum()), Some(*x));
    }
    for (i, a) in all.iter().enumerate() {
        for (j, b) in all.iter().enumerate() {
            if i != j {
                assert_ne!(a.to_gl_enum(), b.to_gl_enum());
            }
        }
    }
}

#[test]
fn codes_match_the_gl_crate() {
    let pairs: &[(u32, u32)] = &[
        (codes::GL_COLOR_BUFFER_BIT, gl::COLOR_BUFFER_BIT),
        (codes::GL_DEPTH_BUFFER_BIT, gl::DEPTH_BUFFER_BIT),
        (codes::GL_STENCIL_BUFFER_BIT, gl::STENCIL_BUFFER_BIT),
        (codes::GL_BLEND, gl::BLEND),
        (codes::GL_CULL_FACE, gl::CULL_FACE),
        (codes::GL_DEPTH_TEST, gl::DEPTH_TEST),
        (codes::GL_STENCIL_TEST, gl::STENCIL_TEST),
        (codes::GL_SCISSOR_TEST, gl::SCISSOR_TEST),
        (codes::GL_ZERO, gl::ZERO),
        (codes::GL_ONE, gl::ONE),
        (codes::GL_SRC_COLOR, gl::SRC_COLOR),
        (codes::GL_ONE_MINUS_SRC_COLOR, gl::ONE_MINUS_SRC_COLOR),
        (codes::GL_SRC_ALPHA, gl::SRC_ALPHA),
        (codes::GL_ONE_MINUS_SRC_ALPHA, gl::ONE_MINUS_SRC_ALPHA),
        (codes::GL_DST_ALPHA, gl::DST_ALPHA),
        (codes::GL_ONE_MINUS_DST_ALPHA, gl::ONE_MINUS_DST_ALPHA),
        (codes::GL_DST_COLOR, gl::DST_COLOR),
        (codes::GL_ONE_MINUS_DST_COLOR, gl::ONE_MINUS_DST_COLOR),
        (codes::GL_POINTS, gl::POINTS),
        (codes::GL_LINES, gl::LINES),
        (codes::GL_LINE_LOOP, gl::LINE_LOOP),
        (codes::GL_LINE_STRIP, gl::LINE_STRIP),
        (codes::GL_TRIANGLES, gl::TRIANGLES),
        (codes::GL_TRIANGLE_STRIP, gl::TRIANGLE_STRIP),
        (codes::GL_TRIANGLE_FAN, gl::TRIANGLE_FAN),
        (codes::GL_VERTEX_SHADER, gl::VERTEX_SHADER),
        (codes::GL_FRAGMENT_SHADER, gl::FRAGMENT_SHADER),
        (codes::GL_GEOMETRY_SHADER, gl::GEOMETRY_SHADER),
        (codes::GL_TESS_CONTROL_SHADER, gl::TESS_CONTROL_SHADER),
        (codes::GL_TESS_EVALUATION_SHADER, gl::TESS_EVALUATION_SHADER),
        (codes::GL_COMPUTE_SHADER, gl::COMPUTE_SHADER),
        (codes::GL_NEAREST, gl::NEAREST),
        (codes::GL_LINEAR, gl::LINEAR),
        (codes::GL_NEAREST_MIPMAP_NEAREST, gl::NEAREST_MIPMAP_NEAREST),
        (codes::GL_LINEAR_MIPMAP_NEAREST, gl::LINEAR_MIPMAP_NEAREST),
        (codes::GL_NEAREST_MIPMAP_LINEAR, gl::NEAREST_MIPMAP_LINEAR),
        (codes::GL_LINEAR_MIPMAP_LINEAR, gl::LINEAR_MIPMAP_LINEAR),
        (codes::GL_REPEAT, gl::REPEAT),
        (codes::GL_MIRRORED_REPEAT, gl::MIRRORED_REPEAT),
        (codes::GL_CLAMP_TO_EDGE, gl::CLAMP_TO_EDGE),
        (codes::GL_CLAMP_TO_BORDER, gl::CLAMP_TO_BORDER),
        (codes::GL_BYTE, gl::BYTE),
        (codes::GL_UNSIGNED_BYTE, gl::UNSIGNED_BYTE),
        (codes::GL_SHORT, gl::SHORT),
        (codes::GL_UNSIGNED_SHORT, gl::UNSIGNED_SHORT),
        (codes::GL_INT, gl::INT),
        (codes::GL_UNSIGNED_INT, gl::UNSIGNED_INT),
    ];
    for &(ours, theirs) in pairs {
        assert_eq!(ours, theirs);
    }
    let more: &[(u32, u32)] = &[
        (codes::GL_FLOAT, gl::FLOAT),
        (codes::GL_DOUBLE, gl::DOUBLE),
        (codes::GL_RED, gl::RED),
        (codes::GL_RG, gl::RG),
        (codes::GL_RGB, gl::RGB),
        (codes::GL_RGBA, gl::RGBA),
        (codes::GL_RGB8, gl::RGB8),
        (codes::GL_RGBA8, gl::RGBA8),
        (codes::GL_DEBUG_SOURCE_API, gl::DEBUG_SOURCE_API),
        (codes::GL_DEBUG_SOURCE_WINDOW_SYSTEM, gl::DEBUG_SOURCE_WINDOW_SYSTEM),
        (codes::GL_DEBUG_SOURCE_SHADER_COMPILER, gl::DEBUG_SOURCE_SHADER_COMPILER),
        (codes::GL_DEBUG_SOURCE_THIRD_PARTY, gl::DEBUG_SOURCE_THIRD_PARTY),
        (codes::GL_DEBUG_SOURCE_APPLICATION, gl::DEBUG_SOURCE_APPLICATION),
        (codes::GL_DEBUG_SOURCE_OTHER, gl::DEBUG_SOURCE_OTHER),
        (codes::GL_DEBUG_TYPE_ERROR, gl::DEBUG_TYPE_ERROR),
        (codes::GL_DEBUG_TYPE_DEPRECATED_BEHAVIOR, gl::DEBUG_TYPE_DEPRECATED_BEHAVIOR),
        (codes::GL_DEBUG_TYPE_UNDEFINED_BEHAVIOR, gl::DEBUG_TYPE_UNDEFINED_BEHAVIOR),
        (codes::GL_DEBUG_TYPE_PORTABILITY, gl::DEBUG_TYPE_PORTABILITY),
        (codes::GL_DEBUG_TYPE_PERFORMANCE, gl::DEBUG_TYPE_PERFORMANCE),
        (codes::GL_DEBUG_TYPE_OTHER, gl::DEBUG_TYPE_OTHER),
        (codes::GL_DEBUG_TYPE_MARKER, gl::DEBUG_TYPE_MARKER),
        (codes::GL_DEBUG_TYPE_PUSH_GROUP, gl::DEBUG_TYPE_PUSH_GROUP),
        (codes::GL_DEBUG_TYPE_POP_GROUP, gl::DEBUG_TYPE_POP_GROUP),
        (codes::GL_DEBUG_SEVERITY_HIGH, gl::DEBUG_SEVERITY_HIGH),
        (codes::GL_DEBUG_SEVERITY_MEDIUM, gl::DEBUG_SEVERITY_MEDIUM),
        (codes::GL_DEBUG_SEVERITY_LOW, gl::DEBUG_SEVERITY_LOW),
        (codes::GL_DEBUG_SEVERITY_NOTIFICATION, gl::DEBUG_SEVERITY_NOTIFICATION),
        (codes::GL_BLEND, 0x0BE2),
        (codes::GL_CLAMP_TO_BORDER, 0x812D),
        (codes::GL_COMPUTE_SHADER, 0x91B9),
        (codes::GL_DOUBLE, 0x140A),
    ];
    for &(ours, theirs) in more {
        assert_eq!(ours, theirs);
    }
}

#[test]
fn every_enum_round_trips() {
    assert_round_trip(&[ClearField::Color, ClearField::Depth, ClearField::Stencil]);
    assert_round_trip(&[
        Capability::Blend,
        Capability::CullFace,
        Capability::DepthTest,
        Capability::StencilTest,
        Capability::ScissorTest,
    ]);
    assert_round_trip(&[
        BlendFactor::Zero,
        BlendFactor::One,
        BlendFactor::SrcColor,
        BlendFactor::OneMinusSrcColor,
        BlendFactor::DstColor,
        BlendFactor::OneMinusDstColor,
        BlendFactor::SrcAlpha,
        BlendFactor::OneMinusSrcAlpha,
        BlendFactor::DstAlpha,
        BlendFactor::OneMinusDstAlpha,
    ]);
    assert_round_trip(&[
        DrawMode::Points,
        DrawMode::LineStrip,
        DrawMode::LineLoop,
        DrawMode::Lines,
        DrawMode::TriangleStrip,
        DrawMode::TriangleFan,
        DrawMode::Triangles,
    ]);
    assert_round_trip(&[
        ShaderType::Vertex,
        ShaderType::TesselationControl,
        ShaderType::TesselationEvaluation,
        ShaderType::Geometry,
        ShaderType::Fragment,
        ShaderType::Compute,
    ]);
    assert_round_trip(&[MagFiltering::Nearest, MagFiltering::Linear]);
    assert_round_trip(&[
        MinFiltering::Nearest,
        MinFiltering::Linear,
        MinFiltering::NearestMipmapNearest,
        MinFiltering::LinearMipmapNearest,
        MinFiltering::NearestMipmapLinear,
        MinFiltering::LinearMipmapLinear,
    ]);
    assert_round_trip(&[
        TextureWrap::Repeat,
        TextureWrap::MirroredRepeat,
        TextureWrap::ClampToEdge,
        TextureWrap::ClampToBorder,
    ]);
    assert_round_trip(&[
        GlTypeEnum::Byte,
        GlTypeEnum::UnsignedByte,
        GlTypeEnum::Short,
        GlTypeEnum::UnsignedShort,
        GlTypeEnum::Int,
        GlTypeEnum::UnsignedInt,
        GlTypeEnum::Float,
        GlTypeEnum::Double,
    ]);
}

#[test]
fn unknown_codes_decode_to_none() {
    assert_eq!(ClearField::from_gl_enum(0x0001), None);
    assert_eq!(Capability::from_gl_enum(0), None);
    assert_eq!(BlendFactor::from_gl_enum(0x0308), None);
    assert_eq!(DrawMode::from_gl_enum(7), None);
    assert_eq!(ShaderType::from_gl_enum(gl::TRIANGLES), None);
    assert_eq!(MagFiltering::from_gl_enum(gl::NEAREST_MIPMAP_NEAREST), None);
    assert_eq!(MinFiltering::from_gl_enum(gl::REPEAT), None);
    assert_eq!(TextureWrap::from_gl_enum(gl::NEAREST), None);
    assert_eq!(GlTypeEnum::from_gl_enum(0x1407), None);
}

#[test]
fn shared_codes_decode_per_enum() {
    assert_eq!(BlendFactor::from_gl_enum(gl::ZERO), Some(BlendFactor::Zero));
    assert_eq!(DrawMode::from_gl_enum(gl::ZERO), Some(DrawMode::Points));
    assert_eq!(MagFiltering::from_gl_enum(gl::LINEAR), Some(MagFiltering::Linear));
    assert_eq!(MinFiltering::from_gl_enum(gl::LINEAR), Some(MinFiltering::Linear));
    assert_eq!(Capability::Blend.to_gl_enum(), gl::BLEND);
    assert_eq!(DrawMode::TriangleStrip.to_gl_enum(), gl::TRIANGLE_STRIP);
}

#[test]
fn component_sizes_and_integer_types() {
    let expected = [
        (GlTypeEnum::Byte, 1, true),
        (GlTypeEnum::UnsignedByte, 1, true),
        (GlTypeEnum::Short, 2, true),
        (GlTypeEnum::UnsignedShort, 2, true),
        (GlTypeEnum::Int, 4, true),
        (GlTypeEnum::UnsignedInt, 4, true),
        (GlTypeEnum::Float, 4, false),
        (GlTypeEnum::Double, 8, false),
    ];
    for (t, size, integer) in expected {
        assert_eq!(t.get_size(), size);
        assert_eq!(t.is_integer(), integer);
    }
}

#[test]
fn mipmap_filters() {
    assert!(!MinFiltering::Nearest.uses_mipmap());
    assert!(!MinFiltering::Linear.uses_mipmap());
    assert!(MinFiltering::NearestMipmapNearest.uses_mipmap());
    assert!(MinFiltering::LinearMipmapNearest.uses_mipmap());
    assert!(MinFiltering::NearestMipmapLinear.uses_mipmap());
    assert!(MinFiltering::LinearMipmapLinear.uses_mipmap());
}

#[test]
fn clear_masks_combine_the_requested_buffers() {
    assert_eq!(combined_clear_mask(&[]), 0);
    assert_eq!(combined_clear_mask(&[ClearField::Color]), gl::COLOR_BUFFER_BIT);
    assert_eq!(
        combined_clear_mask(&[ClearField::Color, ClearField::Depth]),
        gl::COLOR_BUFFER_BIT | gl::DEPTH_BUFFER_BIT
    );
    assert_eq!(
        combined_clear_mask(&[ClearField::Stencil, ClearField::Color, ClearField::Stencil, ClearField::Depth]),
        0x4500
    );
    let mask = combined_clear_mask(&[ClearField::Depth, ClearField::Depth]);
    assert_eq!(mask & gl::DEPTH_BUFFER_BIT, gl::DEPTH_BUFFER_BIT);
    assert_eq!(mask & gl::COLOR_BUFFER_BIT, 0);
    assert_eq!(mask & gl::STENCIL_BUFFER_BIT, 0);
}
