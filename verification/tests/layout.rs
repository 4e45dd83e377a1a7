use flappy_bird::graphics::renderer::atlas::{Atlas, AtlasFields, AtlasFrame, FrameInfo, TexelPos, UvInfo};
use flappy_bird::graphics::renderer::positioning::{apply_transform, HalfExtents, PositionMode, SimpleTransform};
use flappy_bird::graphics::renderer::types::GlTypeEnum;
use flappy_bird::graphics::renderer::vertex_array_object::{
    plan_vertex_attributes, BufferLayout, FieldType, VertexFieldKind,
};
use nalgebra_glm as glm;

#[test]
fn vertex_attributes_follow_each_other() {
    let glyphs = BufferLayout {
        buffer_id: 7,
        fields: vec![
            FieldType::new(false, GlTypeEnum::Float, 2),
            FieldType::new(false, GlTypeEnum::Float, 2),
            FieldType::new(false, GlTypeEnum::UnsignedInt, 1),
            FieldType::new(true, GlTypeEnum::UnsignedByte, 4),
        ],
        stride: 24,
        divisor: 1,
    };
    let quads = BufferLayout {
        buffer_id: 9,
        fields: vec![FieldType::new(false, GlTypeEnum::Short, 2), FieldType::new(false, GlTypeEnum::Int, 3)],
        stride: 16,
        divisor: 0,
    };
    let plan = plan_vertex_attributes(&[glyphs, quads]);
    assert_eq!(plan.bindings.len(), 2);
    assert_eq!((plan.bindings[0].binding_index, plan.bindings[0].buffer_id), (0, 7));
    assert_eq!((plan.bindings[0].stride, plan.bindings[0].divisor), (24, 1));
    assert_eq!((plan.bindings[1].binding_index, plan.bindings[1].buffer_id), (1, 9));
    assert_eq!((plan.bindings[1].stride, plan.bindings[1].divisor), (16, 0));
    let a = &plan.attributes;
    assert_eq!(a.len(), 6);
    let indices: Vec<u32> = a.iter().map(|x| x.attribute_index).collect();
    assert_eq!(indices, vec![0, 1, 2, 3, 4, 5]);
    let bindings: Vec<u32> = a.iter().map(|x| x.binding_index).collect();
    assert_eq!(bindings, vec![0, 0, 0, 0, 1, 1]);
    let offsets: Vec<u32> = a.iter().map(|x| x.relative_offset).collect();
    assert_eq!(offsets, vec![0, 8, 16, 20, 0, 4]);
    let integer: Vec<bool> = a.iter().map(|x| x.integer).collect();
    assert_eq!(integer, vec![false, false, true, false, false, true]);
    assert_eq!(a[3].gl_type, gl::UNSIGNED_BYTE);
    assert!(a[3].normalized);
    assert_eq!(a[3].size, 4);
    assert_eq!(a[5].gl_type, gl::INT);
}

#[test]
fn empty_layouts_plan_nothing() {
    let plan = plan_vertex_attributes(&[]);
    assert!(plan.bindings.is_empty() && plan.attributes.is_empty());
    let plan = plan_vertex_attributes(&[BufferLayout { buffer_id: 3, fields: vec![], stride: 0, divisor: 0 }]);
    assert_eq!(plan.bindings.len(), 1);
    assert!(plan.attributes.is_empty());
}

fn frame(x: u16, y: u16, width: u16, height: u16) -> FrameInfo {
    FrameInfo { x, y, width, height }
}

fn fields() -> AtlasFields {
    AtlasFields {
        bird1: frame(0, 0, 17, 12),
        bird2: frame(17, 0, 17, 12),
        bird3: frame(34, 0, 17, 12),
        bird4: frame(51, 0, 17, 12),
        button: frame(0, 12, 80, 28),
        cano: frame(80, 12, 26, 1),
        hover_button: frame(106, 12, 80, 28),
        scene: frame(0, 40, 144, 256),
        top_cano: frame(186, 12, 26, 13),
    }
}

#[test]
fn frame_corners_and_dimensions() {
    let f = frame(10, 20, 30, 40);
    let uv = f.to_uv();
    assert_eq!(uv, UvInfo { min: TexelPos { x: 10, y: 20 }, max: TexelPos { x: 40, y: 60 } });
    assert_eq!(uv.get_original_dimensions(), TexelPos { x: 30, y: 40 });
    let edge = frame(65535, 0, 0, 65535).to_uv();
    assert_eq!(edge.max, TexelPos { x: 65535, y: 65535 });
}

#[test]
fn atlas_covers_its_frames() {
    let atlas = Atlas::from_frames(fields());
    assert_eq!(atlas.dimensions(), TexelPos { x: 212, y: 296 });
    assert_eq!(atlas.frames(), fields());
    let uv = atlas.get_info(AtlasFrame::TopCano);
    assert_eq!(uv, UvInfo { min: TexelPos { x: 186, y: 12 }, max: TexelPos { x: 212, y: 25 } });
    let uv = atlas.get_info(AtlasFrame::Bird3);
    assert_eq!(uv.get_original_dimensions(), TexelPos { x: 17, y: 12 });
    let empty = Atlas::from_frames(AtlasFields {
        bird1: frame(0, 0, 0, 0),
        bird2: frame(0, 0, 0, 0),
        bird3: frame(0, 0, 0, 0),
        bird4: frame(0, 0, 0, 0),
        button: frame(0, 0, 0, 0),
        cano: frame(0, 0, 0, 0),
        hover_button: frame(0, 0, 0, 0),
        scene: frame(0, 0, 0, 0),
        top_cano: frame(0, 0, 0, 0),
    });
    assert_eq!(empty.dimensions(), TexelPos { x: 0, y: 0 });
}

#[test]
fn anchors_of_boxes() {
    let modes = [
        PositionMode::TopLeft,
        PositionMode::TopCenter,
        PositionMode::TopRight,
        PositionMode::CenterLeft,
        PositionMode::Center,
        PositionMode::CenterRight,
        PositionMode::BottomLeft,
        PositionMode::BottomCenter,
        PositionMode::BottomRight,
    ];
    for m in modes {
        let min = m.min_corner_offset();
        let center = m.center_offset();
        assert_eq!(center, HalfExtents { x: min.x + 1, y: min.y + 1 });
    }
    assert_eq!(PositionMode::TopLeft.min_corner_offset(), HalfExtents { x: 0, y: -2 });
    assert_eq!(PositionMode::BottomRight.min_corner_offset(), HalfExtents { x: -2, y: 0 });
    assert_eq!(PositionMode::Center.center_offset(), HalfExtents { x: 0, y: 0 });
    assert_eq!(PositionMode::TopCenter.center_offset(), HalfExtents { x: 0, y: -1 });
}

#[test]
fn transforms_of_quads() {
    let uv = UvInfo { min: TexelPos { x: 1, y: 2 }, max: TexelPos { x: 5, y: 9 } };
    let id = apply_transform(SimpleTransform::Identity, uv);
    assert!(!id.reverse_top_edge);
    assert_eq!((id.uv_min, id.uv_max), (uv.min, uv.max));
    let h = apply_transform(SimpleTransform::FlipHorizontal, uv);
    assert_eq!((h.uv_min, h.uv_max), (TexelPos { x: 5, y: 2 }, TexelPos { x: 1, y: 9 }));
    let v = apply_transform(SimpleTransform::FlipVertical, uv);
    assert_eq!((v.uv_min, v.uv_max), (TexelPos { x: 1, y: 9 }, TexelPos { x: 5, y: 2 }));
    assert!(!v.reverse_top_edge);
    let back = apply_transform(SimpleTransform::FlipVertical, UvInfo { min: v.uv_min, max: v.uv_max });
    assert_eq!((back.uv_min, back.uv_max), (uv.min, uv.max));
    let r = apply_transform(SimpleTransform::Rotate180, uv);
    assert!(r.reverse_top_edge);
    assert_eq!((r.uv_min, r.uv_max), (uv.min, uv.max));
}

#[test]
fn field_kinds_give_their_attributes() {
    assert_eq!(
        VertexFieldKind::UnsignedByte4.field_type(true),
        FieldType { normalized: true, gl_type: GlTypeEnum::UnsignedByte, size: 4 }
    );
    assert_eq!(
        VertexFieldKind::Short2.field_type(false),
        FieldType { normalized: false, gl_type: GlTypeEnum::Short, size: 2 }
    );
    assert_eq!(
        VertexFieldKind::Float2.field_type(false),
        FieldType { normalized: false, gl_type: GlTypeEnum::Float, size: 2 }
    );
    assert_eq!(
        VertexFieldKind::UnsignedInt.field_type(false),
        FieldType { normalized: false, gl_type: GlTypeEnum::UnsignedInt, size: 1 }
    );
}

#[test]
fn field_kinds_cover_the_bytes_of_their_rust_types() {
    let kinds = [
        (VertexFieldKind::UnsignedByte, std::mem::size_of::<u8>()),
        (VertexFieldKind::UnsignedByte3, std::mem::size_of::<glm::U8Vec3>()),
        (VertexFieldKind::UnsignedByte4, std::mem::size_of::<glm::U8Vec4>()),
        (VertexFieldKind::UnsignedShort2, std::mem::size_of::<glm::U16Vec2>()),
        (VertexFieldKind::Short2, std::mem::size_of::<glm::I16Vec2>()),
        (VertexFieldKind::Float, std::mem::size_of::<f32>()),
        (VertexFieldKind::Float2, std::mem::size_of::<glm::Vec2>()),
        (VertexFieldKind::UnsignedInt, std::mem::size_of::<u32>()),
    ];
    for (kind, bytes) in kinds {
        let f = kind.field_type(false);
        assert_eq!(f.gl_type.get_size() * f.size as usize, bytes);
    }
}
