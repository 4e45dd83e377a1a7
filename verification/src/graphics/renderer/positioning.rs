use vstd::prelude::*;
use crate::graphics::renderer::atlas::{TexelPos, UvInfo};

verus! {

/// The point of a box that its position names.
#[derive(Debug, Clone, Copy, PartialEq, Eq, Structural)]
pub enum PositionMode {
    TopLeft,
    TopCenter,
    TopRight,
    CenterLeft,
    Center,
    CenterRight,
    BottomLeft,
    BottomCenter,
    BottomRight,
}

/// A horizontal or vertical offset measured in halves of a box's extent.
#[derive(Debug, Clone, Copy, PartialEq, Eq, Structural)]
pub struct HalfExtents {
    pub x: i8,
    pub y: i8,
}

impl PositionMode {
    /// Where the box's minimum corner lies relative to the position, in
    /// halves of the box's size (y grows upwards).
    pub open spec fn spec_min_corner(self) -> HalfExtents {
        match self {
            PositionMode::TopLeft => HalfExtents { x: 0, y: -2i8 },
            PositionMode::TopCenter => HalfExtents { x: -1i8, y: -2i8 },
            PositionMode::TopRight => HalfExtents { x: -2i8, y: -2i8 },
            PositionMode::CenterLeft => HalfExtents { x: 0, y: -1i8 },
            PositionMode::Center => HalfExtents { x: -1i8, y: -1i8 },
            PositionMode::CenterRight => HalfExtents { x: -2i8, y: -1i8 },
            PositionMode::BottomLeft => HalfExtents { x: 0, y: 0 },
            PositionMode::BottomCenter => HalfExtents { x: -1i8, y: 0 },
            PositionMode::BottomRight => HalfExtents { x: -2i8, y: 0 },
        }
    }

    /// Where the box's center lies relative to the position, in halves of
    /// the box's extent along its right and up directions.
    pub open spec fn spec_center(self) -> HalfExtents {
        match self {
            PositionMode::TopLeft => HalfExtents { x: 1, y: -1i8 },
            PositionMode::TopCenter => HalfExtents { x: 0, y: -1i8 },
            PositionMode::TopRight => HalfExtents { x: -1i8, y: -1i8 },
            PositionMode::CenterLeft => HalfExtents { x: 1, y: 0 },
            PositionMode::Center => HalfExtents { x: 0, y: 0 },
            PositionMode::CenterRight => HalfExtents { x: -1i8, y: 0 },
            PositionMode::BottomLeft => HalfExtents { x: 1, y: 1 },
            PositionMode::BottomCenter => HalfExtents { x: 0, y: 1 },
            PositionMode::BottomRight => HalfExtents { x: -1i8, y: 1 },
        }
    }

    /// The offset of an axis-aligned box's minimum corner from its position.
    pub fn min_corner_offset(&self) -> (r: HalfExtents)
        ensures
            r == self.spec_min_corner(),
    {
        match self {
            PositionMode::TopLeft => HalfExtents { x: 0, y: -2i8 },
            PositionMode::TopCenter => HalfExtents { x: -1i8, y: -2i8 },
            PositionMode::TopRight => HalfExtents { x: -2i8, y: -2i8 },
            PositionMode::CenterLeft => HalfExtents { x: 0, y: -1i8 },
            PositionMode::Center => HalfExtents { x: -1i8, y: -1i8 },
            PositionMode::CenterRight => HalfExtents { x: -2i8, y: -1i8 },
            PositionMode::BottomLeft => HalfExtents { x: 0, y: 0 },
            PositionMode::BottomCenter => HalfExtents { x: -1i8, y: 0 },
            PositionMode::BottomRight => HalfExtents { x: -2i8, y: 0 },
        }
    }

    /// The offset of an oriented box's center from its position.
    pub fn center_offset(&self) -> (r: HalfExtents)
        ensures
            r == self.spec_center(),
    {
        match self {
            PositionMode::TopLeft => HalfExtents { x: 1, y: -1i8 },
            PositionMode::TopCenter => HalfExtents { x: 0, y: -1i8 },
            PositionMode::TopRight => HalfExtents { x: -1i8, y: -1i8 },
            PositionMode::CenterLeft => HalfExtents { x: 1, y: 0 },
            PositionMode::Center => HalfExtents { x: 0, y: 0 },
            PositionMode::CenterRight => HalfExtents { x: -1i8, y: 0 },
            PositionMode::BottomLeft => HalfExtents { x: 1, y: 1 },
            PositionMode::BottomCenter => HalfExtents { x: 0, y: 1 },
            PositionMode::BottomRight => HalfExtents { x: -1i8, y: 1 },
        }
    }
}

/// Axis-aligned and oriented boxes agree on every anchor: the center of the
/// oriented box lies where the center of the axis-aligned box placed at the
/// same position does, half a size past its minimum corner; and the anchor
/// always lies on the box (its corner offset is between minus one size and 0).
pub proof fn lemma_anchors_agree(mode: PositionMode)
    ensures
        mode.spec_center().x == mode.spec_min_corner().x + 1,
        mode.spec_center().y == mode.spec_min_corner().y + 1,
        -2 <= mode.spec_min_corner().x <= 0,
        -2 <= mode.spec_min_corner().y <= 0,
{
}

/// The anchor follows the mode's column and row, in halves of the box's
/// size with y growing upwards: a left mode puts the box's left edge at the
/// position (x offset 0), a center column its middle (-1) and a right mode
/// its right edge (-2); a bottom mode puts the bottom edge at the position
/// (y offset 0), a center row the middle (-1) and a top mode the top edge (-2).
pub proof fn lemma_anchor_by_column_and_row(mode: PositionMode)
    ensures
        (mode is TopLeft || mode is CenterLeft || mode is BottomLeft) <==> mode.spec_min_corner().x == 0,
        (mode is TopCenter || mode is Center || mode is BottomCenter) <==> mode.spec_min_corner().x == -1,
        (mode is TopRight || mode is CenterRight || mode is BottomRight) <==> mode.spec_min_corner().x == -2,
        (mode is BottomLeft || mode is BottomCenter || mode is BottomRight) <==> mode.spec_min_corner().y == 0,
        (mode is CenterLeft || mode is Center || mode is CenterRight) <==> mode.spec_min_corner().y == -1,
        (mode is TopLeft || mode is TopCenter || mode is TopRight) <==> mode.spec_min_corner().y == -2,
{
}

/// A mirroring or half turn applied to a textured quad.
#[derive(Debug, Clone, Copy, PartialEq, Eq, Structural)]
pub enum SimpleTransform {
    Identity,
    FlipHorizontal,
    FlipVertical,
    Rotate180,
}

/// How a quad is drawn under a transform: whether its top edge is reversed,
/// and the texel corners sampled at its minimum and maximum corners.
#[derive(Debug, Clone, Copy, PartialEq, Eq, Structural)]
pub struct TransformedQuad {
    pub reverse_top_edge: bool,
    pub uv_min: TexelPos,
    pub uv_max: TexelPos,
}

pub open spec fn spec_apply_transform(transform: SimpleTransform, uv: UvInfo) -> TransformedQuad {
    match transform {
        SimpleTransform::Identity => TransformedQuad { reverse_top_edge: false, uv_min: uv.min, uv_max: uv.max },
        SimpleTransform::FlipHorizontal => TransformedQuad {
            reverse_top_edge: false,
            uv_min: TexelPos { x: uv.max.x, y: uv.min.y },
            uv_max: TexelPos { x: uv.min.x, y: uv.max.y },
        },
        SimpleTransform::FlipVertical => TransformedQuad {
            reverse_top_edge: false,
            uv_min: TexelPos { x: uv.min.x, y: uv.max.y },
            uv_max: TexelPos { x: uv.max.x, y: uv.min.y },
        },
        SimpleTransform::Rotate180 => TransformedQuad { reverse_top_edge: true, uv_min: uv.min, uv_max: uv.max },
    }
}

/// The edge direction and texel corners of a quad drawn with `transform`.
pub fn apply_transform(transform: SimpleTransform, uv: UvInfo) -> (r: TransformedQuad)
    ensures
        r == spec_apply_transform(transform, uv),
{
    match transform {
        SimpleTransform::Identity => TransformedQuad { reverse_top_edge: false, uv_min: uv.min, uv_max: uv.max },
        SimpleTransform::FlipHorizontal => TransformedQuad {
            reverse_top_edge: false,
            uv_min: TexelPos { x: uv.max.x, y: uv.min.y },
            uv_max: TexelPos { x: uv.min.x, y: uv.max.y },
        },
        SimpleTransform::FlipVertical => TransformedQuad {
            reverse_top_edge: false,
            uv_min: TexelPos { x: uv.min.x, y: uv.max.y },
            uv_max: TexelPos { x: uv.max.x, y: uv.min.y },
        },
        SimpleTransform::Rotate180 => TransformedQuad { reverse_top_edge: true, uv_min: uv.min, uv_max: uv.max },
    }
}

/// Mirroring twice along the same axis samples the original texels, and a
/// transform never changes which texels a quad covers: the corners it
/// samples are the frame's corners, possibly exchanged along an axis.
pub proof fn lemma_transform_involution(transform: SimpleTransform, uv: UvInfo)
    ensures
        ({
            let once = spec_apply_transform(transform, uv);
            let twice = spec_apply_transform(transform, UvInfo { min: once.uv_min, max: once.uv_max });
            twice.uv_min == uv.min && twice.uv_max == uv.max
        }),
        ({
            let q = spec_apply_transform(transform, uv);
            &&& (q.uv_min.x == uv.min.x && q.uv_max.x == uv.max.x) || (q.uv_min.x == uv.max.x && q.uv_max.x == uv.min.x)
            &&& (q.uv_min.y == uv.min.y && q.uv_max.y == uv.max.y) || (q.uv_min.y == uv.max.y && q.uv_max.y == uv.min.y)
        }),
{
}

/// What each transform does: only the half turn reverses the quad's top
/// edge; only the horizontal mirror exchanges the texture's x corners and
/// only the vertical mirror its y corners, every other transform sampling
/// them as they are.
pub proof fn lemma_transform_effects(transform: SimpleTransform, uv: UvInfo)
    ensures
        spec_apply_transform(transform, uv).reverse_top_edge <==> transform is Rotate180,
        transform is FlipHorizontal ==> spec_apply_transform(transform, uv).uv_min.x == uv.max.x
            && spec_apply_transform(transform, uv).uv_max.x == uv.min.x,
        !(transform is FlipHorizontal) ==> spec_apply_transform(transform, uv).uv_min.x == uv.min.x
            && spec_apply_transform(transform, uv).uv_max.x == uv.max.x,
        transform is FlipVertical ==> spec_apply_transform(transform, uv).uv_min.y == uv.max.y
            && spec_apply_transform(transform, uv).uv_max.y == uv.min.y,
        !(transform is FlipVertical) ==> spec_apply_transform(transform, uv).uv_min.y == uv.min.y
            && spec_apply_transform(transform, uv).uv_max.y == uv.max.y,
{
}

} // verus!
