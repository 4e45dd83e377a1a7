use vstd::prelude::*;

verus! {

/// A pair of texel coordinates (or a texel extent) in an atlas image.
#[derive(Debug, Clone, Copy, PartialEq, Eq, Structural)]
pub struct TexelPos {
    pub x: u16,
    pub y: u16,
}

/// The rectangle of one frame inside an atlas image, in texels.
#[derive(Debug, Clone, Copy, PartialEq, Eq, Structural)]
pub struct FrameInfo {
    pub x: u16,
    pub y: u16,
    pub width: u16,
    pub height: u16,
}

/// The corners of a frame in texel coordinates: `min` is the top-left
/// texel, `max` lies one past the bottom-right one.
#[derive(Debug, Clone, Copy, PartialEq, Eq, Structural)]
pub struct UvInfo {
    pub min: TexelPos,
    pub max: TexelPos,
}

impl FrameInfo {
    /// The frame's far corner is addressable with `u16` coordinates.
    pub open spec fn fits(self) -> bool {
        &&& self.x + self.width <= u16::MAX
        &&& self.y + self.height <= u16::MAX
    }

    pub open spec fn spec_to_uv(self) -> UvInfo {
        UvInfo {
            min: TexelPos { x: self.x, y: self.y },
            max: TexelPos { x: (self.x + self.width) as u16, y: (self.y + self.height) as u16 },
        }
    }

    pub fn to_uv(&self) -> (r: UvInfo)
        requires
            self.fits(),
        ensures
            r == self.spec_to_uv(),
    {
        let min = TexelPos { x: self.x, y: self.y };
        let max = TexelPos { x: self.x + self.width, y: self.y + self.height };
        UvInfo { min, max }
    }
}

impl UvInfo {
    /// `max` is not before `min` on either axis.
    pub open spec fn ordered(self) -> bool {
        self.min.x <= self.max.x && self.min.y <= self.max.y
    }

    /// The extent of the frame in texels.
    pub fn get_original_dimensions(&self) -> (r: TexelPos)
        requires
            self.ordered(),
        ensures
            r.x == self.max.x - self.min.x,
            r.y == self.max.y - self.min.y,
    {
        TexelPos { x: self.max.x - self.min.x, y: self.max.y - self.min.y }
    }
}

/// The extent of a frame's corners is the frame's own size.
pub proof fn lemma_uv_dimensions(frame: FrameInfo)
    requires
        frame.fits(),
    ensures
        frame.spec_to_uv().min == (TexelPos { x: frame.x, y: frame.y }),
        frame.spec_to_uv().ordered(),
        frame.spec_to_uv().max.x - frame.spec_to_uv().min.x == frame.width,
        frame.spec_to_uv().max.y - frame.spec_to_uv().min.y == frame.height,
{
}

/// The frames of the game's texture atlas.
#[derive(Debug, Clone, Copy, PartialEq, Eq, Structural)]
pub enum AtlasFrame {
    Bird1,
    Bird2,
    Bird3,
    Bird4,
    Button,
    Cano,
    HoverButton,
    Scene,
    TopCano,
}

/// The rectangle of every frame of the game's texture atlas.
#[derive(Debug, Clone, Copy, PartialEq, Eq, Structural)]
pub struct AtlasFields {
    pub bird1: FrameInfo,
    pub bird2: FrameInfo,
    pub bird3: FrameInfo,
    pub bird4: FrameInfo,
    pub button: FrameInfo,
    pub cano: FrameInfo,
    pub hover_button: FrameInfo,
    pub scene: FrameInfo,
    pub top_cano: FrameInfo,
}

impl AtlasFields {
    pub open spec fn spec_frame(self, frame: AtlasFrame) -> FrameInfo {
        match frame {
            AtlasFrame::Bird1 => self.bird1,
            AtlasFrame::Bird2 => self.bird2,
            AtlasFrame::Bird3 => self.bird3,
            AtlasFrame::Bird4 => self.bird4,
            AtlasFrame::Button => self.button,
            AtlasFrame::Cano => self.cano,
            AtlasFrame::HoverButton => self.hover_button,
            AtlasFrame::Scene => self.scene,
            AtlasFrame::TopCano => self.top_cano,
        }
    }

    /// The frames in the order of their names.
    pub open spec fn all(self) -> Seq<FrameInfo> {
        seq![
            self.bird1,
            self.bird2,
            self.bird3,
            self.bird4,
            self.button,
            self.cano,
            self.hover_button,
            self.scene,
            self.top_cano,
        ]
    }

    /// Every frame's far corner is addressable with `u16` coordinates.
    pub open spec fn all_fit(self) -> bool {
        forall|f: AtlasFrame| (#[trigger] self.spec_frame(f)).fits()
    }

    pub fn frame(&self, frame: AtlasFrame) -> (r: FrameInfo)
        ensures
            r == self.spec_frame(frame),
    {
        match frame {
            AtlasFrame::Bird1 => self.bird1,
            AtlasFrame::Bird2 => self.bird2,
            AtlasFrame::Bird3 => self.bird3,
            AtlasFrame::Bird4 => self.bird4,
            AtlasFrame::Button => self.button,
            AtlasFrame::Cano => self.cano,
            AtlasFrame::HoverButton => self.hover_button,
            AtlasFrame::Scene => self.scene,
            AtlasFrame::TopCano => self.top_cano,
        }
    }
}

/// The largest right edge of the frames, or 0 when there are none.
pub open spec fn max_right(frames: Seq<FrameInfo>) -> int
    decreases frames.len(),
{
    if frames.len() == 0 {
        0
    } else {
        let m = max_right(frames.drop_last());
        let e = frames.last().x + frames.last().width;
        if m >= e { m } else { e }
    }
}

/// The largest bottom edge of the frames, or 0 when there are none.
pub open spec fn max_bottom(frames: Seq<FrameInfo>) -> int
    decreases frames.len(),
{
    if frames.len() == 0 {
        0
    } else {
        let m = max_bottom(frames.drop_last());
        let e = frames.last().y + frames.last().height;
        if m >= e { m } else { e }
    }
}

/// A texture atlas: the frames of the atlas image and the extent they cover.
pub struct Atlas {
    dimensions: TexelPos,
    frames: AtlasFields,
}

impl Atlas {
    #[verifier::type_invariant]
    closed spec fn well_formed(self) -> bool {
        &&& self.frames.all_fit()
        &&& self.dimensions.x == max_right(self.frames.all())
        &&& self.dimensions.y == max_bottom(self.frames.all())
    }

    /// The frames the atlas was made from.
    pub closed spec fn spec_frames(self) -> AtlasFields {
        self.frames
    }

    /// The extent covered by the frames.
    pub closed spec fn spec_dimensions(self) -> TexelPos {
        self.dimensions
    }

    /// Makes an atlas of `frames`; its dimensions are the largest right and
    /// bottom edges of the frames.
    pub fn from_frames(frames: AtlasFields) -> (r: Atlas)
        requires
            frames.all_fit(),
        ensures
            r.spec_frames() == frames,
            r.spec_dimensions().x == max_right(frames.all()),
            r.spec_dimensions().y == max_bottom(frames.all()),
    {
        let list: [FrameInfo; 9] = [
            frames.bird1,
            frames.bird2,
            frames.bird3,
            frames.bird4,
            frames.button,
            frames.cano,
            frames.hover_button,
            frames.scene,
            frames.top_cano,
        ];
        assert(list@ =~= frames.all());
        let mut max_w: u16 = 0;
        let mut max_h: u16 = 0;
        let mut i: usize = 0;
        while i < 9
            invariant
                i <= 9,
                list@ == frames.all(),
                frames.all_fit(),
                max_w == max_right(frames.all().take(i as int)),
                max_h == max_bottom(frames.all().take(i as int)),
            decreases 9 - i,
        {
            let f = list[i];
            proof {
                assert(frames.all().take(i as int + 1).drop_last() =~= frames.all().take(i as int));
                lemma_all_fit_each(frames, i as int);
            }
            let right = f.x + f.width;
            let bottom = f.y + f.height;
            if right > max_w {
                max_w = right;
            }
            if bottom > max_h {
                max_h = bottom;
            }
            i = i + 1;
        }
        assert(frames.all().take(9) =~= frames.all());
        Atlas { dimensions: TexelPos { x: max_w, y: max_h }, frames }
    }

    pub fn dimensions(&self) -> (r: TexelPos)
        ensures
            r == self.spec_dimensions(),
    {
        self.dimensions
    }

    /// The texel corners of `frame`.
    pub fn get_info(&self, frame: AtlasFrame) -> (r: UvInfo)
        ensures
            r == self.spec_frames().spec_frame(frame).spec_to_uv(),
    {
        proof {
            use_type_invariant(self);
        }
        let f = self.frames.frame(frame);
        assert(self.frames.spec_frame(frame).fits());
        f.to_uv()
    }

    pub fn frames(&self) -> (r: AtlasFields)
        ensures
            r == self.spec_frames(),
    {
        self.frames
    }
}

proof fn lemma_all_fit_each(frames: AtlasFields, i: int)
    requires
        frames.all_fit(),
        0 <= i < 9,
    ensures
        frames.all()[i].fits(),
{
    assert(frames.spec_frame(AtlasFrame::Bird1).fits());
    assert(frames.spec_frame(AtlasFrame::Bird2).fits());
    assert(frames.spec_frame(AtlasFrame::Bird3).fits());
    assert(frames.spec_frame(AtlasFrame::Bird4).fits());
    assert(frames.spec_frame(AtlasFrame::Button).fits());
    assert(frames.spec_frame(AtlasFrame::Cano).fits());
    assert(frames.spec_frame(AtlasFrame::HoverButton).fits());
    assert(frames.spec_frame(AtlasFrame::Scene).fits());
    assert(frames.spec_frame(AtlasFrame::TopCano).fits());
}

/// The atlas dimensions cover every frame: no frame reaches past them.
pub proof fn lemma_frames_within(frames: Seq<FrameInfo>, k: int)
    requires
        0 <= k < frames.len(),
    ensures
        frames[k].x + frames[k].width <= max_right(frames),
        frames[k].y + frames[k].height <= max_bottom(frames),
    decreases frames.len(),
{
    if k < frames.len() - 1 {
        lemma_frames_within(frames.drop_last(), k);
        assert(frames.drop_last()[k] == frames[k]);
    }
}

/// Looking a frame up by its name gives the field of the same name.
pub proof fn lemma_frames_by_name(fields: AtlasFields)
    ensures
        fields.spec_frame(AtlasFrame::Bird1) == fields.bird1,
        fields.spec_frame(AtlasFrame::Bird2) == fields.bird2,
        fields.spec_frame(AtlasFrame::Bird3) == fields.bird3,
        fields.spec_frame(AtlasFrame::Bird4) == fields.bird4,
        fields.spec_frame(AtlasFrame::Button) == fields.button,
        fields.spec_frame(AtlasFrame::Cano) == fields.cano,
        fields.spec_frame(AtlasFrame::HoverButton) == fields.hover_button,
        fields.spec_frame(AtlasFrame::Scene) == fields.scene,
        fields.spec_frame(AtlasFrame::TopCano) == fields.top_cano,
{
}

} // verus!
