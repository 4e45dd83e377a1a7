use vstd::prelude::*;
use crate::game::scene::NextScene;
use crate::graphics::renderer::atlas::{Atlas, AtlasFrame, UvInfo};

verus! {

/// Nanoseconds in a millisecond.
pub const NANOS_PER_MILLI: u64 = 1_000_000;
/// Time between two wing frames of the flap animation, in whole milliseconds
/// that must be exceeded.
pub const FLAP_FRAME_MILLIS: u64 = 100;
/// Time between the collision that ends a round and the return to the menu.
pub const END_DELAY_NANOS: u64 = 3_000_000_000;

/// Time elapsed from `earlier` to `later`, zero when `later` is earlier.
pub open spec fn elapsed(earlier: u64, later: u64) -> int {
    if later >= earlier { later - earlier } else { 0 }
}

/// One update of the wing animation at `now` from frame `index` last changed
/// at `last`: a flapping bird moves to the next frame once more than 100
/// whole milliseconds have passed; a resting bird stays at rest.
pub open spec fn flap_step(index: u8, last: u64, now: u64) -> (u8, u64) {
    if index != 0 && elapsed(last, now) / (NANOS_PER_MILLI as int) > FLAP_FRAME_MILLIS {
        (((index + 1) % 5) as u8, now)
    } else {
        (index, last)
    }
}

/// The wing animation of the bird: frame 0 is the resting pose, a jump
/// starts the flap at frame 1, and the flap runs through frames 2, 3 and 4
/// back to rest, one frame per 100 ms. Times are nanoseconds on one clock.
pub struct BirdFlyState {
    current_index: u8,
    last_change: u64,
}

impl BirdFlyState {
    #[verifier::type_invariant]
    closed spec fn well_formed(self) -> bool {
        self.current_index < 5
    }

    /// The frame of the animation.
    pub closed spec fn spec_index(self) -> u8 {
        self.current_index
    }

    /// When the frame last changed.
    pub closed spec fn spec_last_change(self) -> u64 {
        self.last_change
    }

    pub fn new(now: u64) -> (r: BirdFlyState)
        ensures
            r.spec_index() == 0,
            r.spec_last_change() == now,
    {
        BirdFlyState { current_index: 0, last_change: now }
    }

    /// Advances the flap by one frame when more than 100 whole milliseconds
    /// have passed since the last change; a resting bird stays at rest.
    pub fn update(&mut self, now: u64)
        ensures
            final(self).spec_index() < 5,
            (final(self).spec_index(), final(self).spec_last_change())
                == flap_step(old(self).spec_index(), old(self).spec_last_change(), now),
    {
        proof {
            use_type_invariant(&*self);
        }
        if self.current_index == 0 {
            return;
        }
        let delta = if now >= self.last_change {
            now - self.last_change
        } else {
            0
        };
        if delta / NANOS_PER_MILLI > FLAP_FRAME_MILLIS {
            self.current_index = (self.current_index + 1) % 5;
            self.last_change = now;
        }
    }

    /// Starts a flap at frame 1.
    pub fn on_jump(&mut self, now: u64)
        ensures
            final(self).spec_index() == 1,
            final(self).spec_last_change() == now,
    {
        self.current_index = 1;
        self.last_change = now;
    }

    /// The atlas frame drawn for an animation frame.
    pub open spec fn spec_frame(index: u8) -> AtlasFrame {
        if index == 0 {
            AtlasFrame::Bird1
        } else if index == 1 || index == 4 {
            AtlasFrame::Bird2
        } else if index == 2 {
            AtlasFrame::Bird3
        } else {
            AtlasFrame::Bird4
        }
    }

    /// The atlas frame drawn for the current animation frame.
    pub fn texture_frame(&self) -> (r: AtlasFrame)
        ensures
            r == Self::spec_frame(self.spec_index()),
            self.spec_index() < 5,
    {
        proof {
            use_type_invariant(self);
        }
        let i = self.current_index;
        if i == 0 {
            AtlasFrame::Bird1
        } else if i == 1 || i == 4 {
            AtlasFrame::Bird2
        } else if i == 2 {
            AtlasFrame::Bird3
        } else {
            AtlasFrame::Bird4
        }
    }

    /// The texel corners of the current animation frame in `atlas`.
    pub fn get_texture_state(&self, atlas: &Atlas) -> (r: UvInfo)
        ensures
            r == atlas.spec_frames().spec_frame(Self::spec_frame(self.spec_index())).spec_to_uv(),
    {
        let frame = self.texture_frame();
        atlas.get_info(frame)
    }
}

/// The bird at rest (animation frame 0) is drawn with the first bird
/// picture, and a flap runs through the second, third, fourth and second
/// pictures again (frames 1 to 4).
pub proof fn lemma_bird_pictures()
    ensures
        BirdFlyState::spec_frame(0) == AtlasFrame::Bird1,
        BirdFlyState::spec_frame(1) == AtlasFrame::Bird2,
        BirdFlyState::spec_frame(2) == AtlasFrame::Bird3,
        BirdFlyState::spec_frame(3) == AtlasFrame::Bird4,
        BirdFlyState::spec_frame(4) == AtlasFrame::Bird2,
{
}

/// A jump's flap runs through frames 2, 3 and 4 and back to rest after four
/// updates that each come more than 100 ms after the previous change, and a
/// resting bird stays at rest whatever the time.
pub proof fn lemma_flap_cycle(t0: u64, t1: u64, t2: u64, t3: u64, t4: u64, later: u64)
    requires
        elapsed(t0, t1) / (NANOS_PER_MILLI as int) > FLAP_FRAME_MILLIS,
        elapsed(t1, t2) / (NANOS_PER_MILLI as int) > FLAP_FRAME_MILLIS,
        elapsed(t2, t3) / (NANOS_PER_MILLI as int) > FLAP_FRAME_MILLIS,
        elapsed(t3, t4) / (NANOS_PER_MILLI as int) > FLAP_FRAME_MILLIS,
    ensures
        flap_step(1, t0, t1) == (2u8, t1),
        flap_step(2, t1, t2) == (3u8, t2),
        flap_step(3, t2, t3) == (4u8, t3),
        flap_step(4, t3, t4) == (0u8, t4),
        flap_step(0, t4, later) == (0u8, t4),
{
}

/// How a frame of a round starts.
#[derive(Debug, Clone, Copy, PartialEq, Eq, Structural)]
pub enum FrameStart {
    /// The round runs: pipes, collisions and physics advance.
    Play,
    /// The bird has crashed and the round waits for its end.
    Hold,
    /// The wait is over: the game switches scene.
    Leave(NextScene),
}

/// What the second half of a frame of a round did.
#[derive(Debug, Clone, Copy, PartialEq, Eq, Structural)]
pub struct FrameEnd {
    /// The frame's collision ended the round: the crash sound plays.
    pub crashed: bool,
    /// Nanoseconds since the previous frame, zero if the clock went back.
    pub elapsed_nanos: u64,
}

/// The clock of a round: the bird's animation, the time of the previous
/// frame, and, once the bird has crashed, when the round ends.
pub struct RoundClock {
    bird_fly_state: BirdFlyState,
    last_frame_time: u64,
    time_to_change_scene: Option<u64>,
}

impl RoundClock {
    pub closed spec fn spec_bird(self) -> BirdFlyState {
        self.bird_fly_state
    }

    pub closed spec fn spec_last_frame_time(self) -> u64 {
        self.last_frame_time
    }

    /// When the round ends, once the bird has crashed.
    pub closed spec fn spec_end_time(self) -> Option<u64> {
        self.time_to_change_scene
    }

    pub fn new(now: u64) -> (r: RoundClock)
        ensures
            r.spec_bird().spec_index() == 0,
            r.spec_last_frame_time() == now,
            r.spec_end_time() is None,
    {
        RoundClock { bird_fly_state: BirdFlyState::new(now), last_frame_time: now, time_to_change_scene: None }
    }

    /// Whether the round still takes input: not after the crash.
    pub fn accepts_input(&self) -> (r: bool)
        ensures
            r == self.spec_end_time() is None,
    {
        self.time_to_change_scene.is_none()
    }

    /// A jump: accepted while the round runs, when it starts a flap.
    pub fn jump(&mut self, now: u64) -> (r: bool)
        ensures
            r == old(self).spec_end_time() is None,
            final(self).spec_end_time() == old(self).spec_end_time(),
            final(self).spec_last_frame_time() == old(self).spec_last_frame_time(),
            r ==> final(self).spec_bird().spec_index() == 1 && final(self).spec_bird().spec_last_change() == now,
            !r ==> final(self).spec_bird() == old(self).spec_bird(),
    {
        if self.time_to_change_scene.is_some() {
            return false;
        }
        self.bird_fly_state.on_jump(now);
        true
    }

    /// How the frame at `now` starts: after a crash the round holds until
    /// its end time has passed, then returns to the main menu.
    pub fn begin_frame(&self, now: u64) -> (r: FrameStart)
        ensures
            r == (match self.spec_end_time() {
                None => FrameStart::Play,
                Some(end) => if now > end {
                    FrameStart::Leave(NextScene::MainMenu)
                } else {
                    FrameStart::Hold
                },
            }),
    {
        match self.time_to_change_scene {
            None => FrameStart::Play,
            Some(end) => if now > end {
                FrameStart::Leave(NextScene::MainMenu)
            } else {
                FrameStart::Hold
            },
        }
    }

    /// Ends a frame that plays: a collision schedules the end of the round
    /// three seconds later, the bird's animation advances, and the frame's
    /// time becomes the previous frame's.
    pub fn finish_frame(&mut self, now: u64, collided: bool) -> (r: FrameEnd)
        requires
            old(self).spec_end_time() is None,
            collided ==> now <= u64::MAX - END_DELAY_NANOS,
        ensures
            r.crashed == collided,
            r.elapsed_nanos == elapsed(old(self).spec_last_frame_time(), now),
            final(self).spec_end_time() == (if collided { Some((now + END_DELAY_NANOS) as u64) } else { None }),
            final(self).spec_last_frame_time() == now,
            final(self).spec_bird().spec_index() < 5,
            (final(self).spec_bird().spec_index(), final(self).spec_bird().spec_last_change()) == flap_step(
                old(self).spec_bird().spec_index(),
                old(self).spec_bird().spec_last_change(),
                now,
            ),
    {
        if collided {
            self.time_to_change_scene = Some(now + END_DELAY_NANOS);
        }
        self.bird_fly_state.update(now);
        let elapsed_nanos = if now >= self.last_frame_time {
            now - self.last_frame_time
        } else {
            0
        };
        self.last_frame_time = now;
        FrameEnd { crashed: collided, elapsed_nanos }
    }

    /// The texel corners of the bird's current animation frame in `atlas`.
    pub fn bird_texture(&self, atlas: &Atlas) -> (r: UvInfo)
        ensures
            r == atlas.spec_frames().spec_frame(BirdFlyState::spec_frame(self.spec_bird().spec_index())).spec_to_uv(),
    {
        self.bird_fly_state.get_texture_state(atlas)
    }
}

} // verus!
