use flappy_bird::game::button::Button;
use flappy_bird::game::main_menu::{click_action, MenuAction};
use flappy_bird::game::pipes::Pipes;
use flappy_bird::game::playing::{BirdFlyState, FrameEnd, FrameStart, RoundClock, END_DELAY_NANOS};
use flappy_bird::game::scene::NextScene;
use flappy_bird::graphics::renderer::atlas::{Atlas, AtlasFields, AtlasFrame, FrameInfo, TexelPos};

const MS: u64 = 1_000_000;

#[test]
fn pipes_recycle_oldest_first() {
    let mut pipes = Pipes::new(vec![10, 20, 30, 40]);
    assert_eq!(*pipes.oldest(), 10);
    assert_eq!(*pipes.previous(), 40);
    pipes.recycle(50);
    assert_eq!(pipes.get_pipes(), &vec![50, 20, 30, 40]);
    assert_eq!(*pipes.oldest(), 20);
    assert_eq!(*pipes.previous(), 50);
    for v in [60, 70, 80] {
        pipes.recycle(v);
    }
    assert_eq!(pipes.get_pipes(), &vec![50, 60, 70, 80]);
    assert_eq!(*pipes.oldest(), 50);
    assert_eq!(*pipes.previous(), 80);
    pipes.recycle(90);
    assert_eq!(*pipes.oldest(), 60);
    assert_eq!(*pipes.previous(), 90);
}

#[test]
fn previous_is_newest_for_any_ring_size() {
    let mut pipes = Pipes::new(vec![1, 2, 3]);
    assert_eq!(*pipes.previous(), 3);
    pipes.recycle(4);
    assert_eq!(*pipes.oldest(), 2);
    assert_eq!(*pipes.previous(), 4);
    pipes.recycle(5);
    pipes.recycle(6);
    assert_eq!(pipes.get_pipes(), &vec![4, 5, 6]);
    assert_eq!(*pipes.oldest(), 4);
    assert_eq!(*pipes.previous(), 6);
    let mut five = Pipes::new(vec![10, 20, 30, 40, 50]);
    assert_eq!(*five.previous(), 50);
    five.recycle(60);
    assert_eq!(*five.previous(), 60);
    let single = Pipes::new(vec![7]);
    assert_eq!(*single.previous(), 7);
    assert_eq!(*single.oldest(), 7);
}

#[test]
fn button_reports_each_entry_once() {
    let mut b = Button::new();
    assert!(!b.is_mouse_inside());
    assert!(!b.did_mouse_enter());
    b.update(true);
    assert!(b.is_mouse_inside());
    assert!(b.did_mouse_enter());
    assert!(!b.did_mouse_enter());
    b.update(true);
    assert!(!b.did_mouse_enter());
    b.update(false);
    assert!(!b.is_mouse_inside());
    assert!(!b.did_mouse_enter());
    b.update(true);
    assert!(b.did_mouse_enter());
}

#[test]
fn unreported_entry_survives_staying_inside() {
    let mut b = Button::new();
    b.update(true);
    b.update(true);
    assert!(b.did_mouse_enter());
}

#[test]
fn menu_clicks() {
    let mut play = Button::new();
    let mut quit = Button::new();
    assert_eq!(click_action(&play, &quit), MenuAction::Nothing);
    quit.update(true);
    assert_eq!(click_action(&play, &quit), MenuAction::Quit);
    play.update(true);
    assert_eq!(click_action(&play, &quit), MenuAction::StartGame);
    quit.update(false);
    assert_eq!(click_action(&play, &quit), MenuAction::StartGame);
}

fn atlas() -> Atlas {
    let f = |x: u16| FrameInfo { x, y: 0, width: 10, height: 8 };
    Atlas::from_frames(AtlasFields {
        bird1: f(0),
        bird2: f(10),
        bird3: f(20),
        bird4: f(30),
        button: f(40),
        cano: f(50),
        hover_button: f(60),
        scene: f(70),
        top_cano: f(80),
    })
}

#[test]
fn bird_flaps_after_a_jump() {
    let mut bird = BirdFlyState::new(0);
    assert_eq!(bird.texture_frame(), AtlasFrame::Bird1);
    bird.update(10_000 * MS);
    assert_eq!(bird.texture_frame(), AtlasFrame::Bird1);
    bird.on_jump(1_000 * MS);
    assert_eq!(bird.texture_frame(), AtlasFrame::Bird2);
    bird.update(1_100 * MS);
    assert_eq!(bird.texture_frame(), AtlasFrame::Bird2);
    bird.update(1_100 * MS + 999_999);
    assert_eq!(bird.texture_frame(), AtlasFrame::Bird2);
    bird.update(1_101 * MS);
    assert_eq!(bird.texture_frame(), AtlasFrame::Bird3);
    bird.update(1_202 * MS);
    assert_eq!(bird.texture_frame(), AtlasFrame::Bird4);
    bird.update(1_303 * MS);
    assert_eq!(bird.texture_frame(), AtlasFrame::Bird2);
    bird.update(1_404 * MS);
    assert_eq!(bird.texture_frame(), AtlasFrame::Bird1);
    bird.update(9_999 * MS);
    assert_eq!(bird.texture_frame(), AtlasFrame::Bird1);
    let uv = bird.get_texture_state(&atlas());
    assert_eq!((uv.min, uv.max), (TexelPos { x: 0, y: 0 }, TexelPos { x: 10, y: 8 }));
}

#[test]
fn bird_clock_going_back_does_not_flap() {
    let mut bird = BirdFlyState::new(0);
    bird.on_jump(5_000 * MS);
    bird.update(1_000 * MS);
    assert_eq!(bird.texture_frame(), AtlasFrame::Bird2);
}

#[test]
fn round_ends_three_seconds_after_a_crash() {
    let mut round = RoundClock::new(0);
    assert!(round.accepts_input());
    assert_eq!(round.begin_frame(16 * MS), FrameStart::Play);
    assert_eq!(round.finish_frame(16 * MS, false), FrameEnd { crashed: false, elapsed_nanos: 16 * MS });
    assert!(round.jump(20 * MS));
    let uv = round.bird_texture(&atlas());
    assert_eq!(uv.min, TexelPos { x: 10, y: 0 });
    assert_eq!(round.finish_frame(32 * MS, true), FrameEnd { crashed: true, elapsed_nanos: 16 * MS });
    assert!(!round.accepts_input());
    assert!(!round.jump(40 * MS));
    assert_eq!(round.begin_frame(40 * MS), FrameStart::Hold);
    assert_eq!(round.begin_frame(32 * MS + END_DELAY_NANOS), FrameStart::Hold);
    assert_eq!(round.begin_frame(32 * MS + END_DELAY_NANOS + 1), FrameStart::Leave(NextScene::MainMenu));
}

#[test]
fn frame_time_going_back_counts_as_zero() {
    let mut round = RoundClock::new(100 * MS);
    assert_eq!(round.finish_frame(50 * MS, false).elapsed_nanos, 0);
    assert_eq!(round.finish_frame(60 * MS, false).elapsed_nanos, 10 * MS);
}
