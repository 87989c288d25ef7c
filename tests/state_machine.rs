use scarab_engine::error::AnimationError;
use scarab_engine::geometry::{Axis, Point, Size};
use scarab_engine::sprite::{SpriteAnimation, SpriteView};
use scarab_engine::states::{AnimationStateMachine, AnimationStates, StaticAnimation};

#[derive(Debug, PartialEq, Eq, Clone, Copy)]
enum Mood {
    Idle,
    Walk,
    Run,
}

impl AnimationStates for Mood {
    type Viewed = u32;

    fn next_state(&self, speed: &u32) -> Option<Self> {
        if *speed > 10 {
            Some(Mood::Run)
        } else if *speed > 0 {
            Some(Mood::Walk)
        } else {
            None
        }
    }

    fn same_state(&self, other: &Self) -> bool {
        self == other
    }

    fn describe(&self) -> String {
        format!("{:?}", self)
    }
}

fn strip(path: &str) -> SpriteAnimation {
    SpriteAnimation::new(
        Point { x: 0, y: 0 },
        Size { w: 20, h: 16 },
        path.to_string(),
        100,
        Axis::X,
        None,
        Some((64, 32)),
        0,
    )
    .unwrap()
}

fn machine() -> AnimationStateMachine<Mood> {
    AnimationStateMachine::new(
        Mood::Idle,
        vec![(Mood::Idle, strip("idle.png")), (Mood::Walk, strip("walk.png"))],
    )
    .unwrap()
}

#[test]
fn new_requires_animation_for_initial_state() {
    let r = AnimationStateMachine::new(Mood::Run, vec![(Mood::Idle, strip("idle.png"))]);
    match r {
        Err(e) => assert_eq!(e, AnimationError::NoAnimationForState("Run".to_string())),
        Ok(_) => panic!("expected an error"),
    }
}

#[test]
fn later_entry_replaces_earlier() {
    let m = AnimationStateMachine::new(
        Mood::Idle,
        vec![(Mood::Idle, strip("a.png")), (Mood::Idle, strip("b.png"))],
    )
    .unwrap();
    let d = m.animation(&Mood::Idle).unwrap().to_record();
    assert_eq!(d.texture_path, "b.png");
}

#[test]
fn set_current_state_to_unmapped_fails_and_keeps_state() {
    let mut m = machine();
    let r = m.set_current_state(Mood::Run, 10);
    assert_eq!(r, Err(AnimationError::NoAnimationForState("Run".to_string())));
    assert_eq!(*m.current_state(), Mood::Idle);
}

#[test]
fn set_current_state_to_mapped_resets_its_animation() {
    let mut m = machine();
    m.set_current_state(Mood::Walk, 0).unwrap();
    m.render(&0, 200, true);
    assert_eq!(m.animation(&Mood::Walk).unwrap().frame_index(), 2);
    m.set_current_state(Mood::Idle, 300).unwrap();
    m.set_current_state(Mood::Walk, 300).unwrap();
    assert_eq!(*m.current_state(), Mood::Walk);
    assert_eq!(m.animation(&Mood::Walk).unwrap().frame_index(), 0);
}

#[test]
fn render_to_unmapped_state_keeps_state_and_draws() {
    let mut m = machine();
    // speed 20 asks for Run, which has no animation
    let out = m.render(&20, 100, true);
    assert_eq!(*m.current_state(), Mood::Idle);
    assert_eq!(
        out.transition_error,
        Some(AnimationError::NoAnimationForState("Run".to_string()))
    );
    let d = out.draw.unwrap();
    assert_eq!(d.texture_path, "idle.png");
    assert_eq!(m.animation(&Mood::Idle).unwrap().frame_index(), 1);
    assert_eq!((d.src_x, d.src_y), (20, 0));
}

#[test]
fn render_follows_policy_to_mapped_state() {
    let mut m = machine();
    let out = m.render(&5, 250, true);
    assert_eq!(*m.current_state(), Mood::Walk);
    assert_eq!(out.transition_error, None);
    let d = out.draw.unwrap();
    assert_eq!(d.texture_path, "walk.png");
    // reset at 250, so no frame has elapsed yet
    assert_eq!(m.animation(&Mood::Walk).unwrap().frame_index(), 0);
}

#[test]
fn render_off_screen_draws_nothing() {
    let mut m = machine();
    let out = m.render(&0, 100, false);
    assert!(out.draw.is_none());
    assert!(out.transition_error.is_none());
}

#[test]
fn set_state_animation_adds_and_replaces() {
    let mut m = machine();
    m.set_state_animation(Mood::Run, strip("run.png"));
    m.set_current_state(Mood::Run, 0).unwrap();
    assert_eq!(*m.current_state(), Mood::Run);
    m.set_state_animation(Mood::Idle, strip("idle2.png"));
    assert_eq!(m.animation(&Mood::Idle).unwrap().to_record().texture_path, "idle2.png");
}

#[test]
fn static_machine_always_plays_its_animation() {
    let view = SpriteView::new(Point { x: 1, y: 2 }, Size { w: 4, h: 4 }, "s.png".to_string())
        .unwrap();
    let mut m: AnimationStateMachine<StaticAnimation<u32>> =
        AnimationStateMachine::static_animation(SpriteAnimation::new_static_frame(view, 0));
    for t in [0u64, 1000, 99_000] {
        let out = m.render(&7, t, true);
        assert!(out.transition_error.is_none());
        let d = out.draw.unwrap();
        assert_eq!(d.texture_path, "s.png");
        assert_eq!((d.src_x, d.src_y), (0, 0));
    }
    assert_eq!(m.current_state().describe(), "StaticAnimation");
}

#[test]
fn static_policy_never_asks_for_change() {
    let s: StaticAnimation<u32> = StaticAnimation::default();
    for v in [0u32, 5, 1000] {
        assert!(s.next_state(&v).is_none());
    }
    assert!(s.same_state(&StaticAnimation::default()));
}
