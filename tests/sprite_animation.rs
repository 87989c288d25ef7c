use scarab_engine::error::{AnimationError, RenderError};
use scarab_engine::geometry::{Axis, Point, Size};
use scarab_engine::sprite::{SpriteAnimation, SpriteView};

fn origin() -> Point {
    Point { x: 0, y: 0 }
}

fn strip(hint: Option<usize>, now: u64) -> Result<SpriteAnimation, RenderError> {
    SpriteAnimation::new(
        origin(),
        Size { w: 20, h: 16 },
        "sheet.png".to_string(),
        100,
        Axis::X,
        hint,
        Some((64, 32)),
        now,
    )
}

#[test]
fn too_many_frames_carries_both_counts() {
    let r = strip(Some(5), 0);
    assert_eq!(
        r.err(),
        Some(RenderError::AnimationError(AnimationError::TooManyFrames(5, 3)))
    );
}

#[test]
fn no_hint_infers_frame_count() {
    let a = strip(None, 0).unwrap();
    assert_eq!(a.frame_count(), 3);
    assert_eq!(a.frame_index(), 0);
    assert_eq!(a.cursor(), (0, 0));
}

#[test]
fn hint_up_to_capacity_is_kept() {
    assert_eq!(strip(Some(2), 0).unwrap().frame_count(), 2);
    assert_eq!(strip(Some(3), 0).unwrap().frame_count(), 3);
}

#[test]
fn vertical_axis_counts_along_height() {
    let a = SpriteAnimation::new(
        origin(),
        Size { w: 20, h: 10 },
        "sheet.png".to_string(),
        50,
        Axis::Y,
        None,
        Some((64, 35)),
        0,
    )
    .unwrap();
    assert_eq!(a.frame_count(), 3);
}

#[test]
fn missing_texture_is_reported() {
    let r = SpriteAnimation::new(
        origin(),
        Size { w: 20, h: 16 },
        "missing.png".to_string(),
        100,
        Axis::X,
        None,
        None,
        0,
    );
    assert_eq!(
        r.err(),
        Some(RenderError::TextureNotLoaded("missing.png".to_string()))
    );
}

#[test]
fn render_advances_by_elapsed_frames_with_wraparound() {
    let mut a = strip(None, 0).unwrap();
    // 7 whole frames of 100 ms: (0 + 7) mod 3 = 1
    let d = a.render(700, true).unwrap();
    assert_eq!(a.frame_index(), 1);
    assert_eq!(a.cursor(), (20, 0));
    assert_eq!((d.src_x, d.src_y), (20, 0));
    // under one frame later: nothing moves
    a.render(750, true);
    assert_eq!(a.frame_index(), 1);
    // measured from the last update at 700: 3 frames, (1 + 3) mod 3 = 1
    a.render(1000, true);
    assert_eq!(a.frame_index(), 1);
    a.render(1100, true);
    assert_eq!(a.frame_index(), 2);
    assert_eq!(a.cursor(), (40, 0));
}

#[test]
fn advancing_by_k_equals_advancing_by_k_mod_f() {
    let mut a = strip(None, 0).unwrap();
    let mut b = strip(None, 0).unwrap();
    a.render(1100, true); // 11 frames
    b.render(200, true); // 11 mod 3 = 2 frames
    assert_eq!(a.frame_index(), b.frame_index());
    assert_eq!(a.frame_index(), 2);
}

#[test]
fn render_vertical_moves_cursor_along_y() {
    let mut a = SpriteAnimation::new(
        origin(),
        Size { w: 20, h: 10 },
        "sheet.png".to_string(),
        50,
        Axis::Y,
        None,
        Some((64, 35)),
        0,
    )
    .unwrap();
    a.render(100, true);
    assert_eq!(a.frame_index(), 2);
    assert_eq!(a.cursor(), (0, 20));
}

#[test]
fn reset_returns_to_frame_zero() {
    let mut a = strip(None, 0).unwrap();
    a.render(200, true);
    assert_eq!(a.frame_index(), 2);
    a.reset(250);
    assert_eq!(a.frame_index(), 0);
    a.reset(250);
    assert_eq!(a.frame_index(), 0);
    // timing restarts from the reset
    a.render(340, true);
    assert_eq!(a.frame_index(), 0);
    a.render(350, true);
    assert_eq!(a.frame_index(), 1);
}

#[test]
fn static_frame_never_moves() {
    let view = SpriteView::new(Point { x: 3, y: -4 }, Size { w: 8, h: 8 }, "s.png".to_string())
        .unwrap();
    let mut a = SpriteAnimation::new_static_frame(view, 0);
    assert_eq!(a.frame_count(), 0);
    for t in [1000u64, 5000, 1_000_000] {
        let d = a.render(t, true).unwrap();
        assert_eq!(a.frame_index(), 0);
        assert_eq!(a.cursor(), (0, 0));
        assert_eq!(d.pos, Point { x: 3, y: -4 });
    }
}

#[test]
fn off_screen_render_draws_nothing() {
    let mut a = strip(None, 0).unwrap();
    assert_eq!(a.render(100, false), None);
    // the animation still advanced
    assert_eq!(a.frame_index(), 1);
    let view = SpriteView::new(origin(), Size { w: 8, h: 8 }, "s.png".to_string()).unwrap();
    assert_eq!(view.render(false), None);
}

#[test]
fn on_screen_render_draws_the_current_region() {
    let view = SpriteView::new(Point { x: 5, y: 6 }, Size { w: 8, h: 9 }, "s.png".to_string())
        .unwrap();
    let d = view.render(true).unwrap();
    assert_eq!(d.pos, Point { x: 5, y: 6 });
    assert_eq!(d.size, Size { w: 8, h: 9 });
    assert_eq!((d.src_x, d.src_y), (0, 0));
    assert_eq!(d.texture_path, "s.png");
}

#[test]
fn record_round_trip_refreshes_timestamp() {
    let mut a = strip(Some(2), 0).unwrap();
    a.render(100, true);
    let rec = a.to_record();
    assert_eq!(rec.frames_in_sprite_map, 2);
    assert_eq!(rec.frame_num, 1);
    assert_eq!(rec.milliseconds_per_frame, 100);
    assert_eq!(rec.animation_direction, Axis::X);
    assert_eq!(rec.sprite_size, Size { w: 20, h: 16 });
    assert_eq!(rec.texture_path, "sheet.png");
    let mut b = SpriteAnimation::from_record(rec.clone(), 5000).unwrap();
    assert_eq!(b.to_record(), rec);
    // last update is the restore time, not the persisted one
    b.render(5050, true);
    assert_eq!(b.frame_index(), 1);
    b.render(5100, true);
    assert_eq!(b.frame_index(), 0);
}

#[test]
fn invalid_record_is_refused() {
    let mut rec = strip(None, 0).unwrap().to_record();
    rec.frame_num = 3;
    assert!(SpriteAnimation::from_record(rec.clone(), 0).is_none());
    rec.frame_num = 0;
    rec.milliseconds_per_frame = 0;
    assert!(SpriteAnimation::from_record(rec, 0).is_none());
}

#[test]
fn animation_error_converts_into_render_error() {
    let e = RenderError::from(AnimationError::NoAnimationForState("Idle".to_string()));
    assert_eq!(
        e,
        RenderError::AnimationError(AnimationError::NoAnimationForState("Idle".to_string()))
    );
}

#[test]
fn missing_texture_reported_before_frame_size_is_used() {
    let r = SpriteAnimation::new(
        origin(),
        Size { w: 0, h: 0 },
        "missing.png".to_string(),
        100,
        Axis::X,
        Some(2),
        None,
        0,
    );
    assert_eq!(
        r.err(),
        Some(RenderError::TextureNotLoaded("missing.png".to_string()))
    );
}
