use vstd::arithmetic::div_mod::{lemma_add_mod_noop, lemma_mod_twice, lemma_small_mod};
use vstd::prelude::*;

use crate::error::{AnimationError, RenderError};
use crate::geometry::{Axis, Point, Size};

verus! {

/// One draw call: the region of the sheet at `texture_path` with origin
/// `(src_x, src_y)` and size `size`, drawn at world position `pos`.
#[derive(Clone, Debug, PartialEq, Eq)]
pub struct SpriteDraw {
    pub pos: Point,
    pub size: Size,
    pub src_x: u64,
    pub src_y: u64,
    pub texture_path: String,
}

/// A view displaying one fixed-size region of a sprite sheet at a position.
/// Should generally be used wrapped by a [SpriteAnimation].
#[derive(Clone, Debug)]
pub struct SpriteView {
    pos: Point,
    sprite_size: Size,
    src_x: u64,
    src_y: u64,
    texture_path: String,
}

impl SpriteView {
    pub closed spec fn spec_pos(&self) -> Point {
        self.pos
    }

    pub closed spec fn spec_size(&self) -> Size {
        self.sprite_size
    }

    /// The origin of the region of the sheet currently displayed.
    pub closed spec fn spec_cursor(&self) -> (u64, u64) {
        (self.src_x, self.src_y)
    }

    pub open spec fn spec_texture_path(&self) -> Seq<char> {
        self.texture_path_string()@
    }

    /// Creates a view of the sheet at `texture_path`, showing the region of
    /// size `sprite_size` at the sheet's origin, drawn at `pos`.
    pub fn new(pos: Point, sprite_size: Size, texture_path: String) -> (r: Result<Self, RenderError>)
        ensures
            r is Ok,
            r matches Ok(v) ==> v.spec_pos() == pos && v.spec_size() == sprite_size
                && v.spec_cursor() == (0u64, 0u64) && v.spec_texture_path() == texture_path@,
    {
        Ok(SpriteView { pos, sprite_size, src_x: 0, src_y: 0, texture_path })
    }

    /// Moves the origin of the displayed region; the region keeps its size.
    fn set_src_rect_pos(&mut self, x: u64, y: u64)
        ensures
            *final(self) == (SpriteView { src_x: x, src_y: y, ..*old(self) }),
    {
        self.src_x = x;
        self.src_y = y;
    }

    /// The draw call for this view: none when the camera reports the viewed
    /// entity off-screen.
    pub open spec fn draw_spec(&self, on_screen: bool) -> Option<SpriteDraw> {
        if on_screen {
            Some(SpriteDraw {
                pos: self.spec_pos(),
                size: self.spec_size(),
                src_x: self.spec_cursor().0,
                src_y: self.spec_cursor().1,
                texture_path: self.texture_path_string(),
            })
        } else {
            None
        }
    }

    pub closed spec fn texture_path_string(&self) -> String {
        self.texture_path
    }

    /// Renders the view. `on_screen` is whether the camera projects the viewed
    /// entity's bounding box into view.
    pub fn render(&self, on_screen: bool) -> (r: Option<SpriteDraw>)
        ensures
            r == self.draw_spec(on_screen),
    {
        if on_screen {
            Some(SpriteDraw {
                pos: self.pos,
                size: self.sprite_size,
                src_x: self.src_x,
                src_y: self.src_y,
                texture_path: self.texture_path.clone(),
            })
        } else {
            None
        }
    }
}

/// The number of frames that a sheet of `sheet` pixels (width, height) holds
/// along `axis`, for cells of `size`.
pub open spec fn max_frames(axis: Axis, sheet: (u32, u32), size: Size) -> nat {
    match axis {
        Axis::X => sheet.0 as nat / size.w as nat,
        Axis::Y => sheet.1 as nat / size.h as nat,
    }
}

/// Whole frames of `ms_per_frame` milliseconds from `last` to `now`; none when
/// `now` is not after `last`.
pub open spec fn elapsed_frames(last: u64, now: u64, ms_per_frame: u64) -> nat {
    if now > last && ms_per_frame > 0 {
        (now - last) as nat / ms_per_frame as nat
    } else {
        0
    }
}

/// The sheet origin of frame `index`, counted along `axis`.
pub open spec fn cursor_for(axis: Axis, size: Size, index: nat) -> (u64, u64) {
    match axis {
        Axis::X => ((index * size.w) as u64, 0u64),
        Axis::Y => (0u64, (index * size.h) as u64),
    }
}

/// The frame index reached from `i` after `k` single-frame steps in a strip
/// of `f` frames.
pub open spec fn step_frames(i: nat, k: nat, f: nat) -> nat
    decreases k,
{
    if k == 0 {
        i
    } else {
        step_frames((i + 1) % f, (k - 1) as nat, f)
    }
}

/// An animation across a single sprite sheet: a [SpriteView] whose displayed
/// region walks along one axis of the sheet as time passes.
/// Should generally be used wrapped by an `AnimationStateMachine`.
#[derive(Clone, Debug)]
pub struct SpriteAnimation {
    /// The sheet view that this animation moves.
    sprite: SpriteView,
    /// The number of frames in the sheet; zero for an animation that never advances.
    frames_in_sprite_map: usize,
    /// The current frame number.
    frame_num: usize,
    /// Milliseconds that each frame is shown.
    milliseconds_per_frame: u64,
    /// The axis of the sheet along which the frames are laid out.
    animation_direction: Axis,
    /// The clock reading, in milliseconds, at which the frame was last set.
    last_update: u64,
}

impl SpriteAnimation {
    pub closed spec fn spec_view(&self) -> SpriteView {
        self.sprite
    }

    pub closed spec fn spec_frame_count(&self) -> nat {
        self.frames_in_sprite_map as nat
    }

    pub closed spec fn spec_frame_index(&self) -> nat {
        self.frame_num as nat
    }

    pub closed spec fn spec_ms_per_frame(&self) -> u64 {
        self.milliseconds_per_frame
    }

    pub closed spec fn spec_axis(&self) -> Axis {
        self.animation_direction
    }

    pub closed spec fn spec_last_update(&self) -> u64 {
        self.last_update
    }

    /// The animation is well formed: the frame index lies in the strip, and the
    /// frame duration is positive.
    pub open spec fn wf(&self) -> bool {
        &&& self.spec_ms_per_frame() > 0
        &&& self.spec_frame_count() <= u32::MAX
        &&& (self.spec_frame_count() > 0 ==> self.spec_frame_index() < self.spec_frame_count())
        &&& (self.spec_frame_count() == 0 ==> self.spec_frame_index() == 0)
    }

    /// The animation after a reset at clock reading `now`.
    pub closed spec fn reset_spec(self, now: u64) -> SpriteAnimation {
        SpriteAnimation { frame_num: 0, last_update: now, ..self }
    }

    /// The animation after a render at clock reading `now`: it moves on by the
    /// whole frames elapsed since its last update, wrapping round the strip,
    /// and shows the region of the new frame. An animation without frames, or
    /// one for which no whole frame has elapsed, stays as it is.
    pub closed spec fn after_render(self, now: u64) -> SpriteAnimation {
        let k = elapsed_frames(self.last_update, now, self.milliseconds_per_frame);
        let f = self.frames_in_sprite_map as nat;
        if k > 0 && f > 0 {
            let next = (self.frame_num as nat + k) % f;
            let c = cursor_for(self.animation_direction, self.sprite.sprite_size, next);
            SpriteAnimation {
                sprite: SpriteView { src_x: c.0, src_y: c.1, ..self.sprite },
                frame_num: next as usize,
                last_update: now,
                ..self
            }
        } else {
            self
        }
    }

    /// Creates an animation over the sheet at `texture_path`, whose pixel
    /// dimensions the texture registry gives as `sheet_size` (`None` when the
    /// texture is not loaded). With `frames_in_sprite_map` of `None` the frame
    /// count is what the sheet holds along `animation_direction`; a count larger
    /// than that is refused. `now` is the clock reading in milliseconds.
    pub fn new(
        pos: Point,
        sprite_size: Size,
        texture_path: String,
        milliseconds_per_frame: u64,
        animation_direction: Axis,
        frames_in_sprite_map: Option<usize>,
        sheet_size: Option<(u32, u32)>,
        now: u64,
    ) -> (r: Result<Self, RenderError>)
        requires
            sheet_size is Some ==> sprite_size.along(animation_direction) > 0,
            milliseconds_per_frame > 0,
        ensures
            sheet_size is None ==> (r matches Err(RenderError::TextureNotLoaded(p))
                && p@ == texture_path@),
            sheet_size matches Some(sheet) ==> {
                let max = max_frames(animation_direction, sheet, sprite_size);
                match frames_in_sprite_map {
                    Some(n) if n > max => r == Err::<Self, RenderError>(
                        RenderError::AnimationError(AnimationError::TooManyFrames(n, max as usize)),
                    ),
                    _ => r matches Ok(a) && a.wf() && a.spec_frame_count() == (match frames_in_sprite_map {
                        Some(n) => n as nat,
                        None => max,
                    }) && a.spec_frame_index() == 0 && a.spec_ms_per_frame() == milliseconds_per_frame
                        && a.spec_axis() == animation_direction && a.spec_last_update() == now
                        && a.spec_view().spec_pos() == pos && a.spec_view().spec_size() == sprite_size
                        && a.spec_view().spec_cursor() == (0u64, 0u64)
                        && a.spec_view().spec_texture_path() == texture_path@,
                }
            },
    {
        let sprite = match SpriteView::new(pos, sprite_size, texture_path) {
            Ok(v) => v,
            Err(e) => return Err(e),
        };
        let map_size = match sheet_size {
            Some(s) => s,
            None => return Err(RenderError::TextureNotLoaded(sprite.texture_path)),
        };
        let max_num_frames: u32 = match animation_direction {
            Axis::X => map_size.0 / sprite_size.w,
            Axis::Y => map_size.1 / sprite_size.h,
        };
        let frames: usize = match frames_in_sprite_map {
            Some(n) => {
                if n > max_num_frames as usize {
                    return Err(
                        RenderError::from(AnimationError::TooManyFrames(n, max_num_frames as usize)),
                    );
                }
                n
            },
            None => max_num_frames as usize,
        };
        Ok(SpriteAnimation {
            sprite,
            frames_in_sprite_map: frames,
            frame_num: 0,
            milliseconds_per_frame,
            animation_direction,
            last_update: now,
        })
    }

    /// Creates an animation that only ever shows the one region of `sprite`.
    pub fn new_static_frame(sprite: SpriteView, now: u64) -> (r: Self)
        ensures
            r.wf(),
            r.spec_view() == sprite,
            r.spec_frame_count() == 0,
            r.spec_frame_index() == 0,
            r.spec_ms_per_frame() == 1000,
            r.spec_axis() == Axis::X,
            r.spec_last_update() == now,
    {
        SpriteAnimation {
            sprite,
            frames_in_sprite_map: 0,
            frame_num: 0,
            milliseconds_per_frame: 1000,
            animation_direction: Axis::X,
            last_update: now,
        }
    }

    /// Prepares the animation to be started again at clock reading `now`.
    pub fn reset(&mut self, now: u64)
        requires
            old(self).wf(),
        ensures
            *final(self) == old(self).reset_spec(now),
            final(self).wf(),
            final(self).spec_frame_index() == 0,
            final(self).spec_last_update() == now,
            final(self).spec_frame_count() == old(self).spec_frame_count(),
            final(self).spec_ms_per_frame() == old(self).spec_ms_per_frame(),
            final(self).spec_axis() == old(self).spec_axis(),
            final(self).spec_view() == old(self).spec_view(),
    {
        self.frame_num = 0;
        self.last_update = now;
    }

    /// Advances the animation to clock reading `now` (see `after_render`) and
    /// renders its current region. `on_screen` is whether the camera projects
    /// the viewed entity into view.
    pub fn render(&mut self, now: u64, on_screen: bool) -> (r: Option<SpriteDraw>)
        requires
            old(self).wf(),
        ensures
            *final(self) == old(self).after_render(now),
            final(self).wf(),
            r == final(self).spec_view().draw_spec(on_screen),
            final(self).spec_frame_count() == old(self).spec_frame_count(),
            final(self).spec_ms_per_frame() == old(self).spec_ms_per_frame(),
            final(self).spec_axis() == old(self).spec_axis(),
            final(self).spec_view().spec_pos() == old(self).spec_view().spec_pos(),
            final(self).spec_view().spec_size() == old(self).spec_view().spec_size(),
            final(self).spec_view().spec_texture_path() == old(self).spec_view().spec_texture_path(),
            ({
                let k = elapsed_frames(old(self).spec_last_update(), now, old(self).spec_ms_per_frame());
                let f = old(self).spec_frame_count();
                if k > 0 && f > 0 {
                    &&& final(self).spec_frame_index() == (old(self).spec_frame_index() + k) % f
                    &&& final(self).spec_last_update() == now
                    &&& final(self).spec_view().spec_cursor() == cursor_for(
                        old(self).spec_axis(),
                        old(self).spec_view().spec_size(),
                        final(self).spec_frame_index(),
                    )
                } else {
                    *final(self) == *old(self)
                }
            }),
    {
        let elapsed: u64 = if now > self.last_update {
            (now - self.last_update) / self.milliseconds_per_frame
        } else {
            0
        };
        if elapsed > 0 && self.frames_in_sprite_map > 0 {
            let f: u64 = self.frames_in_sprite_map as u64;
            let i: u64 = self.frame_num as u64;
            let next: u64 = (i + elapsed % f) % f;
            proof {
                lemma_small_mod(i as nat, f as nat);
                lemma_add_mod_noop(i as int, elapsed as int, f as int);
                assert(next == (i + elapsed) % (f as int));
            }
            self.frame_num = next as usize;
            self.last_update = now;
            let extent: u32 = self.sprite.sprite_size.extent_along(self.animation_direction);
            proof {
                assert(next * extent <= u32::MAX * u32::MAX) by (nonlinear_arith)
                    requires
                        next < f,
                        f <= u32::MAX,
                        extent <= u32::MAX,
                ;
            }
            let offset: u64 = next * (extent as u64);
            match self.animation_direction {
                Axis::X => self.sprite.set_src_rect_pos(offset, 0),
                Axis::Y => self.sprite.set_src_rect_pos(0, offset),
            }
        }
        self.sprite.render(on_screen)
    }

    /// The number of frames in the strip; zero for a static animation.
    pub fn frame_count(&self) -> (r: usize)
        ensures
            r == self.spec_frame_count(),
    {
        self.frames_in_sprite_map
    }

    /// The index of the frame currently shown.
    pub fn frame_index(&self) -> (r: usize)
        ensures
            r == self.spec_frame_index(),
    {
        self.frame_num
    }

    /// The origin of the region of the sheet currently shown.
    pub fn cursor(&self) -> (r: (u64, u64))
        ensures
            r == self.spec_view().spec_cursor(),
    {
        (self.sprite.src_x, self.sprite.src_y)
    }
}

/// The persisted form of a [SpriteAnimation]: everything but the time of its
/// last update, which a restored animation takes afresh.
#[derive(Clone, Debug, PartialEq, Eq)]
pub struct SpriteAnimationRecord {
    pub pos: Point,
    pub sprite_size: Size,
    pub src_x: u64,
    pub src_y: u64,
    pub texture_path: String,
    pub frames_in_sprite_map: usize,
    pub frame_num: usize,
    pub milliseconds_per_frame: u64,
    pub animation_direction: Axis,
}

/// A record describes a well-formed animation.
pub open spec fn record_valid(rec: SpriteAnimationRecord) -> bool {
    &&& rec.milliseconds_per_frame > 0
    &&& rec.frames_in_sprite_map <= u32::MAX
    &&& (rec.frames_in_sprite_map > 0 ==> rec.frame_num < rec.frames_in_sprite_map)
    &&& (rec.frames_in_sprite_map == 0 ==> rec.frame_num == 0)
}

impl SpriteAnimation {
    pub closed spec fn record_spec(self) -> SpriteAnimationRecord {
        SpriteAnimationRecord {
            pos: self.sprite.pos,
            sprite_size: self.sprite.sprite_size,
            src_x: self.sprite.src_x,
            src_y: self.sprite.src_y,
            texture_path: self.sprite.texture_path,
            frames_in_sprite_map: self.frames_in_sprite_map,
            frame_num: self.frame_num,
            milliseconds_per_frame: self.milliseconds_per_frame,
            animation_direction: self.animation_direction,
        }
    }

    /// The animation that a valid record restores at clock reading `now`.
    pub closed spec fn restored(rec: SpriteAnimationRecord, now: u64) -> SpriteAnimation {
        SpriteAnimation {
            sprite: SpriteView {
                pos: rec.pos,
                sprite_size: rec.sprite_size,
                src_x: rec.src_x,
                src_y: rec.src_y,
                texture_path: rec.texture_path,
            },
            frames_in_sprite_map: rec.frames_in_sprite_map,
            frame_num: rec.frame_num,
            milliseconds_per_frame: rec.milliseconds_per_frame,
            animation_direction: rec.animation_direction,
            last_update: now,
        }
    }

    /// The persisted form of the animation.
    pub fn to_record(&self) -> (r: SpriteAnimationRecord)
        ensures
            r.pos == self.record_spec().pos,
            r.sprite_size == self.record_spec().sprite_size,
            r.src_x == self.record_spec().src_x,
            r.src_y == self.record_spec().src_y,
            r.texture_path@ == self.record_spec().texture_path@,
            r.frames_in_sprite_map == self.record_spec().frames_in_sprite_map,
            r.frame_num == self.record_spec().frame_num,
            r.milliseconds_per_frame == self.record_spec().milliseconds_per_frame,
            r.animation_direction == self.record_spec().animation_direction,
    {
        SpriteAnimationRecord {
            pos: self.sprite.pos,
            sprite_size: self.sprite.sprite_size,
            src_x: self.sprite.src_x,
            src_y: self.sprite.src_y,
            texture_path: self.sprite.texture_path.clone(),
            frames_in_sprite_map: self.frames_in_sprite_map,
            frame_num: self.frame_num,
            milliseconds_per_frame: self.milliseconds_per_frame,
            animation_direction: self.animation_direction,
        }
    }

    /// Restores an animation from its persisted form at clock reading `now`;
    /// `None` when the record does not describe a well-formed animation.
    pub fn from_record(rec: SpriteAnimationRecord, now: u64) -> (r: Option<Self>)
        ensures
            r is Some <==> record_valid(rec),
            r matches Some(a) ==> a == SpriteAnimation::restored(rec, now) && a.wf(),
    {
        let ok = rec.milliseconds_per_frame > 0 && rec.frames_in_sprite_map as u64 <= 0xffff_ffffu64
            && (if rec.frames_in_sprite_map > 0 {
            rec.frame_num < rec.frames_in_sprite_map
        } else {
            rec.frame_num == 0
        });
        if !ok {
            return None;
        }
        Some(
            SpriteAnimation {
                sprite: SpriteView {
                    pos: rec.pos,
                    sprite_size: rec.sprite_size,
                    src_x: rec.src_x,
                    src_y: rec.src_y,
                    texture_path: rec.texture_path,
                },
                frames_in_sprite_map: rec.frames_in_sprite_map,
                frame_num: rec.frame_num,
                milliseconds_per_frame: rec.milliseconds_per_frame,
                animation_direction: rec.animation_direction,
                last_update: now,
            },
        )
    }
}

/// Persisting a well-formed animation and restoring it at reading `now` gives
/// back the same animation, but for its time of last update, which is `now`.
pub proof fn lemma_record_round_trip(a: SpriteAnimation, rec: SpriteAnimationRecord, now: u64)
    requires
        a.wf(),
        rec.pos == a.record_spec().pos,
        rec.sprite_size == a.record_spec().sprite_size,
        rec.src_x == a.record_spec().src_x,
        rec.src_y == a.record_spec().src_y,
        rec.texture_path@ == a.record_spec().texture_path@,
        rec.frames_in_sprite_map == a.record_spec().frames_in_sprite_map,
        rec.frame_num == a.record_spec().frame_num,
        rec.milliseconds_per_frame == a.record_spec().milliseconds_per_frame,
        rec.animation_direction == a.record_spec().animation_direction,
    ensures
        record_valid(rec),
        SpriteAnimation::restored(rec, now).spec_frame_count() == a.spec_frame_count(),
        SpriteAnimation::restored(rec, now).spec_frame_index() == a.spec_frame_index(),
        SpriteAnimation::restored(rec, now).spec_ms_per_frame() == a.spec_ms_per_frame(),
        SpriteAnimation::restored(rec, now).spec_axis() == a.spec_axis(),
        SpriteAnimation::restored(rec, now).spec_view().spec_size() == a.spec_view().spec_size(),
        SpriteAnimation::restored(rec, now).spec_view().spec_pos() == a.spec_view().spec_pos(),
        SpriteAnimation::restored(rec, now).spec_view().spec_cursor() == a.spec_view().spec_cursor(),
        SpriteAnimation::restored(rec, now).spec_view().spec_texture_path()
            == a.spec_view().spec_texture_path(),
        SpriteAnimation::restored(rec, now).spec_last_update() == now,
{
}

/// What a render at reading `now` does to a well-formed animation, over its
/// public parts: the frame count, duration, axis, position, size and texture
/// stay; when whole frames `k > 0` have elapsed and the strip has frames `f`,
/// the index becomes `(i + k) mod f`, the last update `now`, and the cursor
/// the origin of the new frame; otherwise nothing changes.
pub proof fn lemma_after_render(a: SpriteAnimation, now: u64)
    requires
        a.wf(),
    ensures
        a.after_render(now).wf(),
        a.after_render(now).spec_frame_count() == a.spec_frame_count(),
        a.after_render(now).spec_ms_per_frame() == a.spec_ms_per_frame(),
        a.after_render(now).spec_axis() == a.spec_axis(),
        a.after_render(now).spec_view().spec_pos() == a.spec_view().spec_pos(),
        a.after_render(now).spec_view().spec_size() == a.spec_view().spec_size(),
        a.after_render(now).spec_view().spec_texture_path() == a.spec_view().spec_texture_path(),
        ({
            let k = elapsed_frames(a.spec_last_update(), now, a.spec_ms_per_frame());
            let f = a.spec_frame_count();
            if k > 0 && f > 0 {
                &&& a.after_render(now).spec_frame_index() == (a.spec_frame_index() + k) % f
                &&& a.after_render(now).spec_last_update() == now
                &&& a.after_render(now).spec_view().spec_cursor() == cursor_for(
                    a.spec_axis(),
                    a.spec_view().spec_size(),
                    a.after_render(now).spec_frame_index(),
                )
            } else {
                a.after_render(now) == a
            }
        }),
{
    let k = elapsed_frames(a.spec_last_update(), now, a.spec_ms_per_frame());
    let f = a.spec_frame_count();
    if k > 0 && f > 0 {
        assert((a.spec_frame_index() + k) % f < f) by (nonlinear_arith)
            requires
                f > 0,
        ;
    }
}

/// What a reset at reading `now` does, over the public parts of an
/// animation: frame zero and last update `now`; everything else stays.
pub proof fn lemma_reset_spec(a: SpriteAnimation, now: u64)
    ensures
        a.reset_spec(now).spec_frame_index() == 0,
        a.reset_spec(now).spec_last_update() == now,
        a.reset_spec(now).spec_frame_count() == a.spec_frame_count(),
        a.reset_spec(now).spec_ms_per_frame() == a.spec_ms_per_frame(),
        a.reset_spec(now).spec_axis() == a.spec_axis(),
        a.reset_spec(now).spec_view() == a.spec_view(),
        a.wf() ==> a.reset_spec(now).wf(),
{
}

/// A view whose entity the camera reports off-screen makes no draw call.
pub proof fn lemma_off_screen_draws_nothing(v: SpriteView)
    ensures
        v.draw_spec(false) is None,
        v.draw_spec(true) is Some,
{
}

/// Stepping `k` single frames from frame `i` of a strip of `f > 0` frames
/// reaches frame `(i + k) mod f`, the same frame that a step of `k mod f`
/// frames reaches.
pub proof fn lemma_step_frames(i: nat, k: nat, f: nat)
    requires
        f > 0,
        i < f,
    ensures
        step_frames(i, k, f) == (i + k) % f,
        (i + k % f) % f == (i + k) % f,
    decreases k,
{
    lemma_small_mod(i, f);
    lemma_mod_twice(k as int, f as int);
    lemma_add_mod_noop(i as int, k as int, f as int);
    lemma_add_mod_noop(i as int, (k % f) as int, f as int);
    if k > 0 {
        let j = (i + 1) % f;
        let k1 = (k - 1) as nat;
        lemma_step_frames(j, k1, f);
        lemma_add_mod_noop((i + 1) as int, k1 as int, f as int);
        lemma_small_mod(j, f);
        lemma_add_mod_noop(j as int, k1 as int, f as int);
        assert(i + 1 + k1 == i + k);
    }
}

/// The animation after renders at each reading of `times`, in order.
pub open spec fn render_all(a: SpriteAnimation, times: Seq<u64>) -> SpriteAnimation
    decreases times.len(),
{
    if times.len() == 0 {
        a
    } else {
        render_all(a.after_render(times[0]), times.drop_first())
    }
}

/// Renders at readings one frame duration apart, starting one frame after the
/// last update, move a strip of `f > 0` frames from frame `i` to frame
/// `(i + k) mod f` after `k` renders: `k` single advances equal one advance of
/// `k` frames.
pub proof fn lemma_single_frame_renders(a: SpriteAnimation, times: Seq<u64>)
    requires
        a.wf(),
        a.spec_frame_count() > 0,
        forall|j: int|
            0 <= j < times.len() ==> #[trigger] times[j] as int == a.spec_last_update() + (j + 1)
                * a.spec_ms_per_frame(),
    ensures
        render_all(a, times).wf(),
        render_all(a, times).spec_frame_count() == a.spec_frame_count(),
        render_all(a, times).spec_frame_index() == (a.spec_frame_index() + times.len())
            % a.spec_frame_count(),
    decreases times.len(),
{
    let f = a.spec_frame_count();
    let i = a.spec_frame_index();
    lemma_small_mod(i, f);
    if times.len() > 0 {
        let ms = a.spec_ms_per_frame();
        assert(times[0] as int == a.spec_last_update() + ms) by {
            assert(times[0] as int == a.spec_last_update() + (0 + 1) * ms);
        }
        assert(elapsed_frames(a.spec_last_update(), times[0], ms) == 1) by {
            vstd::arithmetic::div_mod::lemma_div_basics(ms as int);
        }
        lemma_after_render(a, times[0]);
        let b = a.after_render(times[0]);
        let rest = times.drop_first();
        assert forall|j: int| 0 <= j < rest.len() implies #[trigger] rest[j] as int
            == b.spec_last_update() + (j + 1) * b.spec_ms_per_frame() by {
            assert(rest[j] == times[j + 1]);
            assert(times[j + 1] as int == a.spec_last_update() + ((j + 1) + 1) * ms);
            assert(((j + 1) + 1) * ms == ms + (j + 1) * ms) by (nonlinear_arith);
        }
        lemma_single_frame_renders(b, rest);
        lemma_add_mod_noop((i + 1) as int, (times.len() - 1) as int, f as int);
        lemma_small_mod(b.spec_frame_index(), f);
        lemma_add_mod_noop(b.spec_frame_index() as int, (times.len() - 1) as int, f as int);
        assert(i + 1 + (times.len() - 1) == i + times.len());
    }
}

/// A render that finds `k > 0` whole frames elapsed moves an animation with
/// frames from frame `i` to the frame that `k` single steps reach.
pub proof fn lemma_render_steps(a: SpriteAnimation, now: u64)
    requires
        a.wf(),
        a.spec_frame_count() > 0,
        elapsed_frames(a.spec_last_update(), now, a.spec_ms_per_frame()) > 0,
    ensures
        a.after_render(now).spec_frame_index() == step_frames(
            a.spec_frame_index(),
            elapsed_frames(a.spec_last_update(), now, a.spec_ms_per_frame()),
            a.spec_frame_count(),
        ),
        a.after_render(now).spec_last_update() == now,
{
    let k = elapsed_frames(a.spec_last_update(), now, a.spec_ms_per_frame());
    lemma_step_frames(a.spec_frame_index(), k, a.spec_frame_count());
}

/// A reset leaves the animation at frame zero whatever its state; a second
/// reset at the same reading changes nothing more, and one at a later reading
/// changes only the time of the last update.
pub proof fn lemma_reset_idempotent(a: SpriteAnimation, now: u64, later: u64)
    ensures
        a.reset_spec(now).spec_frame_index() == 0,
        a.reset_spec(now).reset_spec(now) == a.reset_spec(now),
        a.reset_spec(now).reset_spec(later) == a.reset_spec(later),
        a.reset_spec(now).reset_spec(later).spec_frame_index() == 0,
        a.reset_spec(now).reset_spec(later).spec_last_update() == later,
{
}

/// An animation without frames never moves, however much time has passed.
pub proof fn lemma_static_frozen(a: SpriteAnimation, now: u64)
    requires
        a.spec_frame_count() == 0,
    ensures
        a.after_render(now) == a,
        a.after_render(now).spec_view().spec_cursor() == a.spec_view().spec_cursor(),
{
}

} // verus!
