use vstd::prelude::*;

use crate::error::AnimationError;
use crate::sprite::{lemma_reset_idempotent, lemma_reset_spec, SpriteAnimation, SpriteDraw};

verus! {

/// The set of states which an [AnimationStateMachine] can render.
pub trait AnimationStates: Sized {
    /// The viewed type, whose status drives the transitions.
    type Viewed;

    /// Determines the state to be rendered from the status of the viewed value.
    /// If `None` the state should not change.
    fn next_state(&self, viewed: &Self::Viewed) -> Option<Self>;

    /// Whether two states are the same.
    fn same_state(&self, other: &Self) -> (r: bool)
        ensures
            r == (*self == *other),
    ;

    /// The description of the state, which `describe` returns. An
    /// implementation that describes its states overrides this.
    open spec fn spec_describe(&self) -> Seq<char> {
        Seq::empty()
    }

    /// Describes the state, for diagnostics.
    fn describe(&self) -> (r: String)
        ensures
            r@ == self.spec_describe(),
    ;
}

/// A set of animation states that always remains on the same state.
#[derive(Debug)]
pub struct StaticAnimation<E> {
    phantom: core::marker::PhantomData<E>,
}

impl<E> Default for StaticAnimation<E> {
    /// The static state; every value equals it (`lemma_static_states_equal`).
    fn default() -> Self {
        StaticAnimation { phantom: core::marker::PhantomData }
    }
}

/// All static states are the same state: the machine of a single animation
/// has one key.
pub proof fn lemma_static_states_equal<E>(a: StaticAnimation<E>, b: StaticAnimation<E>)
    ensures
        a == b,
{
}

impl<E> AnimationStates for StaticAnimation<E> {
    type Viewed = E;

    fn next_state(&self, _viewed: &E) -> (r: Option<Self>)
        ensures
            r is None,
    {
        None
    }

    fn same_state(&self, _other: &Self) -> (r: bool) {
        true
    }

    open spec fn spec_describe(&self) -> Seq<char> {
        "StaticAnimation"@
    }

    fn describe(&self) -> (r: String) {
        let r = "StaticAnimation".to_string();
        proof {
            reveal_strlit("StaticAnimation");
        }
        r
    }
}

/// The mapping that a list of (state, animation) entries describes: each
/// state maps to the animation of its last entry.
pub open spec fn map_of<S>(entries: Seq<(S, SpriteAnimation)>) -> Map<S, SpriteAnimation>
    decreases entries.len(),
{
    if entries.len() == 0 {
        Map::empty()
    } else {
        map_of(entries.drop_last()).insert(entries.last().0, entries.last().1)
    }
}

/// No state has two entries.
pub open spec fn distinct_states<S>(entries: Seq<(S, SpriteAnimation)>) -> bool {
    forall|i: int, j: int|
        0 <= i < entries.len() && 0 <= j < entries.len() && i != j ==> entries[i].0 != entries[j].0
}

proof fn lemma_map_of_domain<S>(entries: Seq<(S, SpriteAnimation)>, s: S)
    ensures
        map_of(entries).contains_key(s) <==> exists|i: int| 0 <= i < entries.len() && entries[i].0 == s,
    decreases entries.len(),
{
    if entries.len() > 0 {
        let d = entries.drop_last();
        lemma_map_of_domain(d, s);
        if map_of(entries).contains_key(s) && s != entries.last().0 {
            let i = choose|i: int| 0 <= i < d.len() && d[i].0 == s;
            assert(entries[i].0 == s);
        }
        if exists|i: int| 0 <= i < entries.len() && entries[i].0 == s {
            let i = choose|i: int| 0 <= i < entries.len() && entries[i].0 == s;
            if i < d.len() {
                assert(d[i].0 == s);
            }
        }
    }
}

proof fn lemma_map_of_index<S>(entries: Seq<(S, SpriteAnimation)>, i: int)
    requires
        distinct_states(entries),
        0 <= i < entries.len(),
    ensures
        map_of(entries).contains_key(entries[i].0),
        map_of(entries)[entries[i].0] == entries[i].1,
    decreases entries.len(),
{
    let d = entries.drop_last();
    if i < d.len() {
        assert(d[i] == entries[i]);
        lemma_map_of_index(d, i);
        assert(entries[i].0 != entries.last().0);
    }
}

proof fn lemma_map_of_update<S>(entries: Seq<(S, SpriteAnimation)>, i: int, a: SpriteAnimation)
    requires
        distinct_states(entries),
        0 <= i < entries.len(),
    ensures
        map_of(entries.update(i, (entries[i].0, a))) == map_of(entries).insert(entries[i].0, a),
        distinct_states(entries.update(i, (entries[i].0, a))),
    decreases entries.len(),
{
    let u = entries.update(i, (entries[i].0, a));
    let d = entries.drop_last();
    if i == entries.len() - 1 {
        assert(u.drop_last() =~= d);
        assert(map_of(u) =~= map_of(entries).insert(entries[i].0, a));
    } else {
        assert(u.drop_last() =~= d.update(i, (d[i].0, a)));
        lemma_map_of_update(d, i, a);
        assert(entries[i].0 != entries.last().0);
        assert(map_of(u) =~= map_of(entries).insert(entries[i].0, a));
    }
}

proof fn lemma_map_of_push<S>(entries: Seq<(S, SpriteAnimation)>, s: S, a: SpriteAnimation)
    requires
        distinct_states(entries),
        !map_of(entries).contains_key(s),
    ensures
        map_of(entries.push((s, a))) == map_of(entries).insert(s, a),
        distinct_states(entries.push((s, a))),
{
    lemma_map_of_domain(entries, s);
    assert(entries.push((s, a)).drop_last() =~= entries);
}

/// Every animation of the entries is well formed.
pub open spec fn all_wf<S>(entries: Seq<(S, SpriteAnimation)>) -> bool {
    forall|i: int| 0 <= i < entries.len() ==> #[trigger] entries[i].1.wf()
}

/// Looks up the entry for `state`.
fn find_entry<S: AnimationStates>(entries: &Vec<(S, SpriteAnimation)>, state: &S) -> (r: Option<
    usize,
>)
    ensures
        r matches Some(i) ==> i < entries@.len() && entries@[i as int].0 == *state,
        r is None <==> !map_of(entries@).contains_key(*state),
{
    let mut i: usize = 0;
    while i < entries.len()
        invariant
            i <= entries@.len(),
            forall|j: int| 0 <= j < i ==> entries@[j].0 != *state,
        decreases entries@.len() - i,
    {
        if entries[i].0.same_state(state) {
            proof {
                lemma_map_of_domain(entries@, *state);
            }
            return Some(i);
        }
        i = i + 1;
    }
    proof {
        lemma_map_of_domain(entries@, *state);
    }
    None
}

/// Sets the animation for `state` in `entries`, adding an entry if it has none.
fn insert_entry<S: AnimationStates>(
    entries: &mut Vec<(S, SpriteAnimation)>,
    state: S,
    animation: SpriteAnimation,
)
    requires
        distinct_states(old(entries)@),
        all_wf(old(entries)@),
        animation.wf(),
    ensures
        distinct_states(final(entries)@),
        all_wf(final(entries)@),
        map_of(final(entries)@) == map_of(old(entries)@).insert(state, animation),
{
    match find_entry(entries, &state) {
        Some(i) => {
            proof {
                lemma_map_of_update(entries@, i as int, animation);
            }
            entries.set(i, (state, animation));
            proof {
                assert(forall|k: int| 0 <= k < entries@.len() && k != i ==> entries@[k] == old(entries)@[k]);
            }
        },
        None => {
            proof {
                lemma_map_of_push(entries@, state, animation);
            }
            entries.push((state, animation));
            proof {
                assert(forall|k: int| 0 <= k < old(entries)@.len() ==> entries@[k] == old(entries)@[k]);
            }
        },
    }
}

/// A policy request for a state without an animation leaves the current state
/// and every animation as they were; a request for a mapped state makes it
/// current with its animation at frame zero.
pub proof fn lemma_request_unmapped<S>(current: S, m: Map<S, SpriteAnimation>, s: S, now: u64)
    ensures
        !m.contains_key(s) ==> request_model(current, m, Some(s), now) == (current, m),
        m.contains_key(s) ==> request_model(current, m, Some(s), now).0 == s
            && request_model(current, m, Some(s), now).1[s].spec_frame_index() == 0,
        request_model(current, m, None, now) == (current, m),
{
    if m.contains_key(s) {
        lemma_reset_idempotent(m[s], now, now);
    }
}

/// What a render reports: the draw call to make, if any, and the error of a
/// transition that the policy asked for and that could not be made.
#[derive(Clone, Debug)]
pub struct RenderOutcome {
    pub draw: Option<SpriteDraw>,
    pub transition_error: Option<AnimationError>,
}

/// A view displaying one of a set of [SpriteAnimation]s, chosen by a state
/// that follows the policy of the state type.
#[derive(Debug)]
pub struct AnimationStateMachine<S: AnimationStates> {
    current_state: S,
    animations: Vec<(S, SpriteAnimation)>,
}

/// The state and mapping after a request to move to `s` at reading `now`:
/// a mapped state becomes current, its animation reset; an unmapped one
/// changes nothing.
pub open spec fn transition_model<S>(
    current: S,
    m: Map<S, SpriteAnimation>,
    s: S,
    now: u64,
) -> (S, Map<S, SpriteAnimation>) {
    if m.contains_key(s) {
        (s, m.insert(s, m[s].reset_spec(now)))
    } else {
        (current, m)
    }
}

/// The state and mapping after the policy's answer `request` at reading `now`.
pub open spec fn request_model<S>(
    current: S,
    m: Map<S, SpriteAnimation>,
    request: Option<S>,
    now: u64,
) -> (S, Map<S, SpriteAnimation>) {
    match request {
        Some(s) => transition_model(current, m, s, now),
        None => (current, m),
    }
}

impl<S: AnimationStates> AnimationStateMachine<S> {
    pub closed spec fn spec_current_state(&self) -> S {
        self.current_state
    }

    /// The mapping from states to their animations.
    pub closed spec fn spec_animations(&self) -> Map<S, SpriteAnimation> {
        map_of(self.animations@)
    }

    /// The machine is well formed: the current state has an animation, and
    /// every animation is well formed.
    pub closed spec fn wf(&self) -> bool {
        &&& distinct_states(self.animations@)
        &&& all_wf(self.animations@)
        &&& self.spec_animations().contains_key(self.current_state)
    }

    /// Creates a machine in `initial_state` with the animations of `animations`
    /// (a later entry for a state replaces an earlier one). Fails when
    /// `initial_state` has no animation.
    pub fn new(initial_state: S, animations: Vec<(S, SpriteAnimation)>) -> (r: Result<
        Self,
        AnimationError,
    >)
        requires
            all_wf(animations@),
        ensures
            map_of(animations@).contains_key(initial_state) <==> r is Ok,
            r matches Ok(m) ==> m.wf() && m.spec_current_state() == initial_state
                && m.spec_animations() == map_of(animations@),
            r matches Err(e) ==> (e matches AnimationError::NoAnimationForState(d)
                && d@ == initial_state.spec_describe()),
    {
        let mut animations = animations;
        let mut entries: Vec<(S, SpriteAnimation)> = Vec::new();
        let ghost input = animations@;
        let n: usize = animations.len();
        let mut k: usize = 0;
        while animations.len() > 0
            invariant
                k <= input.len(),
                input.len() == n,
                animations@ == input.skip(k as int),
                distinct_states(entries@),
                all_wf(entries@),
                all_wf(input),
                map_of(entries@) == map_of(input.take(k as int)),
            decreases animations@.len(),
        {
            let (state, animation) = animations.remove(0);
            proof {
                assert(input[k as int] == (state, animation));
                assert(input.take(k as int + 1).drop_last() =~= input.take(k as int));
                assert(animation.wf());
            }
            insert_entry(&mut entries, state, animation);
            k = k + 1;
            proof {
                assert(animations@ =~= input.skip(k as int));
            }
        }
        proof {
            assert(input.take(k as int) =~= input);
        }
        match find_entry(&entries, &initial_state) {
            Some(i) => {
                proof {
                    lemma_map_of_domain(entries@, initial_state);
                }
                Ok(AnimationStateMachine { current_state: initial_state, animations: entries })
            },
            None => Err(AnimationError::NoAnimationForState(initial_state.describe())),
        }
    }

    /// Sets the animation for `state`, replacing any it had.
    pub fn set_state_animation(&mut self, state: S, animation: SpriteAnimation)
        requires
            old(self).wf(),
            animation.wf(),
        ensures
            final(self).wf(),
            final(self).spec_current_state() == old(self).spec_current_state(),
            final(self).spec_animations() == old(self).spec_animations().insert(state, animation),
    {
        insert_entry(&mut self.animations, state, animation);
    }

    /// Makes `new_state` the current state at clock reading `now`, resetting its
    /// animation. Fails, changing nothing, when `new_state` has no animation.
    pub fn set_current_state(&mut self, new_state: S, now: u64) -> (r: Result<(), AnimationError>)
        requires
            old(self).wf(),
        ensures
            final(self).wf(),
            r is Ok <==> old(self).spec_animations().contains_key(new_state),
            (final(self).spec_current_state(), final(self).spec_animations()) == transition_model(
                old(self).spec_current_state(),
                old(self).spec_animations(),
                new_state,
                now,
            ),
            r is Err ==> *final(self) == *old(self),
            r is Ok ==> ({
                let before = old(self).spec_animations()[new_state];
                let after = final(self).spec_animations()[new_state];
                &&& final(self).spec_current_state() == new_state
                &&& after.spec_frame_index() == 0
                &&& after.spec_last_update() == now
                &&& after.spec_frame_count() == before.spec_frame_count()
                &&& after.spec_ms_per_frame() == before.spec_ms_per_frame()
                &&& after.spec_axis() == before.spec_axis()
                &&& after.spec_view() == before.spec_view()
                &&& forall|s: S| s != new_state ==> #[trigger] final(self).spec_animations().contains_key(s)
                    == old(self).spec_animations().contains_key(s)
                    && final(self).spec_animations()[s] == old(self).spec_animations()[s]
            }),
            r matches Err(e) ==> (e matches AnimationError::NoAnimationForState(d)
                && d@ == new_state.spec_describe()),
    {
        match find_entry(&self.animations, &new_state) {
            Some(i) => {
                let ghost a = self.animations@[i as int].1;
                proof {
                    lemma_map_of_index(self.animations@, i as int);
                    lemma_map_of_update(self.animations@, i as int, a.reset_spec(now));
                    lemma_reset_spec(a, now);
                }
                self.animations[i].1.reset(now);
                proof {
                    assert(self.animations@ =~= old(self).animations@.update(
                        i as int,
                        (new_state, a.reset_spec(now)),
                    ));
                }
                self.current_state = new_state;
                Ok(())
            },
            None => Err(AnimationError::NoAnimationForState(new_state.describe())),
        }
    }

    /// The machine `new`, with outcome `r`, is what a render of `self` at
    /// reading `now` gives when the policy answers `request`: the request is
    /// followed when its state has an animation (and reported when it has
    /// none), then the animation of the current state advances to `now` and
    /// its region is drawn when on screen.
    pub open spec fn render_spec(
        &self,
        request: Option<S>,
        now: u64,
        on_screen: bool,
        new: &Self,
        r: RenderOutcome,
    ) -> bool {
        let mid = request_model(self.spec_current_state(), self.spec_animations(), request, now);
        let shown = mid.1[mid.0].after_render(now);
        &&& new.spec_current_state() == mid.0
        &&& new.spec_animations() == mid.1.insert(mid.0, shown)
        &&& r.draw == shown.spec_view().draw_spec(on_screen)
        &&& (r.transition_error is Some <==> (request matches Some(s)
            && !self.spec_animations().contains_key(s)))
        &&& (r.transition_error matches Some(e) ==> (e matches AnimationError::NoAnimationForState(d)
            && d@ == request->0.spec_describe()))
    }

    /// Renders the machine at clock reading `now` with `request` as the
    /// policy's answer (see `render_spec`). `on_screen` is whether the camera
    /// projects the viewed value into view.
    pub fn render_with_request(&mut self, request: Option<S>, now: u64, on_screen: bool) -> (r:
        RenderOutcome)
        requires
            old(self).wf(),
        ensures
            final(self).wf(),
            old(self).render_spec(request, now, on_screen, final(self), r),
    {
        let mut transition_error: Option<AnimationError> = None;
        match request {
            Some(s) => {
                match self.set_current_state(s, now) {
                    Ok(()) => {},
                    Err(e) => {
                        transition_error = Some(e);
                    },
                }
            },
            None => {},
        }
        let i = match find_entry(&self.animations, &self.current_state) {
            Some(i) => i,
            None => {
                return RenderOutcome { draw: None, transition_error };
            },
        };
        let ghost a = self.animations@[i as int].1;
        proof {
            lemma_map_of_index(self.animations@, i as int);
            lemma_map_of_update(self.animations@, i as int, a.after_render(now));
        }
        let ghost before = self.animations@;
        let draw = self.animations[i].1.render(now, on_screen);
        proof {
            assert(self.animations@ =~= before.update(i as int, (self.current_state, a.after_render(now))));
        }
        RenderOutcome { draw, transition_error }
    }

    /// Renders the machine at clock reading `now`: asks the policy of the
    /// current state for the next state given `viewed`, and renders with that
    /// answer (see `render_spec`). A transition to a state without an
    /// animation is reported in the outcome, never as a failure.
    pub fn render(&mut self, viewed: &S::Viewed, now: u64, on_screen: bool) -> (r: RenderOutcome)
        requires
            old(self).wf(),
        ensures
            final(self).wf(),
            exists|request: Option<S>| #[trigger]
                old(self).render_spec(request, now, on_screen, final(self), r),
    {
        let request = self.current_state.next_state(viewed);
        self.render_with_request(request, now, on_screen)
    }

    /// The current state.
    pub fn current_state(&self) -> (r: &S)
        ensures
            *r == self.spec_current_state(),
    {
        &self.current_state
    }

    /// The animation of `state`, if it has one.
    pub fn animation(&self, state: &S) -> (r: Option<&SpriteAnimation>)
        requires
            self.wf(),
        ensures
            r is Some <==> self.spec_animations().contains_key(*state),
            r matches Some(a) ==> *a == self.spec_animations()[*state] && a.wf(),
    {
        match find_entry(&self.animations, state) {
            Some(i) => {
                proof {
                    lemma_map_of_index(self.animations@, i as int);
                }
                Some(&self.animations[i].1)
            },
            None => None,
        }
    }
}

impl<E> AnimationStateMachine<StaticAnimation<E>> {
    /// Creates a machine that always remains on the single animation given.
    pub fn static_animation(animation: SpriteAnimation) -> (r: Self)
        requires
            animation.wf(),
        ensures
            r.wf(),
            r.spec_animations() == Map::<StaticAnimation<E>, SpriteAnimation>::empty().insert(
                r.spec_current_state(),
                animation,
            ),
    {
        let current_state = StaticAnimation::default();
        let mut animations: Vec<(StaticAnimation<E>, SpriteAnimation)> = Vec::new();
        animations.push((StaticAnimation::default(), animation));
        proof {
            assert(animations@.drop_last() =~= Seq::<(StaticAnimation<E>, SpriteAnimation)>::empty());
        }
        AnimationStateMachine { current_state, animations }
    }
}

} // verus!
