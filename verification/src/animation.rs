//! Frame-by-frame animation of sprites: the frames of an animation, what
//! each frame does when its time is up, and the tick that moves a sprite
//! through them.

use vstd::prelude::*;
use crate::asset_store::{AssetStore, AssetStoreView};
use crate::handle::RawHandle;
use crate::loaded_assets::LoadedAssets;
use crate::tag_map::{tag_index_contents, TagIndex};

verus! {

/// What a frame does once its delay has passed.
#[derive(Clone, Debug, PartialEq, Eq)]
pub enum AnimationOption {
    /// Stay on the frame.
    Nothing,
    /// Go on to the frame that follows.
    NextFrame,
    /// Go to the frame at the given position.
    GoToFrame(usize),
    /// Start the animation with the given tag from its first frame.
    SwitchToAnimation(String),
    /// Start the sound that is registered under the given tag.
    PlaySound(String),
}

/// The mathematical value of an [`AnimationOption`].
pub enum AnimationOptionView {
    Nothing,
    NextFrame,
    GoToFrame(usize),
    SwitchToAnimation(Seq<char>),
    PlaySound(Seq<char>),
}

impl View for AnimationOption {
    type V = AnimationOptionView;

    open spec fn view(&self) -> AnimationOptionView {
        match self {
            AnimationOption::Nothing => AnimationOptionView::Nothing,
            AnimationOption::NextFrame => AnimationOptionView::NextFrame,
            AnimationOption::GoToFrame(frame) => AnimationOptionView::GoToFrame(*frame),
            AnimationOption::SwitchToAnimation(tag) => AnimationOptionView::SwitchToAnimation(tag@),
            AnimationOption::PlaySound(tag) => AnimationOptionView::PlaySound(tag@),
        }
    }
}

/// One frame of an animation: the tile to show, how long to show it, and
/// what to do then.
#[derive(Clone, Debug, PartialEq, Eq)]
pub struct AnimationFrame {
    sprite_index: usize,
    delay_ms: u128,
    action: Vec<AnimationOption>,
}

/// The mathematical value of an [`AnimationFrame`].
pub struct AnimationFrameView {
    pub sprite_index: usize,
    pub delay_ms: u128,
    pub action: Seq<AnimationOptionView>,
}

impl View for AnimationFrame {
    type V = AnimationFrameView;

    closed spec fn view(&self) -> AnimationFrameView {
        AnimationFrameView {
            sprite_index: self.sprite_index,
            delay_ms: self.delay_ms,
            action: self.action@.map_values(|option: AnimationOption| option@),
        }
    }
}

impl AnimationFrame {
    /// A frame that shows tile `sprite_index` and, once more than
    /// `delay_ms` milliseconds have passed, carries out `action` in order.
    pub fn new(sprite_index: usize, delay_ms: u128, action: Vec<AnimationOption>) -> (frame: Self)
        ensures
            frame@ == (AnimationFrameView {
                sprite_index,
                delay_ms,
                action: action@.map_values(|option: AnimationOption| option@),
            }),
    {
        Self { sprite_index, delay_ms, action }
    }

    /// The tile that the frame shows.
    pub fn sprite_index(&self) -> (index: usize)
        ensures
            index == self@.sprite_index,
    {
        self.sprite_index
    }

    /// The milliseconds that must have passed before the frame acts.
    pub fn delay_ms(&self) -> (delay: u128)
        ensures
            delay == self@.delay_ms,
    {
        self.delay_ms
    }

    /// What the frame does once its delay has passed, in order.
    pub fn actions(&self) -> (actions: &Vec<AnimationOption>)
        ensures
            actions@.map_values(|option: AnimationOption| option@) == self@.action,
    {
        &self.action
    }
}

/// An animation: its frames in order.
#[derive(Clone, Debug, PartialEq, Eq)]
pub struct PerFrameAnimation {
    pub frames: Vec<AnimationFrame>,
}

/// The mathematical value of a [`PerFrameAnimation`].
pub struct PerFrameAnimationView {
    pub frames: Seq<AnimationFrameView>,
}

impl View for PerFrameAnimation {
    type V = PerFrameAnimationView;

    open spec fn view(&self) -> PerFrameAnimationView {
        PerFrameAnimationView { frames: self.frames@.map_values(|frame: AnimationFrame| frame@) }
    }
}

impl PerFrameAnimation {
    pub fn new(frames: Vec<AnimationFrame>) -> (animation: Self)
        ensures
            animation.frames == frames,
    {
        Self { frames }
    }
}

/// The animations of a game, by tag.
pub struct Animations {
    /// The position in `list` of the animation stored under each tag.
    table: TagIndex,
    /// The animations, each at the position that its tag is bound to.
    list: Vec<PerFrameAnimation>,
}

impl View for Animations {
    type V = Map<Seq<char>, PerFrameAnimationView>;

    closed spec fn view(&self) -> Map<Seq<char>, PerFrameAnimationView> {
        Map::new(
            |tag: Seq<char>| tag_index_contents(self.table).contains_key(tag),
            |tag: Seq<char>| self.list@[tag_index_contents(self.table)[tag] as int]@,
        )
    }
}

impl Animations {
    /// Each tag is bound to a position in the list, and no two tags to the
    /// same one.
    #[verifier::type_invariant]
    spec fn positions_in_list(self) -> bool {
        let table = tag_index_contents(self.table);
        &&& forall|tag: Seq<char>| #[trigger]
            table.contains_key(tag) ==> table[tag] < self.list@.len()
        &&& forall|one: Seq<char>, other: Seq<char>|
            #![trigger table[one], table[other]]
            table.contains_key(one) && table.contains_key(other) && one != other ==> table[one]
                != table[other]
    }

    /// No animations.
    pub fn new() -> (animations: Self)
        ensures
            (animations@ == Map::<Seq<char>, PerFrameAnimationView>::empty()),
    {
        let animations = Self { table: TagIndex::new(), list: Vec::new() };
        assert(animations@ =~= Map::<Seq<char>, PerFrameAnimationView>::empty());
        animations
    }

    /// The same animations, with `animation` stored under `tag`. An
    /// animation that was stored under the tag before is replaced.
    pub fn with_animation(self, tag: &str, animation: PerFrameAnimation) -> (animations: Self)
        ensures
            animations@ == self@.insert(tag@, animation@),
    {
        proof {
            use_type_invariant(&self);
        }
        let Animations { mut table, mut list } = self;
        match table.get(tag) {
            Some(position) => {
                assert(tag_index_contents(table).contains_key(tag@));
                assert(position < list.len());
                list.set(position as usize, animation);
            },
            None => {
                let position: u64 = list.len() as u64;
                list.push(animation);
                table.insert(tag.to_owned(), position);
            },
        }
        let animations = Animations { table, list };
        assert(animations@ =~= self@.insert(tag@, animation@));
        animations
    }

    /// The animation stored under `tag`, if there is one.
    pub fn get(&self, tag: &str) -> (found: Option<&PerFrameAnimation>)
        ensures
            found is Some <==> self@.contains_key(tag@),
            found matches Some(animation) ==> animation@ == self@[tag@],
    {
        proof {
            use_type_invariant(self);
        }
        match self.table.get(tag) {
            Some(position) => {
                assert(tag_index_contents(self.table).contains_key(tag@));
                assert(position < self.list.len());
                Some(&self.list[position as usize])
            },
            None => None,
        }
    }
}

/// Where a sprite stands in its animation.
#[derive(Clone, Debug, PartialEq, Eq)]
pub struct AnimationCycle {
    animation_tag: String,
    current_frame: usize,
    timer: u128,
}

/// The mathematical value of an [`AnimationCycle`].
pub struct AnimationCycleView {
    pub animation_tag: Seq<char>,
    pub current_frame: usize,
    pub timer: u128,
}

impl View for AnimationCycle {
    type V = AnimationCycleView;

    closed spec fn view(&self) -> AnimationCycleView {
        AnimationCycleView {
            animation_tag: self.animation_tag@,
            current_frame: self.current_frame,
            timer: self.timer,
        }
    }
}

impl AnimationCycle {
    /// The start of the animation `tag`.
    pub fn new(tag: &str) -> (cycle: Self)
        ensures
            cycle@ == (AnimationCycleView { animation_tag: tag@, current_frame: 0, timer: 0 }),
    {
        Self { animation_tag: tag.to_owned(), current_frame: 0, timer: 0 }
    }

    /// The tag of the animation that is running.
    pub fn animation_tag(&self) -> (tag: &str)
        ensures
            tag@ == self@.animation_tag,
    {
        self.animation_tag.as_str()
    }

    /// The position of the frame that is showing.
    pub fn current_frame(&self) -> (frame: usize)
        ensures
            frame == self@.current_frame,
    {
        self.current_frame
    }

    /// The milliseconds counted since the frame last acted.
    pub fn timer(&self) -> (elapsed_ms: u128)
        ensures
            elapsed_ms == self@.timer,
    {
        self.timer
    }

    /// Starts the animation `new` from its first frame, unless it is the
    /// one that is running: then nothing changes.
    pub fn switch(&mut self, new: &str)
        ensures
            final(self)@ == (if new@ == old(self)@.animation_tag {
                old(self)@
            } else {
                AnimationCycleView { animation_tag: new@, current_frame: 0, timer: 0 }
            }),
    {
        let new = new.to_owned();
        if new != self.animation_tag {
            self.animation_tag = new;
            self.current_frame = 0;
            self.timer = 0;
        }
    }
}

impl AnimationCycleView {
    /// The cycle after one action of a frame.
    pub open spec fn apply(self, action: AnimationOptionView) -> AnimationCycleView {
        match action {
            AnimationOptionView::Nothing => self,
            AnimationOptionView::NextFrame => AnimationCycleView {
                current_frame: (self.current_frame + 1) as usize,
                ..self
            },
            AnimationOptionView::GoToFrame(frame) => AnimationCycleView {
                current_frame: frame,
                ..self
            },
            AnimationOptionView::SwitchToAnimation(tag) => AnimationCycleView {
                animation_tag: tag,
                current_frame: 0,
                ..self
            },
            AnimationOptionView::PlaySound(_) => self,
        }
    }

    /// The cycle after the actions of a frame, taken in order.
    pub open spec fn apply_all(self, actions: Seq<AnimationOptionView>) -> AnimationCycleView
        decreases actions.len(),
    {
        if actions.len() == 0 {
            self
        } else {
            self.apply_all(actions.drop_last()).apply(actions.last())
        }
    }
}

/// What one tick did to an animated sprite.
#[derive(Clone, Debug, PartialEq, Eq)]
pub enum CycleUpdate {
    /// No animation goes by the cycle's tag: only the timer went on.
    NotFound,
    /// The frame's delay has not passed yet: only the timer went on.
    Waiting,
    /// The frame's delay has passed and its actions were carried out.
    /// `sprite_index` is the tile that a sprite with an atlas is to show
    /// now, `sounds` the sounds to start, in order.
    Fired { sprite_index: Option<usize>, sounds: Vec<RawHandle> },
}

/// The mathematical value of a [`CycleUpdate`].
pub enum CycleUpdateView {
    NotFound,
    Waiting,
    Fired { sprite_index: Option<usize>, sounds: Seq<RawHandle> },
}

impl View for CycleUpdate {
    type V = CycleUpdateView;

    open spec fn view(&self) -> CycleUpdateView {
        match self {
            CycleUpdate::NotFound => CycleUpdateView::NotFound,
            CycleUpdate::Waiting => CycleUpdateView::Waiting,
            CycleUpdate::Fired { sprite_index, sounds } => CycleUpdateView::Fired {
                sprite_index: *sprite_index,
                sounds: sounds@,
            },
        }
    }
}

/// Whether `action` can be carried out on `cycle`: the frame counter does
/// not overflow, a sound that is to be played is registered and loaded, and
/// a sprite with an atlas finds the frame it is sent to among the
/// `frame_count` frames of its animation.
pub open spec fn action_allowed(
    cycle: AnimationCycleView,
    action: AnimationOptionView,
    frame_count: nat,
    has_atlas: bool,
    assets: AssetStoreView,
    loaded: Map<RawHandle, RawHandle>,
) -> bool {
    &&& action is NextFrame ==> cycle.current_frame < usize::MAX
    &&& action matches AnimationOptionView::PlaySound(tag) ==> assets.get_handle(tag, loaded)
        is Some
    &&& has_atlas ==> cycle.apply(action).current_frame < frame_count
}

/// Whether each of `actions` can be carried out in its turn, starting from
/// `cycle`.
pub open spec fn actions_allowed(
    cycle: AnimationCycleView,
    actions: Seq<AnimationOptionView>,
    frame_count: nat,
    has_atlas: bool,
    assets: AssetStoreView,
    loaded: Map<RawHandle, RawHandle>,
) -> bool {
    forall|k: int|
        0 <= k < actions.len() ==> action_allowed(
            cycle.apply_all(actions.take(k)),
            #[trigger] actions[k],
            frame_count,
            has_atlas,
            assets,
            loaded,
        )
}

/// The sounds to start once `action` is carried out, given those that
/// the actions before it asked for.
pub open spec fn sounds_after(
    earlier: Seq<RawHandle>,
    action: AnimationOptionView,
    assets: AssetStoreView,
    loaded: Map<RawHandle, RawHandle>,
) -> Seq<RawHandle> {
    match action {
        AnimationOptionView::PlaySound(tag) => earlier.push(
            assets.get_handle(tag, loaded).unwrap(),
        ),
        _ => earlier,
    }
}

/// The sounds that `actions` start, in order.
pub open spec fn sounds_of(
    actions: Seq<AnimationOptionView>,
    assets: AssetStoreView,
    loaded: Map<RawHandle, RawHandle>,
) -> Seq<RawHandle>
    decreases actions.len(),
{
    if actions.len() == 0 {
        Seq::empty()
    } else {
        sounds_after(
            sounds_of(actions.drop_last(), assets, loaded),
            actions.last(),
            assets,
            loaded,
        )
    }
}

/// Whether the animation of `cycle` is known and the delay of its current
/// frame has passed once `elapsed_ms` more milliseconds are counted.
pub open spec fn fires(
    animations: Map<Seq<char>, PerFrameAnimationView>,
    cycle: AnimationCycleView,
    elapsed_ms: u128,
) -> bool {
    &&& animations.contains_key(cycle.animation_tag)
    &&& cycle.timer + elapsed_ms > animations[cycle.animation_tag].frames[cycle.current_frame as int].delay_ms
}

/// Whether a tick of `elapsed_ms` milliseconds can be carried out: the
/// timer does not overflow, the current frame exists in the cycle's
/// animation, if that animation is known, and where the frame fires, each
/// of its actions can be carried out.
pub open spec fn can_cycle(
    animations: Map<Seq<char>, PerFrameAnimationView>,
    cycle: AnimationCycleView,
    has_atlas: bool,
    elapsed_ms: u128,
    assets: AssetStoreView,
    loaded: Map<RawHandle, RawHandle>,
) -> bool {
    &&& cycle.timer + elapsed_ms <= u128::MAX
    &&& animations.contains_key(cycle.animation_tag) ==> cycle.current_frame
        < animations[cycle.animation_tag].frames.len()
    &&& fires(animations, cycle, elapsed_ms) ==> actions_allowed(
        AnimationCycleView { timer: 0, ..cycle },
        animations[cycle.animation_tag].frames[cycle.current_frame as int].action,
        animations[cycle.animation_tag].frames.len(),
        has_atlas,
        assets,
        loaded,
    )
}

/// The cycle after a tick of `elapsed_ms` milliseconds. Where the frame
/// fires, the timer starts again at zero and the frame's actions are
/// carried out in order; otherwise the timer goes on.
pub open spec fn cycled(
    animations: Map<Seq<char>, PerFrameAnimationView>,
    cycle: AnimationCycleView,
    elapsed_ms: u128,
) -> AnimationCycleView {
    if fires(animations, cycle, elapsed_ms) {
        (AnimationCycleView { timer: 0, ..cycle }).apply_all(
            animations[cycle.animation_tag].frames[cycle.current_frame as int].action,
        )
    } else {
        AnimationCycleView { timer: (cycle.timer + elapsed_ms) as u128, ..cycle }
    }
}

/// What a tick of `elapsed_ms` milliseconds asks of the caller. Where the
/// frame fires and has at least one action, a sprite with an atlas shows
/// the tile of the frame that the cycle has reached, looked up in the
/// animation that was running when the tick began.
pub open spec fn cycle_update(
    animations: Map<Seq<char>, PerFrameAnimationView>,
    cycle: AnimationCycleView,
    has_atlas: bool,
    elapsed_ms: u128,
    assets: AssetStoreView,
    loaded: Map<RawHandle, RawHandle>,
) -> CycleUpdateView {
    if !animations.contains_key(cycle.animation_tag) {
        CycleUpdateView::NotFound
    } else if !fires(animations, cycle, elapsed_ms) {
        CycleUpdateView::Waiting
    } else {
        let frames = animations[cycle.animation_tag].frames;
        let actions = frames[cycle.current_frame as int].action;
        CycleUpdateView::Fired {
            sprite_index: if has_atlas && actions.len() > 0 {
                Some(frames[cycled(animations, cycle, elapsed_ms).current_frame as int].sprite_index)
            } else {
                None
            },
            sounds: sounds_of(actions, assets, loaded),
        }
    }
}

/// What the first `i + 1` actions do is what the first `i` do, followed
/// by action `i`.
proof fn lemma_one_more_action(
    start: AnimationCycleView,
    actions: Seq<AnimationOptionView>,
    i: int,
    assets: AssetStoreView,
    loaded: Map<RawHandle, RawHandle>,
)
    requires
        0 <= i < actions.len(),
    ensures
        start.apply_all(actions.take(i + 1)) == start.apply_all(actions.take(i)).apply(actions[i]),
        sounds_of(actions.take(i + 1), assets, loaded) == sounds_after(
            sounds_of(actions.take(i), assets, loaded),
            actions[i],
            assets,
            loaded,
        ),
{
    assert(actions.take(i + 1).drop_last() =~= actions.take(i));
    assert(actions.take(i + 1).last() == actions[i]);
}

/// Carries out one action on `cycle`, if it can be carried out, and adds
/// the sound that it asks for to `sounds`. Returns whether it was carried
/// out; if not, `cycle` and `sounds` are as they were.
fn carry_out(
    action: &AnimationOption,
    cycle: &mut AnimationCycle,
    sounds: &mut Vec<RawHandle>,
    frame_count: usize,
    has_atlas: bool,
    assets: &AssetStore,
    loaded_assets: &LoadedAssets,
) -> (done: bool)
    ensures
        done == action_allowed(
            old(cycle)@,
            action@,
            frame_count as nat,
            has_atlas,
            assets@,
            loaded_assets@,
        ),
        done ==> final(cycle)@ == old(cycle)@.apply(action@),
        done ==> final(sounds)@ == sounds_after(old(sounds)@, action@, assets@, loaded_assets@),
        !done ==> final(cycle)@ == old(cycle)@ && final(sounds)@ == old(sounds)@,
{
    match action {
        AnimationOption::Nothing => !has_atlas || cycle.current_frame < frame_count,
        AnimationOption::NextFrame => {
            if cycle.current_frame == usize::MAX {
                return false;
            }
            if has_atlas && cycle.current_frame + 1 >= frame_count {
                return false;
            }
            cycle.current_frame = cycle.current_frame + 1;
            true
        },
        AnimationOption::GoToFrame(frame_index) => {
            if has_atlas && *frame_index >= frame_count {
                return false;
            }
            cycle.current_frame = *frame_index;
            true
        },
        AnimationOption::SwitchToAnimation(tag) => {
            if has_atlas && frame_count == 0 {
                return false;
            }
            cycle.animation_tag = tag.clone();
            cycle.current_frame = 0;
            true
        },
        AnimationOption::PlaySound(tag) => {
            if has_atlas && cycle.current_frame >= frame_count {
                return false;
            }
            match assets.get_handle(tag.as_str(), loaded_assets) {
                Some(sound) => {
                    sounds.push(sound);
                    true
                },
                None => false,
            }
        },
    }
}

/// Carries out the actions of `frame` on `start`, if each of them can be
/// carried out in its turn. Returns the cycle after the last action, the
/// tile that a sprite with an atlas is to show, and the sounds to start.
fn run_actions(
    cycle: &PerFrameAnimation,
    frame: &AnimationFrame,
    start: &AnimationCycle,
    has_atlas: bool,
    assets: &AssetStore,
    loaded_assets: &LoadedAssets,
) -> (outcome: Option<(AnimationCycle, Option<usize>, Vec<RawHandle>)>)
    ensures
        outcome is Some <==> actions_allowed(
            start@,
            frame@.action,
            cycle@.frames.len(),
            has_atlas,
            assets@,
            loaded_assets@,
        ),
        outcome matches Some(done) ==> {
            &&& done.0@ == start@.apply_all(frame@.action)
            &&& done.1 == (if has_atlas && frame@.action.len() > 0 {
                Some(cycle@.frames[done.0@.current_frame as int].sprite_index)
            } else {
                None
            })
            &&& done.2@ == sounds_of(frame@.action, assets@, loaded_assets@)
        },
{
    let ghost actions = frame@.action;
    let ghost frame_count = cycle@.frames.len();
    let mut next = AnimationCycle {
        animation_tag: start.animation_tag.clone(),
        current_frame: start.current_frame,
        timer: start.timer,
    };
    let mut sprite_index: Option<usize> = None;
    let mut sounds: Vec<RawHandle> = Vec::new();
    let count: usize = frame.action.len();
    let mut i: usize = 0;
    proof {
        assert(actions.take(0) =~= Seq::<AnimationOptionView>::empty());
    }
    while i < count
        invariant
            i <= count,
            count == frame.action.len(),
            actions == frame@.action,
            actions.len() == count,
            frame_count == cycle@.frames.len(),
            next@ == start@.apply_all(actions.take(i as int)),
            sounds@ == sounds_of(actions.take(i as int), assets@, loaded_assets@),
            forall|k: int|
                0 <= k < i ==> action_allowed(
                    start@.apply_all(actions.take(k)),
                    #[trigger] actions[k],
                    frame_count,
                    has_atlas,
                    assets@,
                    loaded_assets@,
                ),
            has_atlas && i > 0 ==> next@.current_frame < frame_count,
            sprite_index == (if has_atlas && i > 0 {
                Some(cycle@.frames[next@.current_frame as int].sprite_index)
            } else {
                None
            }),
        decreases count - i,
    {
        proof {
            lemma_one_more_action(start@, actions, i as int, assets@, loaded_assets@);
            assert(actions[i as int] == frame.action@[i as int]@);
        }
        let done = carry_out(
            &frame.action[i],
            &mut next,
            &mut sounds,
            cycle.frames.len(),
            has_atlas,
            assets,
            loaded_assets,
        );
        if !done {
            return None;
        }
        if has_atlas {
            sprite_index = Some(cycle.frames[next.current_frame].sprite_index);
        }
        i = i + 1;
    }
    proof {
        assert(actions.take(count as int) =~= actions);
    }
    Some((next, sprite_index, sounds))
}

/// Carries out one tick on a copy of `animation`, if it can be carried
/// out, and returns the cycle after the tick with what the tick asks of
/// the caller.
pub fn try_cycle_animations(
    animations: &Animations,
    animation: &AnimationCycle,
    has_atlas: bool,
    ms_since_last_call: u128,
    assets: &AssetStore,
    loaded_assets: &LoadedAssets,
) -> (outcome: Option<(AnimationCycle, CycleUpdate)>)
    ensures
        outcome is Some <==> can_cycle(
            animations@,
            animation@,
            has_atlas,
            ms_since_last_call,
            assets@,
            loaded_assets@,
        ),
        outcome matches Some(pair) ==> pair.0@ == cycled(
            animations@,
            animation@,
            ms_since_last_call,
        ) && pair.1@ == cycle_update(
            animations@,
            animation@,
            has_atlas,
            ms_since_last_call,
            assets@,
            loaded_assets@,
        ),
{
    let timer = match animation.timer.checked_add(ms_since_last_call) {
        Some(timer) => timer,
        None => {
            return None;
        },
    };
    let cycle = match animations.get(animation.animation_tag.as_str()) {
        Some(cycle) => cycle,
        None => {
            let waiting = AnimationCycle {
                animation_tag: animation.animation_tag.clone(),
                current_frame: animation.current_frame,
                timer,
            };
            return Some((waiting, CycleUpdate::NotFound));
        },
    };
    if animation.current_frame >= cycle.frames.len() {
        return None;
    }
    let frame = &cycle.frames[animation.current_frame];
    assert(frame@ == animations@[animation@.animation_tag].frames[animation@.current_frame as int]);
    if timer <= frame.delay_ms {
        let waiting = AnimationCycle {
            animation_tag: animation.animation_tag.clone(),
            current_frame: animation.current_frame,
            timer,
        };
        return Some((waiting, CycleUpdate::Waiting));
    }
    let start = AnimationCycle {
        animation_tag: animation.animation_tag.clone(),
        current_frame: animation.current_frame,
        timer: 0,
    };
    match run_actions(cycle, frame, &start, has_atlas, assets, loaded_assets) {
        Some((next, sprite_index, sounds)) => Some(
            (next, CycleUpdate::Fired { sprite_index, sounds }),
        ),
        None => None,
    }
}

/// Carries out one tick on an animated sprite: counts `ms_since_last_call`
/// milliseconds and, where the delay of the current frame has passed,
/// carries out the frame's actions. What the tick asks of the caller is
/// returned.
pub fn cycle_animations(
    animations: &Animations,
    animation: &mut AnimationCycle,
    has_atlas: bool,
    ms_since_last_call: u128,
    assets: &AssetStore,
    loaded_assets: &LoadedAssets,
) -> (update: CycleUpdate)
    requires
        can_cycle(
            animations@,
            old(animation)@,
            has_atlas,
            ms_since_last_call,
            assets@,
            loaded_assets@,
        ),
    ensures
        final(animation)@ == cycled(animations@, old(animation)@, ms_since_last_call),
        update@ == cycle_update(
            animations@,
            old(animation)@,
            has_atlas,
            ms_since_last_call,
            assets@,
            loaded_assets@,
        ),
{
    let (next, update) = try_cycle_animations(
        animations,
        animation,
        has_atlas,
        ms_since_last_call,
        assets,
        loaded_assets,
    ).unwrap();
    *animation = next;
    update
}

} // verus!
