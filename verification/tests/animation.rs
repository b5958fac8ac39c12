use my_library::{
    cycle_animations, try_cycle_animations, AnimationCycle, AnimationFrame, AnimationOption,
    Animations, AssetStore, CycleUpdate, LoadedAssets, ParallaxTimer, PerFrameAnimation, RawHandle,
};

fn walk_and_idle() -> Animations {
    Animations::new()
        .with_animation(
            "walk",
            PerFrameAnimation::new(vec![
                AnimationFrame::new(3, 100, vec![AnimationOption::NextFrame]),
                AnimationFrame::new(
                    4,
                    100,
                    vec![
                        AnimationOption::GoToFrame(0),
                        AnimationOption::PlaySound("step".to_string()),
                    ],
                ),
            ]),
        )
        .with_animation(
            "idle",
            PerFrameAnimation::new(vec![
                AnimationFrame::new(9, 10, vec![]),
                AnimationFrame::new(8, 10, vec![AnimationOption::Nothing]),
                AnimationFrame::new(
                    7,
                    0,
                    vec![
                        AnimationOption::PlaySound("step".to_string()),
                        AnimationOption::SwitchToAnimation("walk".to_string()),
                        AnimationOption::NextFrame,
                        AnimationOption::PlaySound("jump".to_string()),
                    ],
                ),
            ]),
        )
}

fn sounds() -> (AssetStore, LoadedAssets) {
    let mut store = AssetStore::new();
    let mut loaded = LoadedAssets::new();
    store.register("step".to_string(), RawHandle { id: 1 });
    store.register("jump".to_string(), RawHandle { id: 2 });
    store.register("late".to_string(), RawHandle { id: 3 });
    loaded.insert(RawHandle { id: 1 }, RawHandle { id: 11 });
    loaded.insert(RawHandle { id: 2 }, RawHandle { id: 22 });
    (store, loaded)
}

#[test]
fn frame_keeps_what_it_was_made_of() {
    let frame = AnimationFrame::new(5, 250, vec![AnimationOption::GoToFrame(2)]);
    assert_eq!(frame.sprite_index(), 5);
    assert_eq!(frame.delay_ms(), 250);
    assert_eq!(frame.actions(), &vec![AnimationOption::GoToFrame(2)]);
    let animation = PerFrameAnimation::new(vec![frame.clone()]);
    assert_eq!(animation.frames, vec![frame]);
}

#[test]
fn animations_are_found_by_tag() {
    let animations = walk_and_idle();
    assert_eq!(animations.get("walk").unwrap().frames.len(), 2);
    assert_eq!(animations.get("idle").unwrap().frames.len(), 3);
    assert!(animations.get("run").is_none());
    assert!(Animations::new().get("walk").is_none());
    let replaced = animations.with_animation("walk", PerFrameAnimation::new(vec![]));
    assert_eq!(replaced.get("walk").unwrap().frames.len(), 0);
    assert_eq!(replaced.get("idle").unwrap().frames.len(), 3);
}

#[test]
fn new_cycle_starts_at_the_first_frame() {
    let cycle = AnimationCycle::new("walk");
    assert_eq!(cycle.animation_tag(), "walk");
    assert_eq!(cycle.current_frame(), 0);
    assert_eq!(cycle.timer(), 0);
}

#[test]
fn switch_restarts_only_for_another_animation() {
    let animations = walk_and_idle();
    let (store, loaded) = sounds();
    let mut cycle = AnimationCycle::new("walk");
    cycle_animations(&animations, &mut cycle, true, 101, &store, &loaded);
    cycle_animations(&animations, &mut cycle, true, 40, &store, &loaded);
    assert_eq!(cycle.current_frame(), 1);
    assert_eq!(cycle.timer(), 40);
    cycle.switch("walk");
    assert_eq!(cycle.animation_tag(), "walk");
    assert_eq!(cycle.current_frame(), 1);
    assert_eq!(cycle.timer(), 40);
    cycle.switch("idle");
    assert_eq!(cycle.animation_tag(), "idle");
    assert_eq!(cycle.current_frame(), 0);
    assert_eq!(cycle.timer(), 0);
}

#[test]
fn frame_waits_until_more_than_its_delay_has_passed() {
    let animations = walk_and_idle();
    let (store, loaded) = sounds();
    let mut cycle = AnimationCycle::new("walk");
    let update = cycle_animations(&animations, &mut cycle, true, 50, &store, &loaded);
    assert_eq!(update, CycleUpdate::Waiting);
    assert_eq!(cycle.timer(), 50);
    let update = cycle_animations(&animations, &mut cycle, true, 50, &store, &loaded);
    assert_eq!(update, CycleUpdate::Waiting);
    assert_eq!(cycle.timer(), 100);
    assert_eq!(cycle.current_frame(), 0);
    let update = cycle_animations(&animations, &mut cycle, true, 1, &store, &loaded);
    assert_eq!(update, CycleUpdate::Fired { sprite_index: Some(4), sounds: vec![] });
    assert_eq!(cycle.timer(), 0);
    assert_eq!(cycle.current_frame(), 1);
    assert_eq!(cycle.animation_tag(), "walk");
}

#[test]
fn actions_are_carried_out_in_order() {
    let animations = walk_and_idle();
    let (store, loaded) = sounds();
    let mut cycle = AnimationCycle::new("walk");
    cycle_animations(&animations, &mut cycle, true, 101, &store, &loaded);
    let update = cycle_animations(&animations, &mut cycle, true, 101, &store, &loaded);
    assert_eq!(
        update,
        CycleUpdate::Fired { sprite_index: Some(3), sounds: vec![RawHandle { id: 11 }] }
    );
    assert_eq!(cycle.current_frame(), 0);
    assert_eq!(cycle.timer(), 0);
}

#[test]
fn unknown_animation_only_counts_time() {
    let animations = walk_and_idle();
    let (store, loaded) = sounds();
    let mut cycle = AnimationCycle::new("fly");
    let update = cycle_animations(&animations, &mut cycle, true, 500, &store, &loaded);
    assert_eq!(update, CycleUpdate::NotFound);
    assert_eq!(cycle.animation_tag(), "fly");
    assert_eq!(cycle.current_frame(), 0);
    assert_eq!(cycle.timer(), 500);
}

#[test]
fn frame_without_actions_only_restarts_the_timer() {
    let animations = walk_and_idle();
    let (store, loaded) = sounds();
    let mut cycle = AnimationCycle::new("idle");
    let update = cycle_animations(&animations, &mut cycle, true, 11, &store, &loaded);
    assert_eq!(update, CycleUpdate::Fired { sprite_index: None, sounds: vec![] });
    assert_eq!(cycle.current_frame(), 0);
    assert_eq!(cycle.timer(), 0);
}

#[test]
fn sprite_without_atlas_gets_no_tile() {
    let animations = walk_and_idle();
    let (store, loaded) = sounds();
    let mut cycle = AnimationCycle::new("walk");
    let update = cycle_animations(&animations, &mut cycle, false, 101, &store, &loaded);
    assert_eq!(update, CycleUpdate::Fired { sprite_index: None, sounds: vec![] });
    assert_eq!(cycle.current_frame(), 1);
}

#[test]
fn switching_animation_shows_a_tile_of_the_animation_that_was_running() {
    let animations = walk_and_idle();
    let (store, loaded) = sounds();
    let start = AnimationCycle::new("idle");
    let (at_frame_two, _) = try_cycle_animations(
        &Animations::new().with_animation(
            "idle",
            PerFrameAnimation::new(vec![AnimationFrame::new(
                0,
                0,
                vec![AnimationOption::GoToFrame(2)],
            )]),
        ),
        &start,
        false,
        1,
        &store,
        &loaded,
    )
    .unwrap();
    assert_eq!(at_frame_two.current_frame(), 2);
    let mut cycle = at_frame_two;
    let update = cycle_animations(&animations, &mut cycle, true, 1, &store, &loaded);
    assert_eq!(
        update,
        CycleUpdate::Fired {
            sprite_index: Some(8),
            sounds: vec![RawHandle { id: 11 }, RawHandle { id: 22 }],
        }
    );
    assert_eq!(cycle.animation_tag(), "walk");
    assert_eq!(cycle.current_frame(), 1);
    assert_eq!(cycle.timer(), 0);
}

#[test]
fn tick_that_cannot_be_carried_out_is_refused() {
    let (store, loaded) = sounds();
    let start = AnimationCycle::new("a");
    let past_the_end = Animations::new().with_animation(
        "a",
        PerFrameAnimation::new(vec![AnimationFrame::new(0, 0, vec![AnimationOption::NextFrame])]),
    );
    assert!(try_cycle_animations(&past_the_end, &start, true, 1, &store, &loaded).is_none());
    let (next, update) =
        try_cycle_animations(&past_the_end, &start, false, 1, &store, &loaded).unwrap();
    assert_eq!(update, CycleUpdate::Fired { sprite_index: None, sounds: vec![] });
    assert_eq!(next.current_frame(), 1);
    assert!(try_cycle_animations(&past_the_end, &next, false, 1, &store, &loaded).is_none());
    assert!(try_cycle_animations(&past_the_end, &next, false, 0, &store, &loaded).is_none());

    let no_frames = Animations::new().with_animation("a", PerFrameAnimation::new(vec![]));
    assert!(try_cycle_animations(&no_frames, &start, false, 0, &store, &loaded).is_none());

    let missing_sound = Animations::new().with_animation(
        "a",
        PerFrameAnimation::new(vec![AnimationFrame::new(
            0,
            0,
            vec![AnimationOption::PlaySound("nothing".to_string())],
        )]),
    );
    assert!(try_cycle_animations(&missing_sound, &start, true, 1, &store, &loaded).is_none());
    assert_eq!(
        try_cycle_animations(&missing_sound, &start, true, 0, &store, &loaded),
        Some((start.clone(), CycleUpdate::Waiting))
    );

    let unloaded_sound = Animations::new().with_animation(
        "a",
        PerFrameAnimation::new(vec![AnimationFrame::new(
            0,
            0,
            vec![AnimationOption::PlaySound("late".to_string())],
        )]),
    );
    assert!(try_cycle_animations(&unloaded_sound, &start, true, 1, &store, &loaded).is_none());
}

#[test]
fn timer_that_would_overflow_is_refused() {
    let animations = walk_and_idle();
    let (store, loaded) = sounds();
    let start = AnimationCycle::new("fly");
    let (full, update) =
        try_cycle_animations(&animations, &start, true, u128::MAX, &store, &loaded).unwrap();
    assert_eq!(update, CycleUpdate::NotFound);
    assert_eq!(full.timer(), u128::MAX);
    assert!(try_cycle_animations(&animations, &full, true, 1, &store, &loaded).is_none());
    let (same, _) = try_cycle_animations(&animations, &full, true, 0, &store, &loaded).unwrap();
    assert_eq!(same, full);
}

#[test]
fn try_cycle_leaves_the_cycle_it_was_given() {
    let animations = walk_and_idle();
    let (store, loaded) = sounds();
    let cycle = AnimationCycle::new("walk");
    let (next, update) =
        try_cycle_animations(&animations, &cycle, true, 101, &store, &loaded).unwrap();
    assert_eq!(update, CycleUpdate::Fired { sprite_index: Some(4), sounds: vec![] });
    assert_eq!(next.current_frame(), 1);
    assert_eq!(cycle, AnimationCycle::new("walk"));
}

#[test]
fn parallax_moves_when_its_time_has_come() {
    let mut timer = ParallaxTimer::new(30);
    assert_eq!(timer.elapsed(), 0);
    assert!(!timer.tick(10));
    assert_eq!(timer.elapsed(), 10);
    assert!(!timer.tick(19));
    assert_eq!(timer.elapsed(), 29);
    assert!(timer.tick(1));
    assert_eq!(timer.elapsed(), 0);
    assert!(timer.tick(45));
    assert_eq!(timer.elapsed(), 0);
    let mut always = ParallaxTimer::new(0);
    assert!(always.tick(0));
}
