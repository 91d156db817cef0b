use choreo::actor::AnimatedActor;
use choreo::choreography::{Choreography, ChoreographyEvent};
use choreo::director::{ActorSlot, Director, LookupFailure, Warning};
use choreo::geometry::Vec3;
use choreo::path::{AnimationPath, Curtain, Ellipse, Wave, WAVE_ONE};
use choreo::stage::{Frame, Stage};

const SECOND: i64 = 1_000_000;

fn choreography(n_actors: usize, data: Vec<(i64, ChoreographyEvent)>) -> Choreography {
    Choreography { n_actors, initial_position: Vec3::zero(), data }
}

/// One frame in the order the phases must run.
fn frame(stage: &mut Stage, dt: i64) -> (Vec<usize>, Vec<Frame>) {
    assert!(stage.can_advance(dt));
    let stopped = stage.direct_play(dt);
    let frames = stage.animate_transforms(dt);
    stage.clean_up(&stopped);
    (stopped, frames)
}

fn staged(offset: Vec3) -> ActorSlot {
    ActorSlot::Staged(AnimatedActor::new(offset))
}

fn actor_time(slot: &ActorSlot) -> i64 {
    match slot {
        ActorSlot::Staged(a) => a.time,
        _ => panic!("no animation state"),
    }
}

#[test]
fn event_window_inclusion() {
    let data = vec![
        (5 * SECOND, ChoreographyEvent::SetActorsTime(0, 111)),
        (6 * SECOND, ChoreographyEvent::SetActorsTime(0, 222)),
    ];
    let mut d = Director::new(vec![0], choreography(1, data));
    d.time = 5 * SECOND;
    assert_eq!(d.get_events_in_time_range(5 * SECOND, 6 * SECOND).len(), 1);
    let mut actors = vec![staged(Vec3::zero())];
    let mut warnings = Vec::new();
    assert!(!d.direct(SECOND, &mut actors, &mut warnings));
    assert_eq!(d.time, 6 * SECOND);
    assert_eq!(actor_time(&actors[0]), 111);
    assert!(!d.direct(SECOND, &mut actors, &mut warnings));
    assert_eq!(d.time, 7 * SECOND);
    assert_eq!(actor_time(&actors[0]), 222);
    assert!(warnings.is_empty());
}

#[test]
fn end_to_end_scenario() {
    let mut stage = Stage::new();
    let id = stage.add_entity();
    let data = vec![(0, ChoreographyEvent::ActivateActor(0)), (5 * SECOND, ChoreographyEvent::EndChoreography)];
    let d = stage.organize_play(choreography(1, data), vec![id]);
    assert!(stage.warnings.is_empty());

    let (stopped, frames) = frame(&mut stage, SECOND);
    assert!(stopped.is_empty());
    assert_eq!(frames, vec![Frame { actor: id, time: 0 }]);
    let a = stage.actor(id).unwrap();
    assert!(a.active);
    assert_eq!(a.time, SECOND);

    for k in 2..=5 {
        let (stopped, frames) = frame(&mut stage, SECOND);
        assert!(stopped.is_empty());
        assert_eq!(frames, vec![Frame { actor: id, time: (k - 1) * SECOND }]);
    }
    assert!(stage.has_director(d));
    assert_eq!(stage.directors[d].as_ref().unwrap().time, 5 * SECOND);

    // The window [5 s, 6 s) holds the end.
    let stopped = stage.direct_play(SECOND);
    assert_eq!(stopped, vec![d]);
    let a = stage.actor(id).unwrap();
    assert!(!a.active);
    assert!(!stage.directors[d].as_ref().unwrap().active);
    let frames = stage.animate_transforms(SECOND);
    assert!(frames.is_empty());
    stage.clean_up(&stopped);
    assert!(!stage.has_director(d));
    assert!(!stage.live(id));
    assert!(stage.actor(id).is_none());

    let (stopped, frames) = frame(&mut stage, SECOND);
    assert!(stopped.is_empty());
    assert!(frames.is_empty());
    assert!(stage.warnings.is_empty());
}

#[test]
fn soft_fail_on_bad_index() {
    let mut stage = Stage::new();
    let a = stage.add_entity();
    let b = stage.add_entity();
    let data = vec![
        (0, ChoreographyEvent::ActivateActor(3)),
        (0, ChoreographyEvent::ActivateActor(1)),
        (SECOND, ChoreographyEvent::SetActorsOffset(3, Vec3::new(1, 1, 1))),
        (SECOND, ChoreographyEvent::SetActorsTime(1, 42)),
    ];
    let d = stage.organize_play(choreography(2, data), vec![a, b]);
    let (stopped, frames) = frame(&mut stage, SECOND);
    assert!(stopped.is_empty());
    assert_eq!(frames, vec![Frame { actor: b, time: 0 }]);
    assert_eq!(
        stage.warnings,
        vec![Warning::UnreachableActor { index: 3, failure: LookupFailure::OutsideCast }]
    );
    let (stopped, _) = frame(&mut stage, SECOND);
    assert!(stopped.is_empty());
    assert_eq!(stage.warnings.len(), 2);
    assert_eq!(stage.warnings[1], Warning::UnreachableActor { index: 3, failure: LookupFailure::OutsideCast });
    // The director carried on and the later event reached actor 1.
    assert_eq!(stage.actor(b).unwrap().time, 42 + SECOND);
    assert!(!stage.actor(a).unwrap().active);
    assert!(stage.directors[d].as_ref().unwrap().active);
}

#[test]
fn mismatched_actor_count() {
    let mut stage = Stage::new();
    let a = stage.add_entity();
    let b = stage.add_entity();
    let spare = stage.add_entity();
    let mut c = choreography(3, vec![]);
    c.initial_position = Vec3::new(5, 6, 7);
    let d = stage.organize_play(c, vec![a, b]);
    assert_eq!(d, 0);
    assert_eq!(stage.directors.len(), 1);
    assert!(stage.has_director(d));
    assert_eq!(stage.warnings, vec![Warning::ActorCountMismatch { got: 2, expected: 3 }]);
    for id in [a, b] {
        let actor = stage.actor(id).unwrap();
        assert!(!actor.active);
        assert_eq!(actor.time, 0);
        assert_eq!(actor.offset, Vec3::new(5, 6, 7));
        assert_eq!(actor.get_current_point(&vec![]), Vec3::new(5, 6, 7));
    }
    assert!(stage.actor(spare).is_none());
    assert!(stage.live(spare));
}

#[test]
fn idempotent_position_read() {
    let mut stage = Stage::new();
    let id = stage.add_entity();
    let data = vec![
        (0, ChoreographyEvent::SetAnimation(0, AnimationPath::Ellipse(Ellipse::circle(2_000_000, 500_000)))),
        (0, ChoreographyEvent::ActivateActor(0)),
        (SECOND, ChoreographyEvent::DeactivateActor(0)),
    ];
    stage.organize_play(choreography(1, data), vec![id]);
    frame(&mut stage, SECOND);
    frame(&mut stage, SECOND);
    let w = vec![Wave { cos: -WAVE_ONE, sin: 0 }];
    let first = stage.actor(id).unwrap().get_current_point(&w);
    let (_, frames) = frame(&mut stage, SECOND);
    assert!(frames.is_empty());
    let second = stage.actor(id).unwrap().get_current_point(&w);
    assert_eq!(first, second);
    assert_eq!(first, Vec3::new(-2_000_000, 0, 0));
    assert_eq!(stage.actor(id).unwrap().time, SECOND);
}

#[test]
fn same_timestamp_events_keep_list_order() {
    let mut stage = Stage::new();
    let id = stage.add_entity();
    let data = vec![
        (SECOND, ChoreographyEvent::SetActorsTime(0, 9)),
        (0, ChoreographyEvent::SetActorsTime(0, 7)),
        (0, ChoreographyEvent::SetActorsTime(0, 9)),
    ];
    stage.organize_play(choreography(1, data), vec![id]);
    frame(&mut stage, SECOND);
    assert_eq!(stage.actor(id).unwrap().time, 9);

    let mut stage = Stage::new();
    let id = stage.add_entity();
    let data = vec![(0, ChoreographyEvent::SetActorsTime(0, 9)), (0, ChoreographyEvent::SetActorsTime(0, 7))];
    stage.organize_play(choreography(1, data), vec![id]);
    frame(&mut stage, SECOND);
    assert_eq!(stage.actor(id).unwrap().time, 7);
}

#[test]
fn events_after_the_end_are_dropped() {
    let mut stage = Stage::new();
    let id = stage.add_entity();
    let data = vec![
        (0, ChoreographyEvent::ActivateActor(0)),
        (0, ChoreographyEvent::EndChoreography),
        (0, ChoreographyEvent::SetActorsTime(0, 5)),
    ];
    let d = stage.organize_play(choreography(1, data), vec![id]);
    let stopped = stage.direct_play(SECOND);
    assert_eq!(stopped, vec![d]);
    let a = stage.actor(id).unwrap();
    assert!(!a.active);
    assert_eq!(a.time, 0);
    // A finished director that was not cleaned up stays still.
    assert!(stage.direct_play(SECOND).is_empty());
    assert_eq!(stage.directors[d].as_ref().unwrap().time, SECOND);
}

#[test]
fn events_reach_only_live_actors() {
    let mut stage = Stage::new();
    let a = stage.add_entity();
    let b = stage.add_entity();
    let data = vec![
        (0, ChoreographyEvent::ActivateActor(0)),
        (0, ChoreographyEvent::ActivateActor(1)),
        (SECOND, ChoreographyEvent::EndChoreography),
    ];
    let d = stage.organize_play(choreography(2, data), vec![a, b]);
    stage.actors[b] = ActorSlot::Vacant;
    frame(&mut stage, SECOND);
    assert_eq!(stage.warnings, vec![Warning::UnreachableActor { index: 1, failure: LookupFailure::NoActor }]);
    assert!(stage.actor(a).unwrap().active);
    let (stopped, _) = frame(&mut stage, SECOND);
    assert_eq!(stopped, vec![d]);
    assert_eq!(
        stage.warnings,
        vec![
            Warning::UnreachableActor { index: 1, failure: LookupFailure::NoActor },
            Warning::UnreachableActor { index: 1, failure: LookupFailure::NoActor },
        ]
    );
    assert!(!stage.live(a));
}

#[test]
fn events_apply_to_their_field() {
    let mut actor = AnimatedActor::new(Vec3::zero());
    ChoreographyEvent::ActivateActor(0).apply(&mut actor);
    assert!(actor.active);
    ChoreographyEvent::SetActorsTime(0, 1234).apply(&mut actor);
    assert_eq!(actor.time, 1234);
    ChoreographyEvent::SetActorsOffset(0, Vec3::new(1, 2, 3)).apply(&mut actor);
    assert_eq!(actor.offset, Vec3::new(1, 2, 3));
    let curtain = Curtain { movement: Vec3::new(0, 10, 0), half_time: SECOND };
    ChoreographyEvent::SetAnimation(0, AnimationPath::Curtain(curtain)).apply(&mut actor);
    // At 1234 us of a 1 s half-time the curtain is 10 * (1 - 0.001234)^2 = 9.97.. down, rounded down.
    assert_eq!(actor.get_current_point(&vec![]), Vec3::new(1, 11, 3));
    ChoreographyEvent::DeactivateActor(0).apply(&mut actor);
    assert!(!actor.active);
    assert_eq!(ChoreographyEvent::EndChoreography.actor_index(), None);
    assert_eq!(ChoreographyEvent::SetActorsTime(4, 0).actor_index(), Some(4));
}

#[test]
fn duplicate_finished_signals_are_ignored() {
    let mut stage = Stage::new();
    let a = stage.add_entity();
    let other = stage.add_entity();
    let d1 = stage.organize_play(choreography(1, vec![(0, ChoreographyEvent::EndChoreography)]), vec![a]);
    let d2 = stage.organize_play(choreography(1, vec![]), vec![other]);
    let stopped = stage.direct_play(SECOND);
    assert_eq!(stopped, vec![d1]);
    stage.clean_up(&vec![d1, d1, 17]);
    assert!(!stage.has_director(d1));
    assert!(stage.has_director(d2));
    assert!(!stage.live(a));
    assert!(stage.live(other));
}

#[test]
fn directors_run_independently() {
    let mut stage = Stage::new();
    let a = stage.add_entity();
    let b = stage.add_entity();
    stage.organize_play(choreography(1, vec![(0, ChoreographyEvent::ActivateActor(0))]), vec![a]);
    stage.organize_play(choreography(1, vec![(2 * SECOND, ChoreographyEvent::ActivateActor(0))]), vec![b]);
    let (_, frames) = frame(&mut stage, SECOND);
    assert_eq!(frames, vec![Frame { actor: a, time: 0 }]);
    let (_, frames) = frame(&mut stage, SECOND);
    assert_eq!(frames, vec![Frame { actor: a, time: SECOND }]);
    let (_, frames) = frame(&mut stage, SECOND);
    assert_eq!(frames, vec![Frame { actor: a, time: 2 * SECOND }, Frame { actor: b, time: 0 }]);
}

#[test]
fn positions_follow_the_curtain() {
    let mut stage = Stage::new();
    let id = stage.add_entity();
    let curtain = Curtain { movement: Vec3::new(-8_000_000, 0, 0), half_time: 2_500_000 };
    let data = vec![
        (0, ChoreographyEvent::SetActorsOffset(0, Vec3::new(-4_000_000, 0, 0))),
        (0, ChoreographyEvent::SetAnimation(0, AnimationPath::Curtain(curtain))),
        (0, ChoreographyEvent::ActivateActor(0)),
    ];
    stage.organize_play(choreography(1, data), vec![id]);
    let mut seen = Vec::new();
    for _ in 0..3 {
        let (_, frames) = frame(&mut stage, 1_250_000);
        for f in frames {
            let actor = stage.actor(f.actor).unwrap();
            assert!(actor.within_limits());
            assert!(actor.phases_at(f.time).is_empty());
            seen.push(actor.point_at(f.time, &vec![]));
        }
    }
    assert_eq!(
        seen,
        vec![Vec3::new(-12_000_000, 0, 0), Vec3::new(-6_000_000, 0, 0), Vec3::new(-4_000_000, 0, 0)]
    );
}

#[test]
fn clock_overflow_is_detected() {
    let mut stage = Stage::new();
    let id = stage.add_entity();
    stage.organize_play(choreography(1, vec![(0, ChoreographyEvent::ActivateActor(0))]), vec![id]);
    assert!(stage.can_advance(SECOND));
    frame(&mut stage, SECOND);
    assert!(!stage.can_advance(i64::MAX));
}
