use choreo::choreography::{ChoreographyEvent, SECOND};
use choreo::cutscene::{cutscene_cast, cutscene_requested, thought_cutscene, ButtonType, CUTSCENE_THOUGHTS};
use choreo::effects::{EffectCamera, VFXChangeSystemSet};
use choreo::geometry::{Vec3, UNIT};
use choreo::music::{next_track, song_score, TrackChange, POST_GAME_TRACKS};
use choreo::path::{Wave, WAVE_ONE};
use choreo::score::{add_event_scores, tick_counter};
use choreo::stage::Stage;
use choreo::texture::striped_texture_data;
use choreo::thoughts::{Emotion, Thought, ThoughtLibrary, ThoughtWord, LIBRARY_SIZE};

#[test]
fn cutscene_needs_a_press_and_no_running_director() {
    assert!(cutscene_requested(false, &vec![ButtonType::MergeThoughts]));
    assert!(!cutscene_requested(true, &vec![ButtonType::MergeThoughts]));
    assert!(!cutscene_requested(false, &vec![]));
}

#[test]
fn cutscene_cast_puts_curtains_first() {
    assert_eq!(cutscene_cast(7, 8, &vec![1, 2, 3, 4]), vec![7, 8, 1, 2, 3]);
    assert_eq!(cutscene_cast(0, 1, &vec![5, 6, 9]), vec![0, 1, 5, 6, 9]);
}

#[test]
fn cutscene_script_is_well_formed() {
    let c = thought_cutscene();
    assert_eq!(c.n_actors, 2 + CUTSCENE_THOUGHTS);
    assert_eq!(c.initial_position, Vec3::zero());
    assert_eq!(c.data.len(), 17);
    assert!(c.well_formed());
    assert_eq!(c.data[16].0, 30 * SECOND);
    assert!(matches!(c.data[16].1, ChoreographyEvent::EndChoreography));
    assert_eq!(c.data[14].0, 27 * SECOND + SECOND / 2);
    let mut bad = thought_cutscene();
    bad.n_actors = 4;
    assert!(!bad.well_formed());
}

#[test]
fn cutscene_runs_to_its_end() {
    let mut stage = Stage::new();
    let cast: Vec<usize> = (0..5).map(|_| stage.add_entity()).collect();
    let d = stage.organize_play(thought_cutscene(), cast.clone());
    assert!(stage.warnings.is_empty());
    let dt = SECOND / 2;
    let mut frames_done = 0;
    let mut finished_at = None;
    while finished_at.is_none() && frames_done < 100 {
        let stopped = stage.direct_play(dt);
        let frames = stage.animate_transforms(dt);
        for f in frames {
            let actor = stage.actor(f.actor).unwrap();
            assert!(actor.within_limits());
            let waves: Vec<Wave> = actor.phases_at(f.time).iter().map(|_| Wave { cos: WAVE_ONE, sin: 0 }).collect();
            actor.point_at(f.time, &waves);
        }
        stage.clean_up(&stopped);
        frames_done += 1;
        if stopped == vec![d] {
            finished_at = Some(frames_done);
        }
    }
    // The end at 30 s lies in the window [30 s, 30.5 s), the 61st frame.
    assert_eq!(finished_at, Some(61));
    assert!(stage.warnings.is_empty());
    for id in cast {
        assert!(!stage.live(id));
    }
}

#[test]
fn curtains_start_at_their_offsets() {
    let mut stage = Stage::new();
    let cast: Vec<usize> = (0..5).map(|_| stage.add_entity()).collect();
    stage.organize_play(thought_cutscene(), cast.clone());
    stage.direct_play(SECOND);
    let left = stage.actor(cast[0]).unwrap();
    assert_eq!(left.get_current_point(&vec![]), Vec3::new(-12 * UNIT, 0, 0));
    let right = stage.actor(cast[1]).unwrap();
    assert_eq!(right.point_at(5 * SECOND / 2, &vec![]), Vec3::new(4 * UNIT, 0, 0));
}

#[test]
fn track_progresses_with_score() {
    assert_eq!(song_score(0), 0);
    assert_eq!(song_score(3), 700000);
    assert_eq!(next_track(0, 0, false), TrackChange::Keep);
    assert_eq!(next_track(50, 0, false), TrackChange::Keep);
    assert_eq!(next_track(100001, 0, false), TrackChange::Progress(1));
    assert_eq!(next_track(100000, 0, false), TrackChange::Keep);
    assert_eq!(next_track(800000, 1, false), TrackChange::Progress(3));
    assert_eq!(next_track(800000, 3, true), TrackChange::Keep);
    assert_eq!(next_track(300001, 3, false), TrackChange::Keep);
}

#[test]
fn post_game_music() {
    assert_eq!(next_track(1000001, 3, false), TrackChange::Ending);
    assert_eq!(next_track(1000001, POST_GAME_TRACKS, false), TrackChange::Keep);
    assert_eq!(next_track(1000001, POST_GAME_TRACKS, true), TrackChange::Jukebox);
    assert_eq!(next_track(1000000, 3, true), TrackChange::Keep);
}

#[test]
fn striped_texture_rows_rotate() {
    let data = striped_texture_data();
    assert_eq!(data.len(), 256);
    let palette: [u8; 32] = [
        255, 102, 159, 255, 255, 159, 102, 255, 236, 255, 102, 255, 121, 255, 102, 255, 102, 255, 198, 255, 102,
        198, 255, 255, 121, 102, 255, 255, 236, 102, 255, 255,
    ];
    let mut row = palette;
    for y in 0..8 {
        assert_eq!(&data[32 * y..32 * y + 32], &row[..]);
        row.rotate_right(4);
    }
}

#[test]
fn score_rules() {
    assert_eq!(tick_counter(0), 1);
    assert_eq!(tick_counter(u32::MAX), u32::MAX);
    assert_eq!(add_event_scores(5, 2, 1), 5 + 20000 + 100000);
    assert_eq!(add_event_scores(7, 0, 0), 7);
    assert_eq!(add_event_scores(u32::MAX - 5, 1, 0), u32::MAX);
}

#[test]
fn thought_library() {
    let lib = ThoughtLibrary::new();
    assert_eq!(lib.n_thoughts(), LIBRARY_SIZE);
    let first = lib.get_thought_by_index(0);
    assert_eq!(first.image, "thoughts/images/openclipart/abstract_343040.png");
    assert_eq!(first.word, ThoughtWord::Noun("The House of the Bird".to_string()));
    assert_eq!(first.emotion, Emotion::Positive);
    assert_eq!(first.intensity, 1);
    assert_eq!(lib.pick(LIBRARY_SIZE + 1), lib.get_thought_by_index(1));
    assert_eq!(lib.pick(1).intensity, 2);
    let last = lib.get_thought_by_index(LIBRARY_SIZE - 1);
    assert_eq!(last.word, ThoughtWord::Noun("nature".to_string()));
    let t = Thought::new("a.png".to_string(), Some("a.ogg".to_string()), 3, Emotion::Negative, ThoughtWord::Verb("x".to_string()));
    assert_eq!(t.clone(), t);
    assert_eq!(ThoughtLibrary::default().n_thoughts(), LIBRARY_SIZE);
}

#[test]
fn effect_markers() {
    assert_eq!(VFXChangeSystemSet, VFXChangeSystemSet::default());
    assert_eq!(EffectCamera, EffectCamera::default());
}

#[test]
fn random_thought_comes_from_the_library() {
    let lib = ThoughtLibrary::new();
    let all: Vec<Thought> = (0..lib.n_thoughts()).map(|i| lib.get_thought_by_index(i)).collect();
    for _ in 0..20 {
        let t = lib.random_thought();
        assert!(all.contains(&t));
    }
}
