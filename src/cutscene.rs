use vstd::prelude::*;

use crate::choreography::{Choreography, ChoreographyEvent, SECOND};
use crate::geometry::{Vec3, COORD_LIMIT, UNIT};
use crate::path::{AnimationPath, Curtain, Ellipse, Stationary, Sum, HERTZ};

verus! {

/// Width of the cabin view, in coordinates.
pub const CABIN_WIDTH: i64 = 16 * UNIT;

/// How many collected thoughts take part in the cutscene, after the two
/// curtains.
pub const CUTSCENE_THOUGHTS: usize = 3;

/// The buttons of the cabin.
#[derive(Clone, Copy, Debug, PartialEq, Eq, Hash, Structural)]
pub enum ButtonType {
    MergeThoughts,
}

/// Whether a frame's button presses start the merge cutscene: one must ask
/// for it, and none may be running already.
pub fn cutscene_requested(director_present: bool, presses: &Vec<ButtonType>) -> (r: bool)
    ensures
        r == (!director_present && presses@.contains(ButtonType::MergeThoughts)),
{
    if director_present {
        return false;
    }
    let mut i: usize = 0;
    while i < presses.len()
        invariant
            !director_present,
            i <= presses@.len(),
            !presses@.take(i as int).contains(ButtonType::MergeThoughts),
        decreases presses@.len() - i,
    {
        if presses[i] == ButtonType::MergeThoughts {
            assert(presses@[i as int] == ButtonType::MergeThoughts);
            return true;
        }
        proof {
            assert forall|x: ButtonType| presses@.take(i + 1).contains(x) implies presses@.take(
                i as int,
            ).contains(x) || presses@[i as int] == x by {
                let k = choose|k: int| 0 <= k < i + 1 && #[trigger] presses@.take(i + 1)[k] == x;
                if k < i {
                    assert(presses@.take(i as int)[k] == x);
                }
            }
        }
        i = i + 1;
    }
    proof {
        assert(presses@.take(i as int) =~= presses@);
    }
    false
}

/// The cast of the cutscene: the left and right curtains, then the first
/// `CUTSCENE_THOUGHTS` thoughts.
pub fn cutscene_cast(left_curtain: usize, right_curtain: usize, thoughts: &Vec<usize>) -> (r: Vec<usize>)
    requires
        thoughts@.len() >= CUTSCENE_THOUGHTS,
    ensures
        r@ == seq![left_curtain, right_curtain] + thoughts@.take(CUTSCENE_THOUGHTS as int),
{
    let mut cast: Vec<usize> = Vec::new();
    cast.push(left_curtain);
    cast.push(right_curtain);
    let mut i: usize = 0;
    while i < CUTSCENE_THOUGHTS
        invariant
            i <= CUTSCENE_THOUGHTS <= thoughts@.len(),
            cast@ == seq![left_curtain, right_curtain] + thoughts@.take(i as int),
        decreases CUTSCENE_THOUGHTS - i,
    {
        cast.push(thoughts[i]);
        proof {
            assert(thoughts@.take(i + 1) =~= thoughts@.take(i as int).push(thoughts@[i as int]));
            assert(cast@ =~= seq![left_curtain, right_curtain] + thoughts@.take(i + 1));
        }
        i = i + 1;
    }
    cast
}

/// A circle in the X-Y plane, as a path.
fn circle_path(radius: i64, frequency: i64) -> (r: AnimationPath)
    requires
        0 <= radius <= 4 * UNIT,
    ensures
        r.fits(),
        r.is_bounded(),
        r.reach() == 2 * COORD_LIMIT,
        r.n_waves() == 1,
{
    AnimationPath::Ellipse(Ellipse::circle(radius, frequency))
}

/// The merge cutscene: two curtains close and open around three thoughts
/// that start orbiting one after another, change orbits, and end after
/// thirty seconds. Cast positions 0 and 1 are the curtains.
pub fn thought_cutscene() -> (r: Choreography)
    ensures
        r.n_actors == 2 + CUTSCENE_THOUGHTS,
        r.initial_position@ == (0int, 0int, 0int),
        r.is_well_formed(),
        r.data@.len() == 17,
        r.data@.last().0 == 30 * SECOND,
        r.data@.last().1 is EndChoreography,
{
    let half = CABIN_WIDTH / 2;
    let left = Curtain { movement: Vec3::new(0 - half, 0, 0), half_time: 5 * SECOND / 2 };
    let right = Curtain { movement: Vec3::new(half, 0, 0), half_time: 5 * SECOND / 2 };
    let orbit = AnimationPath::Ellipse(
        Ellipse {
            major_semiaxis: Vec3::new(4 * UNIT, 0, 0),
            minor_semiaxis: Vec3::new(2 * UNIT, 2 * UNIT, 0),
            frequency: HERTZ,
        },
    );
    assert(orbit.is_bounded() && orbit.reach() == 2 * COORD_LIMIT);
    let wild = AnimationPath::Sum(
        Sum { a: Box::new(circle_path(UNIT / 4, 4 * HERTZ)), b: Box::new(orbit) },
    );
    assert(wild.fits());
    let quarter = CABIN_WIDTH / 4;
    let left_offset = Vec3::new(0 - quarter, 0, 0);
    let right_offset = Vec3::new(quarter, 0, 0);
    let data = vec![
        (0, ChoreographyEvent::SetAnimation(2, AnimationPath::Stationary(Stationary))),
        (0, ChoreographyEvent::SetAnimation(3, circle_path(2 * UNIT, HERTZ / 2))),
        (0, ChoreographyEvent::SetAnimation(4, circle_path(3 * UNIT, HERTZ / 4))),
        (0, ChoreographyEvent::SetActorsOffset(0, left_offset)),
        (0, ChoreographyEvent::SetActorsOffset(1, right_offset)),
        (0, ChoreographyEvent::SetAnimation(0, AnimationPath::Curtain(left))),
        (0, ChoreographyEvent::SetAnimation(1, AnimationPath::Curtain(right))),
        (0, ChoreographyEvent::ActivateActor(0)),
        (0, ChoreographyEvent::ActivateActor(1)),
        (0, ChoreographyEvent::ActivateActor(2)),
        (5 * SECOND, ChoreographyEvent::ActivateActor(3)),
        (10 * SECOND, ChoreographyEvent::ActivateActor(4)),
        (15 * SECOND, ChoreographyEvent::SetAnimation(4, circle_path(UNIT, 2 * HERTZ))),
        (20 * SECOND, ChoreographyEvent::SetAnimation(3, wild)),
        (55 * SECOND / 2, ChoreographyEvent::SetActorsTime(0, 0)),
        (55 * SECOND / 2, ChoreographyEvent::SetActorsTime(1, 0)),
        (30 * SECOND, ChoreographyEvent::EndChoreography),
    ];
    Choreography { n_actors: 2 + CUTSCENE_THOUGHTS, initial_position: Vec3::zero(), data }
}

} // verus!
