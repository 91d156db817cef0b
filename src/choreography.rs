use vstd::prelude::*;

use crate::actor::AnimatedActor;
use crate::geometry::Vec3;
use crate::path::AnimationPath;

verus! {

/// One second, in the microseconds that clocks count.
pub const SECOND: i64 = 1000000;

/// One step of a choreography. Every event but `EndChoreography` names an
/// actor by its position in the director's cast.
#[derive(Debug)]
pub enum ChoreographyEvent {
    /// Starts the actor's animation.
    ActivateActor(usize),
    /// Stops the actor's animation.
    DeactivateActor(usize),
    /// Gives the actor a new path.
    SetAnimation(usize, AnimationPath),
    /// Sets the actor's local clock, in microseconds.
    SetActorsTime(usize, i64),
    /// Sets the actor's origin.
    SetActorsOffset(usize, Vec3),
    /// Ends the choreography.
    EndChoreography,
}

impl ChoreographyEvent {
    /// The cast position the event names; none for `EndChoreography`.
    pub open spec fn index(&self) -> Option<usize> {
        match self {
            ChoreographyEvent::ActivateActor(i) => Some(*i),
            ChoreographyEvent::DeactivateActor(i) => Some(*i),
            ChoreographyEvent::SetAnimation(i, _) => Some(*i),
            ChoreographyEvent::SetActorsTime(i, _) => Some(*i),
            ChoreographyEvent::SetActorsOffset(i, _) => Some(*i),
            ChoreographyEvent::EndChoreography => None,
        }
    }

    pub fn actor_index(&self) -> (r: Option<usize>)
        ensures
            r == self.index(),
    {
        match self {
            ChoreographyEvent::ActivateActor(i) => Some(*i),
            ChoreographyEvent::DeactivateActor(i) => Some(*i),
            ChoreographyEvent::SetAnimation(i, _) => Some(*i),
            ChoreographyEvent::SetActorsTime(i, _) => Some(*i),
            ChoreographyEvent::SetActorsOffset(i, _) => Some(*i),
            ChoreographyEvent::EndChoreography => None,
        }
    }

    /// The actor after the event: each event replaces one field.
    pub open spec fn applied(&self, a: AnimatedActor) -> AnimatedActor {
        match self {
            ChoreographyEvent::ActivateActor(_) => AnimatedActor { active: true, ..a },
            ChoreographyEvent::DeactivateActor(_) => AnimatedActor { active: false, ..a },
            ChoreographyEvent::SetAnimation(_, p) => AnimatedActor { animation: *p, ..a },
            ChoreographyEvent::SetActorsTime(_, t) => AnimatedActor { time: *t, ..a },
            ChoreographyEvent::SetActorsOffset(_, o) => AnimatedActor { offset: *o, ..a },
            ChoreographyEvent::EndChoreography => a,
        }
    }

    /// The event's path or offset, if it carries one, lies within the
    /// library's limits.
    pub open spec fn payload_fits(&self) -> bool {
        match self {
            ChoreographyEvent::SetAnimation(_, p) => p.fits(),
            ChoreographyEvent::SetActorsOffset(_, o) => o.is_bounded(),
            _ => true,
        }
    }

    pub fn payload_within_limits(&self) -> (r: bool)
        ensures
            r == self.payload_fits(),
    {
        match self {
            ChoreographyEvent::SetAnimation(_, p) => p.within_limits(),
            ChoreographyEvent::SetActorsOffset(_, o) => o.bounded(),
            _ => true,
        }
    }

    pub fn apply(&self, a: &mut AnimatedActor)
        ensures
            *final(a) == self.applied(*old(a)),
    {
        match self {
            ChoreographyEvent::ActivateActor(_) => a.active = true,
            ChoreographyEvent::DeactivateActor(_) => a.active = false,
            ChoreographyEvent::SetAnimation(_, p) => a.animation = p.clone(),
            ChoreographyEvent::SetActorsTime(_, t) => a.time = *t,
            ChoreographyEvent::SetActorsOffset(_, o) => a.offset = *o,
            ChoreographyEvent::EndChoreography => {},
        }
    }
}

impl Clone for ChoreographyEvent {
    /// A deep copy, paths included.
    fn clone(&self) -> (r: Self)
        ensures
            r == *self,
    {
        match self {
            ChoreographyEvent::ActivateActor(i) => ChoreographyEvent::ActivateActor(*i),
            ChoreographyEvent::DeactivateActor(i) => ChoreographyEvent::DeactivateActor(*i),
            ChoreographyEvent::SetAnimation(i, p) => ChoreographyEvent::SetAnimation(*i, p.clone()),
            ChoreographyEvent::SetActorsTime(i, t) => ChoreographyEvent::SetActorsTime(*i, *t),
            ChoreographyEvent::SetActorsOffset(i, o) => ChoreographyEvent::SetActorsOffset(*i, *o),
            ChoreographyEvent::EndChoreography => ChoreographyEvent::EndChoreography,
        }
    }
}

/// A script for a cast of actors: events with their timestamps in
/// microseconds, in any order. Timestamps may repeat.
#[derive(Debug)]
pub struct Choreography {
    /// How many actors the script expects.
    pub n_actors: usize,
    /// The origin every actor is staged at.
    pub initial_position: Vec3,
    pub data: Vec<(i64, ChoreographyEvent)>,
}

/// The events whose timestamp lies in `[start, end)`, in list order.
pub open spec fn events_in(data: Seq<(i64, ChoreographyEvent)>, start: int, end: int) -> Seq<
    ChoreographyEvent,
>
    decreases data.len(),
{
    if data.len() == 0 {
        Seq::empty()
    } else {
        let rest = events_in(data.drop_last(), start, end);
        let (ts, e) = data.last();
        if start <= ts < end {
            rest.push(e)
        } else {
            rest
        }
    }
}

/// A frame's window includes its start and excludes its end: an event at the
/// start of `[t0, t0 + dt)` is selected, and one at its end is selected by
/// the next window instead.
pub proof fn lemma_window_edges(e: ChoreographyEvent, t0: i64, dt: i64)
    requires
        dt > 0,
        t0 + 2 * dt <= i64::MAX,
    ensures
        events_in(seq![(t0, e)], t0 as int, t0 + dt) == seq![e],
        events_in(seq![((t0 + dt) as i64, e)], t0 as int, t0 + dt) == Seq::<ChoreographyEvent>::empty(),
        events_in(seq![((t0 + dt) as i64, e)], t0 + dt, t0 + 2 * dt) == seq![e],
{
    let a = seq![(t0, e)];
    let b = seq![((t0 + dt) as i64, e)];
    assert(a.drop_last() =~= Seq::<(i64, ChoreographyEvent)>::empty());
    assert(b.drop_last() =~= Seq::<(i64, ChoreographyEvent)>::empty());
    assert(Seq::<ChoreographyEvent>::empty().push(e) =~= seq![e]);
    assert(events_in(a.drop_last(), t0 as int, t0 + dt) == Seq::<ChoreographyEvent>::empty());
    assert(events_in(b.drop_last(), t0 as int, t0 + dt) == Seq::<ChoreographyEvent>::empty());
    assert(events_in(b.drop_last(), t0 + dt, t0 + 2 * dt) == Seq::<ChoreographyEvent>::empty());
    assert(a.last() == (t0, e));
    assert(b.last() == ((t0 + dt) as i64, e));
}

impl Choreography {
    /// Every event names an actor within the expected cast, and every path
    /// and offset it carries lies within the library's limits.
    pub open spec fn is_well_formed(&self) -> bool {
        forall|i: int|
            0 <= i < self.data@.len() ==> {
                let e = #[trigger] self.data@[i].1;
                &&& (e.index() is Some ==> e.index().unwrap() < self.n_actors)
                &&& e.payload_fits()
            }
    }

    pub fn well_formed(&self) -> (r: bool)
        ensures
            r == self.is_well_formed(),
    {
        let mut i: usize = 0;
        while i < self.data.len()
            invariant
                i <= self.data@.len(),
                forall|k: int|
                    0 <= k < i ==> {
                        let e = #[trigger] self.data@[k].1;
                        &&& (e.index() is Some ==> e.index().unwrap() < self.n_actors)
                        &&& e.payload_fits()
                    },
            decreases self.data@.len() - i,
        {
            let e = &self.data[i].1;
            match e.actor_index() {
                Some(index) => {
                    if index >= self.n_actors {
                        return false;
                    }
                },
                None => {},
            }
            if !e.payload_within_limits() {
                return false;
            }
            i = i + 1;
        }
        true
    }

    /// The events whose timestamp lies in `[start, end)`, copied, in the
    /// order of the list.
    pub fn events_in_time_range(&self, start: i64, end: i64) -> (r: Vec<ChoreographyEvent>)
        ensures
            r@ == events_in(self.data@, start as int, end as int),
    {
        let mut out: Vec<ChoreographyEvent> = Vec::new();
        let mut i: usize = 0;
        while i < self.data.len()
            invariant
                i <= self.data@.len(),
                out@ == events_in(self.data@.take(i as int), start as int, end as int),
            decreases self.data@.len() - i,
        {
            let entry = &self.data[i];
            proof {
                assert(self.data@.take(i + 1).drop_last() =~= self.data@.take(i as int));
            }
            if start <= entry.0 && entry.0 < end {
                out.push(entry.1.clone());
            }
            i = i + 1;
        }
        proof {
            assert(self.data@.take(i as int) =~= self.data@);
        }
        out
    }
}

} // verus!
