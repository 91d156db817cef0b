use vstd::prelude::*;

use crate::actor::AnimatedActor;
use crate::choreography::{events_in, Choreography, ChoreographyEvent};

verus! {

/// What an identity of the world holds, as far as choreography goes.
#[derive(Debug)]
pub enum ActorSlot {
    /// The identity was destroyed.
    Vacant,
    /// A live identity that has never been staged.
    Bare,
    /// A live identity with its animation state.
    Staged(AnimatedActor),
}

/// Why an event could not reach its actor.
#[derive(Clone, Copy, Debug, PartialEq, Eq, Structural)]
pub enum LookupFailure {
    /// The index lies beyond the director's cast.
    OutsideCast,
    /// The identity at that index holds no animation state (never staged,
    /// destroyed, or unknown).
    NoActor,
}

/// A soft failure: recorded, and the choreography carries on.
#[derive(Clone, Copy, Debug, PartialEq, Eq, Structural)]
pub enum Warning {
    /// A choreography was staged on a cast of another size than it expects.
    ActorCountMismatch { got: usize, expected: usize },
    /// The actor at this cast index could not be reached.
    UnreachableActor { index: usize, failure: LookupFailure },
}

/// Whether identity `id` holds animation state.
pub open spec fn is_staged(actors: Seq<ActorSlot>, id: int) -> bool {
    0 <= id < actors.len() && actors[id] is Staged
}

/// The slots after one event that names an actor, and what it warned.
pub open spec fn apply_event(actors: Seq<ActorSlot>, cast: Seq<usize>, e: ChoreographyEvent) -> (
    Seq<ActorSlot>,
    Seq<Warning>,
) {
    let i = e.index().unwrap();
    if i >= cast.len() {
        (actors, seq![Warning::UnreachableActor { index: i, failure: LookupFailure::OutsideCast }])
    } else if is_staged(actors, cast[i as int] as int) {
        let id = cast[i as int] as int;
        (actors.update(id, ActorSlot::Staged(e.applied(actors[id]->Staged_0))), Seq::empty())
    } else {
        (actors, seq![Warning::UnreachableActor { index: i, failure: LookupFailure::NoActor }])
    }
}

/// The slots with every staged member of the cast made inactive.
pub open spec fn stop_cast(actors: Seq<ActorSlot>, cast: Seq<usize>) -> Seq<ActorSlot> {
    Seq::new(
        actors.len(),
        |j: int|
            if cast.contains(j as usize) && actors[j] is Staged {
                ActorSlot::Staged(AnimatedActor { active: false, ..actors[j]->Staged_0 })
            } else {
                actors[j]
            },
    )
}

/// One warning for each member of the cast, in cast order, that holds no
/// animation state.
pub open spec fn stop_warnings(actors: Seq<ActorSlot>, cast: Seq<usize>) -> Seq<Warning>
    decreases cast.len(),
{
    if cast.len() == 0 {
        Seq::empty()
    } else {
        let k = cast.len() - 1;
        let rest = stop_warnings(actors, cast.drop_last());
        if is_staged(actors, cast[k] as int) {
            rest
        } else {
            rest.push(Warning::UnreachableActor { index: k as usize, failure: LookupFailure::NoActor })
        }
    }
}

/// Dispatches `events` in order to the cast: the slots afterwards, whether
/// an `EndChoreography` was met, and the warnings. At `EndChoreography`
/// every member of the cast is stopped and the remaining events are dropped.
pub open spec fn run(actors: Seq<ActorSlot>, cast: Seq<usize>, events: Seq<ChoreographyEvent>) -> (
    Seq<ActorSlot>,
    bool,
    Seq<Warning>,
)
    decreases events.len(),
{
    if events.len() == 0 {
        (actors, false, Seq::empty())
    } else {
        let (a, ended, ws) = run(actors, cast, events.drop_last());
        if ended {
            (a, true, ws)
        } else if events.last() is EndChoreography {
            (stop_cast(a, cast), true, ws + stop_warnings(a, cast))
        } else {
            let (a2, w2) = apply_event(a, cast, events.last());
            (a2, false, ws + w2)
        }
    }
}

/// Once a prefix of the events ends the choreography, later events change
/// nothing.
pub proof fn lemma_run_ended(
    actors: Seq<ActorSlot>,
    cast: Seq<usize>,
    events: Seq<ChoreographyEvent>,
    k: int,
)
    requires
        0 <= k <= events.len(),
        run(actors, cast, events.take(k)).1,
    ensures
        run(actors, cast, events) == run(actors, cast, events.take(k)),
    decreases events.len() - k,
{
    if k < events.len() {
        assert(events.take(k + 1).drop_last() =~= events.take(k));
        assert(run(actors, cast, events.take(k + 1)) == run(actors, cast, events.take(k)));
        lemma_run_ended(actors, cast, events, k + 1);
    } else {
        assert(events.take(k) =~= events);
    }
}

/// An event whose index lies beyond the cast changes no actor and records
/// one warning naming the index.
pub proof fn lemma_bad_index_soft_fails(actors: Seq<ActorSlot>, cast: Seq<usize>, e: ChoreographyEvent)
    requires
        e.index() is Some,
        e.index().unwrap() >= cast.len(),
    ensures
        apply_event(actors, cast, e) == (
            actors,
            seq![Warning::UnreachableActor { index: e.index().unwrap(), failure: LookupFailure::OutsideCast }],
        ),
{
}

/// Without an `EndChoreography` among them, events never end the
/// choreography, whatever actors they fail to reach.
pub proof fn lemma_run_without_end(actors: Seq<ActorSlot>, cast: Seq<usize>, events: Seq<ChoreographyEvent>)
    requires
        forall|i: int| 0 <= i < events.len() ==> !(#[trigger] events[i] is EndChoreography),
    ensures
        !run(actors, cast, events).1,
    decreases events.len(),
{
    if events.len() > 0 {
        let rest = events.drop_last();
        assert forall|i: int| 0 <= i < rest.len() implies !(#[trigger] rest[i] is EndChoreography) by {
            assert(rest[i] == events[i]);
        }
        lemma_run_without_end(actors, cast, rest);
        assert(!(events[events.len() - 1] is EndChoreography));
    }
}

/// A prefix one longer holds what the shorter one holds and the next item.
pub proof fn lemma_take_contains(s: Seq<usize>, k: int, j: usize)
    requires
        0 <= k < s.len(),
    ensures
        s.take(k + 1).contains(j) == (s.take(k).contains(j) || s[k] == j),
{
    let longer = s.take(k + 1);
    let prev = s.take(k);
    if s[k] == j {
        assert(longer[k] == j);
    }
    if prev.contains(j) {
        let x = choose|x: int| 0 <= x < prev.len() && prev[x] == j;
        assert(longer[x] == j);
    }
    if longer.contains(j) {
        let x = choose|x: int| 0 <= x < longer.len() && longer[x] == j;
        if x < k {
            assert(prev[x] == j);
        }
    }
}

/// Runs one choreography against a cast of actor identities.
#[derive(Debug)]
pub struct Director {
    /// False once the choreography has ended.
    pub active: bool,
    /// Master clock in microseconds.
    pub time: i64,
    /// The cast: event indices are positions in this list.
    pub actors: Vec<usize>,
    pub choreography: Choreography,
}

impl Director {
    /// A new director at time zero.
    pub fn new(actors: Vec<usize>, choreography: Choreography) -> (r: Director)
        ensures
            r.active,
            r.time == 0,
            r.actors == actors,
            r.choreography == choreography,
    {
        Director { active: true, time: 0, actors, choreography }
    }

    /// The director and the slots after one frame of `dt` microseconds,
    /// whether it finished in that frame, and the warnings.
    pub open spec fn step(self, actors: Seq<ActorSlot>, dt: int) -> (
        Director,
        Seq<ActorSlot>,
        bool,
        Seq<Warning>,
    ) {
        if !self.active {
            (self, actors, false, Seq::empty())
        } else {
            let t0 = self.time as int;
            let events = events_in(self.choreography.data@, t0, t0 + dt);
            let (a, ended, ws) = run(actors, self.actors@, events);
            (Director { active: !ended, time: (t0 + dt) as i64, ..self }, a, ended, ws)
        }
    }

    /// The events whose timestamp lies in `[start, end)`, copied, in the
    /// order of the choreography's list.
    pub fn get_events_in_time_range(&self, start: i64, end: i64) -> (r: Vec<ChoreographyEvent>)
        ensures
            r@ == events_in(self.choreography.data@, start as int, end as int),
    {
        self.choreography.events_in_time_range(start, end)
    }

    /// Applies one event that names an actor.
    fn dispatch(&self, e: &ChoreographyEvent, actors: &mut Vec<ActorSlot>, warnings: &mut Vec<Warning>)
        requires
            e.index() is Some,
        ensures
            (final(actors)@, final(warnings)@) == ({
                let (a, w) = apply_event(old(actors)@, self.actors@, *e);
                (a, old(warnings)@ + w)
            }),
    {
        let index = match e.actor_index() {
            Some(i) => i,
            None => 0,
        };
        if index >= self.actors.len() {
            warnings.push(Warning::UnreachableActor { index, failure: LookupFailure::OutsideCast });
            return;
        }
        let id = self.actors[index];
        if id < actors.len() {
            let mut slot = ActorSlot::Vacant;
            std::mem::swap(&mut slot, &mut actors[id]);
            match slot {
                ActorSlot::Staged(mut a) => {
                    e.apply(&mut a);
                    actors[id] = ActorSlot::Staged(a);
                    proof {
                        assert(actors@ =~= apply_event(old(actors)@, self.actors@, *e).0);
                        assert(warnings@ =~= old(warnings)@ + Seq::<Warning>::empty());
                    }
                },
                other => {
                    actors[id] = other;
                    warnings.push(Warning::UnreachableActor { index, failure: LookupFailure::NoActor });
                    proof {
                        assert(actors@ =~= old(actors)@);
                    }
                },
            }
        } else {
            warnings.push(Warning::UnreachableActor { index, failure: LookupFailure::NoActor });
        }
    }

    /// Stops every staged member of the cast.
    fn stop_all(&self, actors: &mut Vec<ActorSlot>, warnings: &mut Vec<Warning>)
        ensures
            final(actors)@ == stop_cast(old(actors)@, self.actors@),
            final(warnings)@ == old(warnings)@ + stop_warnings(old(actors)@, self.actors@),
    {
        let ghost a0 = actors@;
        let ghost w0 = warnings@;
        let mut k: usize = 0;
        while k < self.actors.len()
            invariant
                k <= self.actors@.len(),
                actors@ == stop_cast(a0, self.actors@.take(k as int)),
                warnings@ == w0 + stop_warnings(a0, self.actors@.take(k as int)),
            decreases self.actors@.len() - k,
        {
            let id = self.actors[k];
            proof {
                assert(self.actors@.take(k + 1).drop_last() =~= self.actors@.take(k as int));
            }
            if id < actors.len() {
                let mut slot = ActorSlot::Vacant;
                std::mem::swap(&mut slot, &mut actors[id]);
                match slot {
                    ActorSlot::Staged(mut a) => {
                        a.active = false;
                        actors[id] = ActorSlot::Staged(a);
                    },
                    other => {
                        actors[id] = other;
                        warnings.push(Warning::UnreachableActor { index: k, failure: LookupFailure::NoActor });
                    },
                }
            } else {
                warnings.push(Warning::UnreachableActor { index: k, failure: LookupFailure::NoActor });
            }
            proof {
                let cast = self.actors@.take(k + 1);
                let prev = self.actors@.take(k as int);
                assert forall|j: int| 0 <= j < a0.len() implies #[trigger] cast.contains(j as usize)
                    == (prev.contains(j as usize) || j == id) by {
                    lemma_take_contains(self.actors@, k as int, j as usize);
                }
                assert(actors@ =~= stop_cast(a0, cast));
                assert(warnings@ =~= w0 + stop_warnings(a0, cast));
            }
            k = k + 1;
        }
        proof {
            assert(self.actors@.take(k as int) =~= self.actors@);
        }
    }

    /// One frame: advances the master clock by `dt` and dispatches, in list
    /// order, every event whose timestamp lies in the frame's window
    /// `[time, time + dt)`. Returns whether the choreography ended.
    pub fn direct(&mut self, dt: i64, actors: &mut Vec<ActorSlot>, warnings: &mut Vec<Warning>) -> (finished: bool)
        requires
            0 <= dt,
            old(self).active ==> old(self).time + dt <= i64::MAX,
        ensures
            ({
                let (d, a, ended, ws) = old(self).step(old(actors)@, dt as int);
                &&& *final(self) == d
                &&& final(actors)@ == a
                &&& finished == ended
                &&& final(warnings)@ == old(warnings)@ + ws
            }),
    {
        if !self.active {
            proof {
                assert(warnings@ =~= old(warnings)@ + Seq::<Warning>::empty());
            }
            return false;
        }
        let t0 = self.time;
        let t1 = t0 + dt;
        self.time = t1;
        let events = self.get_events_in_time_range(t0, t1);
        let ghost a0 = actors@;
        let ghost w0 = warnings@;
        let ghost cast = self.actors@;
        let mut i: usize = 0;
        let mut ended = false;
        while i < events.len() && !ended
            invariant
                i <= events@.len(),
                self.actors@ == cast,
                self.active,
                (actors@, ended, warnings@) == ({
                    let (a, e, ws) = run(a0, cast, events@.take(i as int));
                    (a, e, w0 + ws)
                }),
            decreases events@.len() - i,
        {
            let e = &events[i];
            proof {
                assert(events@.take(i + 1).drop_last() =~= events@.take(i as int));
                assert(events@.take(i + 1).last() == events@[i as int]);
            }
            match e {
                ChoreographyEvent::EndChoreography => {
                    self.stop_all(actors, warnings);
                    ended = true;
                    proof {
                        let (a, _, ws) = run(a0, cast, events@.take(i as int));
                        assert(warnings@ =~= w0 + (ws + stop_warnings(a, cast)));
                    }
                },
                _ => {
                    self.dispatch(e, actors, warnings);
                    proof {
                        let (a, _, ws) = run(a0, cast, events@.take(i as int));
                        let (_, w2) = apply_event(a, cast, *e);
                        assert(warnings@ =~= w0 + (ws + w2));
                    }
                },
            }
            i = i + 1;
        }
        proof {
            if ended {
                lemma_run_ended(a0, cast, events@, i as int);
            } else {
                assert(events@.take(i as int) =~= events@);
            }
        }
        if ended {
            self.active = false;
        }
        ended
    }
}

} // verus!
