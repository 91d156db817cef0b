use vstd::prelude::*;

use crate::actor::AnimatedActor;
use crate::choreography::Choreography;
use crate::director::{is_staged, lemma_take_contains, ActorSlot, Director, Warning};
use crate::path::Wave;

verus! {

/// An actor whose position is due this frame, and the local time at which
/// to take it.
#[derive(Clone, Copy, Debug, PartialEq, Eq, Structural)]
pub struct Frame {
    pub actor: usize,
    pub time: i64,
}

/// The world as choreography sees it: identities of actors and directors
/// are indices into these lists, and a destroyed one leaves its index empty.
#[derive(Debug)]
pub struct Stage {
    pub actors: Vec<ActorSlot>,
    pub directors: Vec<Option<Director>>,
    /// Soft failures, oldest first.
    pub warnings: Vec<Warning>,
}

/// The slots with every listed identity given fresh animation state at
/// `offset`.
pub open spec fn stage_cast(actors: Seq<ActorSlot>, ids: Seq<usize>, offset: crate::geometry::Vec3) -> Seq<
    ActorSlot,
> {
    Seq::new(
        actors.len(),
        |j: int|
            if ids.contains(j as usize) {
                ActorSlot::Staged(AnimatedActor::fresh(offset))
            } else {
                actors[j]
            },
    )
}

/// The warning that staging records: one when the cast differs in size from
/// what the choreography expects.
pub open spec fn staging_warnings(got: usize, expected: usize) -> Seq<Warning> {
    if got != expected {
        seq![Warning::ActorCountMismatch { got, expected }]
    } else {
        Seq::empty()
    }
}

/// Every active director's clock can advance by `dt`.
pub open spec fn director_clocks_fit(directors: Seq<Option<Director>>, dt: int) -> bool {
    forall|k: int|
        0 <= k < directors.len() && #[trigger] directors[k] is Some && directors[k]->Some_0.active
            ==> directors[k]->Some_0.time + dt <= i64::MAX
}

/// Every active actor's clock can advance by `dt`.
pub open spec fn actor_clocks_fit(actors: Seq<ActorSlot>, dt: int) -> bool {
    forall|j: int|
        0 <= j < actors.len() && #[trigger] actors[j] is Staged && actors[j]->Staged_0.active
            ==> actors[j]->Staged_0.time + dt <= i64::MAX
}

/// Each director in turn plays one frame of `dt`, each seeing the actors as
/// the ones before it left them: the directors and slots afterwards, the
/// directors that finished (by index, in order), and the warnings.
pub open spec fn play(actors: Seq<ActorSlot>, directors: Seq<Option<Director>>, dt: int) -> (
    Seq<Option<Director>>,
    Seq<ActorSlot>,
    Seq<usize>,
    Seq<Warning>,
)
    decreases directors.len(),
{
    if directors.len() == 0 {
        (Seq::empty(), actors, Seq::empty(), Seq::empty())
    } else {
        let k = directors.len() - 1;
        let (ds, a, stopped, ws) = play(actors, directors.drop_last(), dt);
        match directors.last() {
            None => (ds.push(None), a, stopped, ws),
            Some(d) => {
                let (d2, a2, ended, w2) = d.step(a, dt);
                (
                    ds.push(Some(d2)),
                    a2,
                    if ended {
                        stopped.push(k as usize)
                    } else {
                        stopped
                    },
                    ws + w2,
                )
            },
        }
    }
}

/// A slot after one frame of the animation driver: an active actor's clock
/// advances by `dt`; anything else is left as it is.
pub open spec fn advanced(slot: ActorSlot, dt: int) -> ActorSlot {
    match slot {
        ActorSlot::Staged(a) => if a.active {
            ActorSlot::Staged(AnimatedActor { time: (a.time + dt) as i64, ..a })
        } else {
            slot
        },
        _ => slot,
    }
}

pub open spec fn advance_all(actors: Seq<ActorSlot>, dt: int) -> Seq<ActorSlot> {
    Seq::new(actors.len(), |j: int| advanced(actors[j], dt))
}

/// The active actors, in index order, with their local times.
pub open spec fn frames_of(actors: Seq<ActorSlot>) -> Seq<Frame>
    decreases actors.len(),
{
    if actors.len() == 0 {
        Seq::empty()
    } else {
        let k = actors.len() - 1;
        let rest = frames_of(actors.drop_last());
        match actors.last() {
            ActorSlot::Staged(a) => if a.active {
                rest.push(Frame { actor: k as usize, time: a.time })
            } else {
                rest
            },
            _ => rest,
        }
    }
}

/// The slots with every listed identity destroyed.
pub open spec fn vacate(actors: Seq<ActorSlot>, ids: Seq<usize>) -> Seq<ActorSlot> {
    Seq::new(
        actors.len(),
        |j: int|
            if ids.contains(j as usize) {
                ActorSlot::Vacant
            } else {
                actors[j]
            },
    )
}

/// Handles one finished signal: a director that still exists is destroyed
/// with its whole cast; a signal for one that is gone changes nothing.
pub open spec fn clean_one(actors: Seq<ActorSlot>, directors: Seq<Option<Director>>, d: usize) -> (
    Seq<ActorSlot>,
    Seq<Option<Director>>,
) {
    if d < directors.len() && directors[d as int] is Some {
        (vacate(actors, directors[d as int]->Some_0.actors@), directors.update(d as int, None))
    } else {
        (actors, directors)
    }
}

/// Handles the finished signals in order.
pub open spec fn clean_all(actors: Seq<ActorSlot>, directors: Seq<Option<Director>>, signals: Seq<usize>) -> (
    Seq<ActorSlot>,
    Seq<Option<Director>>,
)
    decreases signals.len(),
{
    if signals.len() == 0 {
        (actors, directors)
    } else {
        let (a, ds) = clean_all(actors, directors, signals.drop_last());
        clean_one(a, ds, signals.last())
    }
}

impl Stage {
    /// An empty world.
    pub fn new() -> (r: Stage)
        ensures
            r.actors@.len() == 0,
            r.directors@.len() == 0,
            r.warnings@.len() == 0,
    {
        Stage { actors: Vec::new(), directors: Vec::new(), warnings: Vec::new() }
    }

    /// Creates a new identity, not yet staged, and returns it.
    pub fn add_entity(&mut self) -> (id: usize)
        ensures
            id == old(self).actors@.len(),
            final(self).actors@ == old(self).actors@.push(ActorSlot::Bare),
            final(self).directors == old(self).directors,
            final(self).warnings == old(self).warnings,
    {
        let id = self.actors.len();
        self.actors.push(ActorSlot::Bare);
        id
    }

    /// Whether `id` names an identity that has not been destroyed.
    pub open spec fn is_live(&self, id: int) -> bool {
        0 <= id < self.actors@.len() && !(self.actors@[id] is Vacant)
    }

    pub fn live(&self, id: usize) -> (r: bool)
        ensures
            r == self.is_live(id as int),
    {
        if id < self.actors.len() {
            match &self.actors[id] {
                ActorSlot::Vacant => false,
                _ => true,
            }
        } else {
            false
        }
    }

    /// The animation state at identity `id`, if it has any.
    pub fn actor(&self, id: usize) -> (r: Option<&AnimatedActor>)
        ensures
            r is Some == is_staged(self.actors@, id as int),
            r is Some ==> *r->Some_0 == self.actors@[id as int]->Staged_0,
    {
        if id < self.actors.len() {
            match &self.actors[id] {
                ActorSlot::Staged(a) => Some(a),
                _ => None,
            }
        } else {
            None
        }
    }

    /// Whether director `d` still exists.
    pub fn has_director(&self, d: usize) -> (r: bool)
        ensures
            r == (d < self.directors@.len() && self.directors@[d as int] is Some),
    {
        d < self.directors.len() && self.directors[d].is_some()
    }

    /// Stages `choreography` on the identities `actors_entities`: each gets
    /// fresh animation state at the choreography's initial position, and a
    /// new director starts at time zero. A cast of another size than the
    /// choreography expects is recorded as a warning, and staging goes on.
    /// Returns the new director's identity.
    pub fn organize_play(&mut self, choreography: Choreography, actors_entities: Vec<usize>) -> (director: usize)
        requires
            forall|i: int|
                0 <= i < actors_entities@.len() ==> old(self).is_live(#[trigger] actors_entities@[i] as int),
        ensures
            director == old(self).directors@.len(),
            final(self).directors@ == old(self).directors@.push(
                Some(Director { active: true, time: 0, actors: actors_entities, choreography }),
            ),
            final(self).actors@ == stage_cast(
                old(self).actors@,
                actors_entities@,
                choreography.initial_position,
            ),
            final(self).warnings@ == old(self).warnings@ + staging_warnings(
                actors_entities@.len() as usize,
                choreography.n_actors,
            ),
    {
        if actors_entities.len() != choreography.n_actors {
            self.warnings.push(
                Warning::ActorCountMismatch { got: actors_entities.len(), expected: choreography.n_actors },
            );
        }
        proof {
            assert(self.warnings@ =~= old(self).warnings@ + staging_warnings(
                actors_entities@.len() as usize,
                choreography.n_actors,
            ));
        }
        let ghost a0 = self.actors@;
        let ghost ids = actors_entities@;
        let _ = self.actors.len();
        let offset = choreography.initial_position;
        let mut k: usize = 0;
        while k < actors_entities.len()
            invariant
                k <= ids.len(),
                ids == actors_entities@,
                offset == choreography.initial_position,
                self.actors@ == stage_cast(a0, ids.take(k as int), offset),
                forall|i: int| 0 <= i < ids.len() ==> (#[trigger] ids[i] as int) < a0.len(),
                a0.len() <= usize::MAX,
                self.directors == old(self).directors,
                self.warnings@ == old(self).warnings@ + staging_warnings(
                    actors_entities@.len() as usize,
                    choreography.n_actors,
                ),
            decreases ids.len() - k,
        {
            let id = actors_entities[k];
            assert(id < a0.len());
            self.actors[id] = ActorSlot::Staged(AnimatedActor::new(offset));
            proof {
                assert forall|j: int| 0 <= j < a0.len() implies #[trigger] ids.take(k + 1).contains(
                    j as usize,
                ) == (ids.take(k as int).contains(j as usize) || j == id) by {
                    lemma_take_contains(ids, k as int, j as usize);
                }
                assert(self.actors@ =~= stage_cast(a0, ids.take(k + 1), offset));
            }
            k = k + 1;
        }
        proof {
            assert(ids.take(k as int) =~= ids);
        }
        let director = self.directors.len();
        self.directors.push(Some(Director::new(actors_entities, choreography)));
        director
    }

    /// Whether every clock can advance by `dt` without overflow.
    pub open spec fn clocks_fit(&self, dt: int) -> bool {
        director_clocks_fit(self.directors@, dt) && actor_clocks_fit(self.actors@, dt)
    }

    pub fn can_advance(&self, dt: i64) -> (r: bool)
        requires
            0 <= dt,
        ensures
            r == self.clocks_fit(dt as int),
    {
        let mut k: usize = 0;
        while k < self.directors.len()
            invariant
                k <= self.directors@.len(),
                0 <= dt,
                forall|i: int|
                    0 <= i < k && #[trigger] self.directors@[i] is Some
                        && self.directors@[i]->Some_0.active ==> self.directors@[i]->Some_0.time
                        + dt <= i64::MAX,
            decreases self.directors@.len() - k,
        {
            match &self.directors[k] {
                Some(d) => {
                    if d.active && d.time > i64::MAX - dt {
                        return false;
                    }
                },
                None => {},
            }
            k = k + 1;
        }
        let mut j: usize = 0;
        while j < self.actors.len()
            invariant
                j <= self.actors@.len(),
                0 <= dt,
                director_clocks_fit(self.directors@, dt as int),
                forall|i: int|
                    0 <= i < j && #[trigger] self.actors@[i] is Staged
                        && self.actors@[i]->Staged_0.active ==> self.actors@[i]->Staged_0.time + dt
                        <= i64::MAX,
            decreases self.actors@.len() - j,
        {
            match &self.actors[j] {
                ActorSlot::Staged(a) => {
                    if a.active && a.time > i64::MAX - dt {
                        return false;
                    }
                },
                _ => {},
            }
            j = j + 1;
        }
        true
    }

    /// First phase of a frame: every director, in index order, advances its
    /// clock by `dt` and dispatches the events due in its window. Returns
    /// the directors that finished in this frame.
    pub fn direct_play(&mut self, dt: i64) -> (stopped: Vec<usize>)
        requires
            0 <= dt,
            director_clocks_fit(old(self).directors@, dt as int),
        ensures
            ({
                let (ds, a, st, ws) = play(old(self).actors@, old(self).directors@, dt as int);
                &&& final(self).directors@ == ds
                &&& final(self).actors@ == a
                &&& stopped@ == st
                &&& final(self).warnings@ == old(self).warnings@ + ws
            }),
    {
        let ghost a0 = self.actors@;
        let ghost d0 = self.directors@;
        let ghost w0 = self.warnings@;
        let mut stopped: Vec<usize> = Vec::new();
        let mut k: usize = 0;
        while k < self.directors.len()
            invariant
                k <= d0.len(),
                self.directors@.len() == d0.len(),
                director_clocks_fit(d0, dt as int),
                0 <= dt,
                ({
                    let (ds, a, st, ws) = play(a0, d0.take(k as int), dt as int);
                    &&& self.directors@ == ds + d0.skip(k as int)
                    &&& self.actors@ == a
                    &&& stopped@ == st
                    &&& self.warnings@ == w0 + ws
                }),
            decreases d0.len() - k,
        {
            proof {
                lemma_play_len(a0, d0.take(k as int), dt as int);
                assert(d0.take(k + 1).drop_last() =~= d0.take(k as int));
                assert(self.directors@[k as int] == d0[k as int]);
            }
            let mut slot: Option<Director> = None;
            std::mem::swap(&mut slot, &mut self.directors[k]);
            match slot {
                Some(mut d) => {
                    let finished = d.direct(dt, &mut self.actors, &mut self.warnings);
                    if finished {
                        stopped.push(k);
                    }
                    self.directors[k] = Some(d);
                },
                None => {
                    self.directors[k] = None;
                },
            }
            proof {
                let (_, a, _, ws) = play(a0, d0.take(k as int), dt as int);
                assert(self.directors@ =~= play(a0, d0.take(k + 1), dt as int).0 + d0.skip(k + 1));
                if let Some(d) = d0[k as int] {
                    let (_, _, _, w2) = d.step(a, dt as int);
                    assert(self.warnings@ =~= w0 + (ws + w2));
                }
            }
            k = k + 1;
        }
        proof {
            assert(d0.take(k as int) =~= d0);
            assert(d0.skip(k as int) =~= Seq::<Option<Director>>::empty());
            let (ds, _, _, _) = play(a0, d0, dt as int);
            assert(ds + d0.skip(k as int) =~= ds);
        }
        stopped
    }

    /// Second phase of a frame: every active actor's clock advances by `dt`.
    /// Returns, for each active actor in index order, the local time at
    /// which its position is to be taken this frame (the time before the
    /// advance). Inactive actors hold still.
    pub fn animate_transforms(&mut self, dt: i64) -> (frames: Vec<Frame>)
        requires
            actor_clocks_fit(old(self).actors@, dt as int),
            0 <= dt,
        ensures
            final(self).actors@ == advance_all(old(self).actors@, dt as int),
            frames@ == frames_of(old(self).actors@),
            final(self).directors == old(self).directors,
            final(self).warnings == old(self).warnings,
    {
        let ghost a0 = self.actors@;
        let mut frames: Vec<Frame> = Vec::new();
        let mut j: usize = 0;
        while j < self.actors.len()
            invariant
                j <= a0.len(),
                0 <= dt,
                self.actors@.len() == a0.len(),
                actor_clocks_fit(a0, dt as int),
                self.directors == old(self).directors,
                self.warnings == old(self).warnings,
                forall|i: int| 0 <= i < j ==> #[trigger] self.actors@[i] == advanced(a0[i], dt as int),
                forall|i: int| j <= i < a0.len() ==> #[trigger] self.actors@[i] == a0[i],
                frames@ == frames_of(a0.take(j as int)),
            decreases a0.len() - j,
        {
            proof {
                assert(a0.take(j + 1).drop_last() =~= a0.take(j as int));
                assert(a0.take(j + 1).last() == a0[j as int]);
            }
            let mut slot = ActorSlot::Vacant;
            std::mem::swap(&mut slot, &mut self.actors[j]);
            match slot {
                ActorSlot::Staged(mut a) => {
                    assert(a0[j as int] is Staged);
                    if a.active {
                        frames.push(Frame { actor: j, time: a.time });
                        a.time = a.time + dt;
                    }
                    self.actors[j] = ActorSlot::Staged(a);
                },
                other => {
                    self.actors[j] = other;
                },
            }
            j = j + 1;
        }
        proof {
            assert(a0.take(j as int) =~= a0);
            assert(self.actors@ =~= advance_all(a0, dt as int));
        }
        frames
    }

    /// Third phase of a frame: for each finished signal, in order, a
    /// director that still exists is destroyed together with every identity
    /// of its cast. Signals for directors already gone are ignored.
    pub fn clean_up(&mut self, stopped: &Vec<usize>)
        ensures
            (final(self).actors@, final(self).directors@) == clean_all(
                old(self).actors@,
                old(self).directors@,
                stopped@,
            ),
            final(self).warnings == old(self).warnings,
    {
        let ghost sigs = stopped@;
        let mut i: usize = 0;
        while i < stopped.len()
            invariant
                i <= sigs.len(),
                sigs == stopped@,
                (self.actors@, self.directors@) == clean_all(
                    old(self).actors@,
                    old(self).directors@,
                    sigs.take(i as int),
                ),
                self.warnings == old(self).warnings,
            decreases sigs.len() - i,
        {
            proof {
                assert(sigs.take(i + 1).drop_last() =~= sigs.take(i as int));
                assert(sigs.take(i + 1).last() == sigs[i as int]);
            }
            self.clean_director(stopped[i]);
            i = i + 1;
        }
        proof {
            assert(sigs.take(i as int) =~= sigs);
        }
    }

    /// Destroys director `d`, if it still exists, and its cast.
    fn clean_director(&mut self, d: usize)
        ensures
            (final(self).actors@, final(self).directors@) == clean_one(
                old(self).actors@,
                old(self).directors@,
                d,
            ),
            final(self).warnings == old(self).warnings,
    {
        if d >= self.directors.len() {
            return;
        }
        let mut slot: Option<Director> = None;
        std::mem::swap(&mut slot, &mut self.directors[d]);
        match slot {
            Some(director) => {
                let ghost a0 = self.actors@;
                let ghost cast = director.actors@;
                let mut k: usize = 0;
                while k < director.actors.len()
                    invariant
                        k <= cast.len(),
                        cast == director.actors@,
                        self.actors@ == vacate(a0, cast.take(k as int)),
                        self.directors@ == old(self).directors@.update(d as int, None),
                        self.warnings == old(self).warnings,
                    decreases cast.len() - k,
                {
                    let id = director.actors[k];
                    if id < self.actors.len() {
                        self.actors[id] = ActorSlot::Vacant;
                    }
                    proof {
                        assert forall|j: int| 0 <= j < a0.len() implies #[trigger] cast.take(
                            k + 1,
                        ).contains(j as usize) == (cast.take(k as int).contains(j as usize) || j
                            == id) by {
                            lemma_take_contains(cast, k as int, j as usize);
                        }
                        assert(self.actors@ =~= vacate(a0, cast.take(k + 1)));
                    }
                    k = k + 1;
                }
                proof {
                    assert(cast.take(k as int) =~= cast);
                }
            },
            None => {
                proof {
                    assert(self.directors@ =~= old(self).directors@);
                }
            },
        }
    }
}

/// `play` keeps one entry per director.
pub proof fn lemma_play_len(actors: Seq<ActorSlot>, directors: Seq<Option<Director>>, dt: int)
    ensures
        play(actors, directors, dt).0.len() == directors.len(),
    decreases directors.len(),
{
    if directors.len() > 0 {
        lemma_play_len(actors, directors.drop_last(), dt);
    }
}

/// The animation driver leaves an inactive actor exactly as it was, so two
/// reads of its position, with driver frames between them and nothing
/// activating it, agree.
pub proof fn lemma_inactive_actor_frozen(actors: Seq<ActorSlot>, dt: int, id: int, w: Seq<Wave>)
    requires
        is_staged(actors, id),
        !actors[id]->Staged_0.active,
    ensures
        advance_all(actors, dt)[id] == actors[id],
        ({
            let a = actors[id]->Staged_0;
            let b = advance_all(actors, dt)[id]->Staged_0;
            b.position_at(b.time as int, w) == a.position_at(a.time as int, w)
        }),
{
}

} // verus!
