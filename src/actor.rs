use vstd::prelude::*;

use crate::geometry::{add3, Vec3};
use crate::path::{valid_waves, AnimationPath, Stationary, Wave};

verus! {

/// The animation state of one actor: it follows `animation` from `offset`,
/// and its local clock runs only while it is active.
#[derive(Debug)]
pub struct AnimatedActor {
    pub active: bool,
    /// Local time in microseconds.
    pub time: i64,
    pub offset: Vec3,
    pub animation: AnimationPath,
}

impl AnimatedActor {
    /// The state an actor is staged in: inactive, at local time zero,
    /// stationary at `offset`.
    pub open spec fn fresh(offset: Vec3) -> AnimatedActor {
        AnimatedActor {
            active: false,
            time: 0,
            offset,
            animation: AnimationPath::Stationary(Stationary),
        }
    }

    pub fn new(offset: Vec3) -> (r: AnimatedActor)
        ensures
            r == AnimatedActor::fresh(offset),
    {
        AnimatedActor {
            active: false,
            time: 0,
            offset,
            animation: AnimationPath::Stationary(Stationary),
        }
    }

    /// The actor's position can be computed without overflow.
    pub open spec fn fits(&self) -> bool {
        self.offset.is_bounded() && self.animation.fits()
    }

    pub fn within_limits(&self) -> (r: bool)
        ensures
            r == self.fits(),
    {
        self.offset.bounded() && self.animation.within_limits()
    }

    /// The position at local time `t`: the offset plus the path's point.
    pub open spec fn position_at(&self, t: int, w: Seq<Wave>) -> (int, int, int) {
        add3(self.offset@, self.animation.point_at(t, w))
    }

    /// The phases whose unit-circle points `point_at(t, ..)` takes.
    pub fn phases_at(&self, t: i64) -> (r: Vec<i64>)
        ensures
            r@ == self.animation.phases_at(t as int),
            r@.len() == self.animation.n_waves(),
    {
        self.animation.phases(t)
    }

    /// The position at local time `t`.
    pub fn point_at(&self, t: i64, w: &Vec<Wave>) -> (r: Vec3)
        requires
            self.fits(),
            valid_waves(w@),
            w@.len() == self.animation.n_waves(),
        ensures
            r@ == self.position_at(t as int, w@),
    {
        let p = self.animation.get_point(t, w);
        self.offset.add(&p)
    }

    /// The position at the actor's own local time.
    pub fn get_current_point(&self, w: &Vec<Wave>) -> (r: Vec3)
        requires
            self.fits(),
            valid_waves(w@),
            w@.len() == self.animation.n_waves(),
        ensures
            r@ == self.position_at(self.time as int, w@),
    {
        self.point_at(self.time, w)
    }
}

} // verus!
