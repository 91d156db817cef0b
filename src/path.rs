use vstd::prelude::*;

use crate::geometry::{add3, within, Vec3, COORD_LIMIT};

verus! {

/// Fixed-point 1.0 for the cosine and sine values that a host supplies.
pub const WAVE_ONE: i64 = 1000000;

/// One hertz, in the micro-hertz that frequencies are counted in.
pub const HERTZ: i64 = 1000000;

/// Phase units in one full turn: a frequency in micro-hertz times a time in
/// microseconds counts turns in these units.
pub const TURN: i64 = 1000000000000;

/// Longest half-time of a curtain, in microseconds.
pub const HALF_TIME_LIMIT: i64 = 1099511627776;

/// Largest coordinate magnitude that a path evaluated here may reach.
pub const REACH_LIMIT: u64 = 2305843009213693952;

/// A point on the unit circle, scaled by `WAVE_ONE`: the cosine and sine of
/// a phase that a path asked for (see `AnimationPath::phases`).
#[derive(Clone, Copy, Debug, PartialEq, Eq, Structural)]
pub struct Wave {
    pub cos: i64,
    pub sin: i64,
}

impl Wave {
    pub open spec fn is_valid(&self) -> bool {
        -WAVE_ONE <= self.cos <= WAVE_ONE && -WAVE_ONE <= self.sin <= WAVE_ONE
    }
}

pub open spec fn valid_waves(w: Seq<Wave>) -> bool {
    forall|i: int| 0 <= i < w.len() ==> #[trigger] w[i].is_valid()
}

/// A path that stays at its origin.
#[derive(Clone, Copy, Debug, PartialEq, Eq, Structural)]
pub struct Stationary;

impl Stationary {
    /// The zero vector, whatever the time.
    pub fn get_point(&self, t: i64) -> (r: Vec3)
        ensures
            r@ == (0int, 0int, 0int),
    {
        Vec3::zero()
    }
}

/// `(c * a + s * b) / WAVE_ONE`, rounded down.
pub open spec fn mix(c: int, s: int, a: int, b: int) -> int {
    (c * a + s * b) / (WAVE_ONE as int)
}

/// An elliptic orbit: `cos(p) * major + sin(p) * minor` with
/// `p = 2 pi * frequency * t`. The frequency is in micro-hertz.
#[derive(Clone, Copy, Debug, PartialEq, Eq, Structural)]
pub struct Ellipse {
    pub major_semiaxis: Vec3,
    pub minor_semiaxis: Vec3,
    pub frequency: i64,
}

impl Ellipse {
    /// A circle of the given radius in the X-Y plane.
    pub fn circle(radius: i64, frequency: i64) -> (r: Ellipse)
        ensures
            r.major_semiaxis@ == (radius as int, 0int, 0int),
            r.minor_semiaxis@ == (0int, radius as int, 0int),
            r.frequency == frequency,
    {
        Ellipse {
            major_semiaxis: Vec3::new(radius, 0, 0),
            minor_semiaxis: Vec3::new(0, radius, 0),
            frequency,
        }
    }

    pub open spec fn is_bounded(&self) -> bool {
        self.major_semiaxis.is_bounded() && self.minor_semiaxis.is_bounded()
    }

    /// The phase at time `t`, as a fraction of a turn in units of `1 / TURN`.
    pub open spec fn phase_at(&self, t: int) -> int {
        (self.frequency * t) % (TURN as int)
    }

    /// The point for the phase whose unit-circle point is `w`.
    pub open spec fn point_at(&self, w: Wave) -> (int, int, int) {
        (
            mix(w.cos as int, w.sin as int, self.major_semiaxis.x as int, self.minor_semiaxis.x as int),
            mix(w.cos as int, w.sin as int, self.major_semiaxis.y as int, self.minor_semiaxis.y as int),
            mix(w.cos as int, w.sin as int, self.major_semiaxis.z as int, self.minor_semiaxis.z as int),
        )
    }

    pub fn phase(&self, t: i64) -> (r: i64)
        ensures
            r == self.phase_at(t as int),
            0 <= r < TURN,
    {
        let f = self.frequency as i128;
        let s = t as i128;
        proof {
            lemma_product_fits(f as int, s as int);
        }
        let p = f * s;
        match p.checked_rem_euclid(TURN as i128) {
            Some(q) => q as i64,
            None => 0,
        }
    }

    /// The point for the phase whose unit-circle point is `w`.
    pub fn get_point(&self, w: &Wave) -> (r: Vec3)
        requires
            self.is_bounded(),
            w.is_valid(),
        ensures
            r@ == self.point_at(*w),
            within(r@, 2 * COORD_LIMIT),
    {
        let x = mix_exec(w.cos, w.sin, self.major_semiaxis.x, self.minor_semiaxis.x);
        let y = mix_exec(w.cos, w.sin, self.major_semiaxis.y, self.minor_semiaxis.y);
        let z = mix_exec(w.cos, w.sin, self.major_semiaxis.z, self.minor_semiaxis.z);
        Vec3 { x, y, z }
    }
}

proof fn lemma_product_fits(a: int, b: int)
    requires
        i64::MIN <= a <= i64::MAX,
        i64::MIN <= b <= i64::MAX,
    ensures
        i128::MIN <= a * b <= i128::MAX,
{
    let x: int = 0x8000_0000_0000_0000;
    assert(-(x * x) <= a * b <= x * x) by (nonlinear_arith)
        requires
            -x <= a <= x,
            -x <= b <= x,
    ;
}

/// A quotient by a positive divisor keeps a bound that the dividend has in
/// multiples of the divisor.
proof fn lemma_div_within(n: int, l: int, d: int)
    requires
        0 < d,
        0 <= l,
        -(l * d) <= n <= l * d,
    ensures
        -l <= n / d <= l,
{
    vstd::arithmetic::div_mod::lemma_div_is_ordered(n, l * d, d);
    vstd::arithmetic::div_mod::lemma_div_is_ordered(-(l * d), n, d);
    vstd::arithmetic::div_mod::lemma_div_multiples_vanish(l, d);
    vstd::arithmetic::div_mod::lemma_div_multiples_vanish(-l, d);
    assert(d * l == l * d) by (nonlinear_arith);
    assert(d * (-l) == -(l * d)) by (nonlinear_arith);
}

proof fn lemma_mix_bounds(c: int, s: int, a: int, b: int)
    requires
        -WAVE_ONE <= c <= WAVE_ONE,
        -WAVE_ONE <= s <= WAVE_ONE,
        -COORD_LIMIT <= a <= COORD_LIMIT,
        -COORD_LIMIT <= b <= COORD_LIMIT,
    ensures
        -WAVE_ONE * COORD_LIMIT <= c * a <= WAVE_ONE * COORD_LIMIT,
        -WAVE_ONE * COORD_LIMIT <= s * b <= WAVE_ONE * COORD_LIMIT,
        -2 * COORD_LIMIT <= mix(c, s, a, b) <= 2 * COORD_LIMIT,
{
    let w = WAVE_ONE as int;
    let l = COORD_LIMIT as int;
    assert(-w * l <= c * a <= w * l) by (nonlinear_arith)
        requires
            -w <= c <= w,
            -l <= a <= l,
            w > 0,
            l > 0,
    ;
    assert(-w * l <= s * b <= w * l) by (nonlinear_arith)
        requires
            -w <= s <= w,
            -l <= b <= l,
            w > 0,
            l > 0,
    ;
    lemma_div_within(c * a + s * b, 2 * l, w);
}

fn mix_exec(c: i64, s: i64, a: i64, b: i64) -> (r: i64)
    requires
        -WAVE_ONE <= c <= WAVE_ONE,
        -WAVE_ONE <= s <= WAVE_ONE,
        -COORD_LIMIT <= a <= COORD_LIMIT,
        -COORD_LIMIT <= b <= COORD_LIMIT,
    ensures
        r == mix(c as int, s as int, a as int, b as int),
        -2 * COORD_LIMIT <= r <= 2 * COORD_LIMIT,
{
    proof {
        lemma_mix_bounds(c as int, s as int, a as int, b as int);
    }
    let n = (c as i128) * (a as i128) + (s as i128) * (b as i128);
    match n.checked_div_euclid(WAVE_ONE as i128) {
        Some(q) => q as i64,
        None => 0,
    }
}

/// `m * (t - h)^2 / h^2`, rounded down.
pub open spec fn ease(m: int, t: int, h: int) -> int {
    m * ((t - h) * (t - h)) / (h * h)
}

/// A curtain that closes and opens again: at the movement vector for
/// `t <= 0` and `t >= 2 * half_time`, easing parabolically to zero at
/// `t == half_time`. The half-time is in microseconds.
#[derive(Clone, Copy, Debug, PartialEq, Eq, Structural)]
pub struct Curtain {
    pub movement: Vec3,
    pub half_time: i64,
}

impl Curtain {
    pub open spec fn is_bounded(&self) -> bool {
        self.movement.is_bounded() && self.half_time <= HALF_TIME_LIMIT
    }

    pub open spec fn point_at(&self, t: int) -> (int, int, int) {
        let h = self.half_time as int;
        if t <= 0 || t >= 2 * h {
            self.movement@
        } else {
            (
                ease(self.movement.x as int, t, h),
                ease(self.movement.y as int, t, h),
                ease(self.movement.z as int, t, h),
            )
        }
    }

    pub fn get_point(&self, t: i64) -> (r: Vec3)
        requires
            self.is_bounded(),
        ensures
            r@ == self.point_at(t as int),
            within(r@, COORD_LIMIT as int),
    {
        let h = self.half_time;
        if t <= 0 || h <= 0 || t - h >= h {
            self.movement
        } else {
            let d = (t - h) as i128;
            let hw = h as i128;
            proof {
                assert(0 <= d * d < hw * hw <= 0x1_0000_0000_0000_0000_0000) by (nonlinear_arith)
                    requires
                        0 < hw <= HALF_TIME_LIMIT,
                        -hw < d < hw,
                ;
            }
            let hh = hw * hw;
            let q = d * d;
            let x = ease_exec(self.movement.x, q, hh);
            let y = ease_exec(self.movement.y, q, hh);
            let z = ease_exec(self.movement.z, q, hh);
            Vec3 { x, y, z }
        }
    }
}

fn ease_exec(m: i64, q: i128, hh: i128) -> (r: i64)
    requires
        -COORD_LIMIT <= m <= COORD_LIMIT,
        0 <= q < hh <= 0x1_0000_0000_0000_0000_0000,
    ensures
        r == (m * q) / (hh as int),
        -COORD_LIMIT <= r <= COORD_LIMIT,
{
    proof {
        let l = COORD_LIMIT as int;
        assert(-(l * hh) <= m * q <= l * hh) by (nonlinear_arith)
            requires
                -l <= m <= l,
                0 <= q < hh,
        ;
        vstd::arithmetic::mul::lemma_mul_inequality(hh as int, 0x1_0000_0000_0000_0000_0000, l);
        assert(hh * l == l * hh) by (nonlinear_arith);
        lemma_div_within(m * q, l, hh as int);
    }
    let n = (m as i128) * q;
    match n.checked_div_euclid(hh) {
        Some(v) => v as i64,
        None => 0,
    }
}

/// Two paths added point by point at the same time.
#[derive(Debug)]
pub struct Sum {
    pub a: Box<AnimationPath>,
    pub b: Box<AnimationPath>,
}

/// A pure function from local time to a displacement.
#[derive(Debug)]
pub enum AnimationPath {
    Stationary(Stationary),
    Ellipse(Ellipse),
    Curtain(Curtain),
    Sum(Sum),
}

impl AnimationPath {
    /// How many unit-circle points the path needs: one per ellipse.
    pub open spec fn n_waves(&self) -> nat
        decreases self,
    {
        match self {
            AnimationPath::Ellipse(_) => 1,
            AnimationPath::Sum(s) => s.a.n_waves() + s.b.n_waves(),
            _ => 0,
        }
    }

    /// The phases of the ellipses of the path at time `t`, left to right.
    pub open spec fn phases_at(&self, t: int) -> Seq<i64>
        decreases self,
    {
        match self {
            AnimationPath::Ellipse(e) => seq![e.phase_at(t) as i64],
            AnimationPath::Sum(s) => s.a.phases_at(t) + s.b.phases_at(t),
            _ => Seq::empty(),
        }
    }

    /// The point at time `t`, where `w` holds the unit-circle points of
    /// the phases `phases_at(t)`, in the same order.
    pub open spec fn point_at(&self, t: int, w: Seq<Wave>) -> (int, int, int)
        decreases self,
    {
        match self {
            AnimationPath::Stationary(_) => (0int, 0int, 0int),
            AnimationPath::Ellipse(e) => e.point_at(w[0]),
            AnimationPath::Curtain(c) => c.point_at(t),
            AnimationPath::Sum(s) => {
                let k = s.a.n_waves() as int;
                add3(s.a.point_at(t, w.take(k)), s.b.point_at(t, w.skip(k)))
            },
        }
    }

    /// Every parameter lies within the library's limits.
    pub open spec fn is_bounded(&self) -> bool
        decreases self,
    {
        match self {
            AnimationPath::Stationary(_) => true,
            AnimationPath::Ellipse(e) => e.is_bounded(),
            AnimationPath::Curtain(c) => c.is_bounded(),
            AnimationPath::Sum(s) => s.a.is_bounded() && s.b.is_bounded(),
        }
    }

    /// A bound on every coordinate of every point of a bounded path.
    pub open spec fn reach(&self) -> nat
        decreases self,
    {
        match self {
            AnimationPath::Stationary(_) => 0,
            AnimationPath::Ellipse(_) => 2 * (COORD_LIMIT as nat),
            AnimationPath::Curtain(_) => COORD_LIMIT as nat,
            AnimationPath::Sum(s) => s.a.reach() + s.b.reach(),
        }
    }

    /// The path can be evaluated without overflow.
    pub open spec fn fits(&self) -> bool {
        self.is_bounded() && self.reach() <= REACH_LIMIT
    }

    pub proof fn lemma_phases_len(&self, t: int)
        ensures
            self.phases_at(t).len() == self.n_waves(),
        decreases self,
    {
        if let AnimationPath::Sum(s) = self {
            s.a.lemma_phases_len(t);
            s.b.lemma_phases_len(t);
        }
    }

    pub proof fn lemma_point_within(&self, t: int, w: Seq<Wave>)
        requires
            self.is_bounded(),
            valid_waves(w),
            w.len() == self.n_waves(),
        ensures
            within(self.point_at(t, w), self.reach() as int),
        decreases self,
    {
        match self {
            AnimationPath::Ellipse(e) => {
                assert(w[0].is_valid());
                lemma_mix_bounds(w[0].cos as int, w[0].sin as int, e.major_semiaxis.x as int, e.minor_semiaxis.x as int);
                lemma_mix_bounds(w[0].cos as int, w[0].sin as int, e.major_semiaxis.y as int, e.minor_semiaxis.y as int);
                lemma_mix_bounds(w[0].cos as int, w[0].sin as int, e.major_semiaxis.z as int, e.minor_semiaxis.z as int);
            },
            AnimationPath::Curtain(c) => {
                let h = c.half_time as int;
                if !(t <= 0 || t >= 2 * h) {
                    let q = (t - h) * (t - h);
                    let hh = h * h;
                    assert(0 <= q < hh) by (nonlinear_arith)
                        requires
                            0 < t < 2 * h,
                            q == (t - h) * (t - h),
                            hh == h * h,
                    ;
                    let l = COORD_LIMIT as int;
                    assert forall|m: int| -l <= m <= l implies -l <= #[trigger] (m * q) / hh <= l by {
                        assert(-(l * hh) <= m * q <= l * hh) by (nonlinear_arith)
                            requires
                                -l <= m <= l,
                                0 <= q < hh,
                        ;
                        lemma_div_within(m * q, l, hh);
                    }
                }
            },
            AnimationPath::Sum(s) => {
                let k = s.a.n_waves() as int;
                assert(valid_waves(w.take(k)));
                assert(valid_waves(w.skip(k)));
                s.a.lemma_point_within(t, w.take(k));
                s.b.lemma_point_within(t, w.skip(k));
            },
            _ => {},
        }
    }

    /// Appends the phases of the path at time `t` to `out`.
    pub fn push_phases(&self, t: i64, out: &mut Vec<i64>)
        ensures
            final(out)@ == old(out)@ + self.phases_at(t as int),
        decreases self,
    {
        match self {
            AnimationPath::Ellipse(e) => {
                let p = e.phase(t);
                out.push(p);
            },
            AnimationPath::Sum(s) => {
                s.a.push_phases(t, out);
                s.b.push_phases(t, out);
                assert(final(out)@ =~= old(out)@ + self.phases_at(t as int));
            },
            _ => {
                assert(final(out)@ =~= old(out)@ + self.phases_at(t as int));
            },
        }
    }

    /// The phases, left to right, whose unit-circle points `get_point`
    /// takes for time `t`: each a fraction of a turn in units of `1 / TURN`.
    pub fn phases(&self, t: i64) -> (r: Vec<i64>)
        ensures
            r@ == self.phases_at(t as int),
            r@.len() == self.n_waves(),
    {
        let mut out: Vec<i64> = Vec::new();
        self.push_phases(t, &mut out);
        proof {
            self.lemma_phases_len(t as int);
            assert(out@ =~= self.phases_at(t as int));
        }
        out
    }

    /// The point at `t` from the waves `w[start..]`; returns it and where
    /// the unused waves begin.
    fn point_from(&self, t: i64, w: &Vec<Wave>, start: usize) -> (r: (Vec3, usize))
        requires
            self.fits(),
            valid_waves(w@),
            start + self.n_waves() <= w@.len(),
        ensures
            r.1 == start + self.n_waves(),
            r.0@ == self.point_at(t as int, w@.subrange(start as int, r.1 as int)),
        decreases self,
    {
        let ghost used = w@.subrange(start as int, start + self.n_waves());
        proof {
            assert(valid_waves(used));
            self.lemma_point_within(t as int, used);
        }
        match self {
            AnimationPath::Stationary(p) => (p.get_point(t), start),
            AnimationPath::Ellipse(e) => {
                let p = e.get_point(&w[start]);
                proof {
                    assert(start < w.len());
                }
                (p, start + 1)
            },
            AnimationPath::Curtain(c) => (c.get_point(t), start),
            AnimationPath::Sum(s) => {
                let (pa, mid) = s.a.point_from(t, w, start);
                let (pb, end) = s.b.point_from(t, w, mid);
                proof {
                    let k = s.a.n_waves() as int;
                    assert(used.take(k) =~= w@.subrange(start as int, mid as int));
                    assert(used.skip(k) =~= w@.subrange(mid as int, end as int));
                }
                (pa.add(&pb), end)
            },
        }
    }

    /// The point at time `t`. `w` holds the unit-circle points of the
    /// phases `phases(t)`, in the same order.
    pub fn get_point(&self, t: i64, w: &Vec<Wave>) -> (r: Vec3)
        requires
            self.fits(),
            valid_waves(w@),
            w@.len() == self.n_waves(),
        ensures
            r@ == self.point_at(t as int, w@),
            within(r@, self.reach() as int),
    {
        let (p, _) = self.point_from(t, w, 0);
        proof {
            assert(w@.subrange(0, w@.len() as int) =~= w@);
            self.lemma_point_within(t as int, w@);
        }
        p
    }
}

impl AnimationPath {
    /// A bound on the coordinates of the path's points, capped just above
    /// `REACH_LIMIT`.
    fn reach_capped(&self) -> (r: u64)
        ensures
            r as int == if self.reach() <= REACH_LIMIT {
                self.reach() as int
            } else {
                REACH_LIMIT + 1
            },
        decreases self,
    {
        match self {
            AnimationPath::Stationary(_) => 0,
            AnimationPath::Ellipse(_) => 2 * (COORD_LIMIT as u64),
            AnimationPath::Curtain(_) => COORD_LIMIT as u64,
            AnimationPath::Sum(s) => {
                let a = s.a.reach_capped();
                let b = s.b.reach_capped();
                if a + b > REACH_LIMIT {
                    REACH_LIMIT + 1
                } else {
                    a + b
                }
            },
        }
    }

    fn bounded(&self) -> (r: bool)
        ensures
            r == self.is_bounded(),
        decreases self,
    {
        match self {
            AnimationPath::Stationary(_) => true,
            AnimationPath::Ellipse(e) => e.major_semiaxis.bounded() && e.minor_semiaxis.bounded(),
            AnimationPath::Curtain(c) => c.movement.bounded() && c.half_time <= HALF_TIME_LIMIT,
            AnimationPath::Sum(s) => s.a.bounded() && s.b.bounded(),
        }
    }

    /// Whether the path can be evaluated here: every parameter within the
    /// library's limits and every coordinate within `REACH_LIMIT`.
    pub fn within_limits(&self) -> (r: bool)
        ensures
            r == self.fits(),
    {
        self.bounded() && self.reach_capped() <= REACH_LIMIT
    }
}

impl Clone for Sum {
    /// A deep copy of both sub-paths.
    fn clone(&self) -> (r: Self)
        ensures
            r == *self,
    {
        Sum { a: Box::new((*self.a).clone()), b: Box::new((*self.b).clone()) }
    }
}

impl Clone for AnimationPath {
    /// A deep copy of the whole tree.
    fn clone(&self) -> (r: Self)
        ensures
            r == *self,
        decreases self,
    {
        match self {
            AnimationPath::Stationary(p) => AnimationPath::Stationary(*p),
            AnimationPath::Ellipse(e) => AnimationPath::Ellipse(*e),
            AnimationPath::Curtain(c) => AnimationPath::Curtain(*c),
            AnimationPath::Sum(s) => AnimationPath::Sum(
                Sum { a: Box::new((*s.a).clone()), b: Box::new((*s.b).clone()) },
            ),
        }
    }
}

/// A stationary path is at the origin whatever the time. An ellipse asks for
/// the one phase `frequency * t` (modulo a turn), and for the unit-circle
/// point `(cos, sin)` of that phase it is at `cos * major + sin * minor`.
pub proof fn lemma_path_determinism(s: Stationary, e: Ellipse, t: int, w: Wave)
    ensures
        AnimationPath::Stationary(s).point_at(t, Seq::empty()) == (0int, 0int, 0int),
        AnimationPath::Stationary(s).phases_at(t) == Seq::<i64>::empty(),
        AnimationPath::Ellipse(e).phases_at(t) == seq![((e.frequency * t) % (TURN as int)) as i64],
        AnimationPath::Ellipse(e).point_at(t, seq![w]) == (
            (w.cos * e.major_semiaxis.x + w.sin * e.minor_semiaxis.x) / (WAVE_ONE as int),
            (w.cos * e.major_semiaxis.y + w.sin * e.minor_semiaxis.y) / (WAVE_ONE as int),
            (w.cos * e.major_semiaxis.z + w.sin * e.minor_semiaxis.z) / (WAVE_ONE as int),
        ),
{
}

/// A curtain is at its full movement at and before time zero and from twice
/// its half-time on, and at the origin exactly at its half-time.
pub proof fn lemma_curtain_endpoints(c: Curtain, t: int)
    ensures
        t <= 0 ==> c.point_at(t) == c.movement@,
        t >= 2 * c.half_time ==> c.point_at(t) == c.movement@,
        c.half_time > 0 ==> c.point_at(c.half_time as int) == (0int, 0int, 0int),
{
    if c.half_time > 0 {
        let h = c.half_time as int;
        assert(h * h > 0) by (nonlinear_arith)
            requires
                h > 0,
        ;
        assert(forall|m: int| #[trigger] (m * ((h - h) * (h - h))) == 0) by {
            assert forall|m: int| #[trigger] (m * ((h - h) * (h - h))) == 0 by {
                assert((h - h) * (h - h) == 0);
                vstd::arithmetic::mul::lemma_mul_basics(m);
            }
        }
        assert(0int / (h * h) == 0);
    }
}

/// A sum is at the sum of its two parts' points at the same time, and asks
/// for the phases of its first part, then those of its second.
pub proof fn lemma_sum_composition(
    a: AnimationPath,
    b: AnimationPath,
    t: int,
    wa: Seq<Wave>,
    wb: Seq<Wave>,
)
    requires
        wa.len() == a.n_waves(),
    ensures
        AnimationPath::Sum(Sum { a: Box::new(a), b: Box::new(b) }).point_at(t, wa + wb) == add3(
            a.point_at(t, wa),
            b.point_at(t, wb),
        ),
        AnimationPath::Sum(Sum { a: Box::new(a), b: Box::new(b) }).phases_at(t) == a.phases_at(t)
            + b.phases_at(t),
{
    assert((wa + wb).take(wa.len() as int) =~= wa);
    assert((wa + wb).skip(wa.len() as int) =~= wb);
}

} // verus!
