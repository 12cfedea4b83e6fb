use crate::geom::{
    abs, in_limit, is_length, length, lemma_coord_le_length, lemma_scaled_bound, mul_div, scale,
    scaled, tdiv, vsub, Vec2, COORD_LIMIT, UNIT,
};
use crate::mutation::Mutation;
use crate::stage::{rank, Stage};
use vstd::prelude::*;

verus! {

/// Longest tick, in milliseconds, that an update accepts.
pub const MAX_DT: i64 = 10_000;

/// Speed bound, in length units per second, of anything that moves.
pub const VEL_LIMIT: i64 = 1_000_000;

/// Bound on the coordinates of a player at rest between ticks.
pub const POS_LIMIT: i64 = 0x4000_0000;

/// Bound on the coordinates where an update may start from.
pub const START_LIMIT: i64 = 0x2000_0000;

pub const HATCHLING_RADIUS: i64 = 500;
pub const BORN_RADIUS: i64 = 300;
pub const MAX_SPEED: i64 = 4000;

/// Acceleration, in length units per second squared.
pub const ACCEL: i64 = 20_000;

/// A jump runs from `JUMP_FULL` down to zero, three times per second.
pub const JUMP_FULL: i64 = 1000;

/// The stand timer runs between zero and `STAND_FULL`.
pub const STAND_FULL: i64 = 1000;

pub struct Player {
    pub pos: Vec2,
    pub radius: i64,
    /// Wanted direction, `UNIT` long or zero.
    pub target_vel: Vec2,
    pub vel: Vec2,
    pub max_speed: i64,
    pub stage: Stage,
    pub stand_timer: i64,
    /// Remaining part of a jump in progress, out of `JUMP_FULL`.
    pub jump: Option<i64>,
    pub want_jump: bool,
    pub landed: bool,
    pub eaten: bool,
    pub almost_dead: bool,
    pub alive: bool,
    pub mutation: Option<Mutation>,
    pub tropheys: Vec<Mutation>,
}

pub open spec fn clamp_spec(a: int, lo: int, hi: int) -> int {
    if a < lo { lo } else if a > hi { hi } else { a }
}

/// A velocity with each coordinate held to the speed bound.
pub open spec fn capped(x: int, y: int) -> Vec2 {
    Vec2 {
        x: clamp_spec(x, -VEL_LIMIT, VEL_LIMIT as int) as i64,
        y: clamp_spec(y, -VEL_LIMIT, VEL_LIMIT as int) as i64,
    }
}

/// The length of `v`, rounded down.
pub open spec fn vlen(v: Vec2) -> int {
    choose|r: int| is_length(v, r)
}

pub open spec fn min_spec(a: int, b: int) -> int {
    if a < b { a } else { b }
}

/// The velocity the player steers toward.
pub open spec fn goal_of(target: Vec2, max_speed: int) -> Vec2 {
    Vec2 { x: scaled(target, max_speed, UNIT as int).0 as i64,
        y: scaled(target, max_speed, UNIT as int).1 as i64 }
}

/// Velocity after steering from `vel` toward `goal` for `dt` milliseconds,
/// with the change capped by the acceleration.
pub open spec fn steer(vel: Vec2, goal: Vec2, dt: int) -> Vec2 {
    let dv = Vec2 { x: (goal.x - vel.x) as i64, y: (goal.y - vel.y) as i64 };
    let l = vlen(dv);
    if l == 0 {
        vel
    } else {
        let step = min_spec(ACCEL * dt / 1000, l);
        capped(vel.x + scaled(dv, step, l).0, vel.y + scaled(dv, step, l).1)
    }
}

/// The position reached from `pos` at velocity `vel` after `dt` milliseconds.
pub open spec fn moved(pos: Vec2, vel: Vec2, dt: int) -> Vec2 {
    Vec2 { x: (pos.x + tdiv(vel.x * dt, 1000)) as i64, y: (pos.y + tdiv(vel.y * dt, 1000)) as i64 }
}

/// Whether an update of `p` is a step of a jump.
pub open spec fn jumping(p: Player) -> bool {
    rank(p.stage) >= rank(Stage::Born) && (p.want_jump || p.jump.is_some())
}

pub open spec fn jump_left(p: Player, dt: int) -> int {
    match p.jump {
        Some(j) => j - 3 * dt,
        None => JUMP_FULL - 3 * dt,
    }
}

pub proof fn lemma_length_unique(v: Vec2, r: int)
    requires
        is_length(v, r),
    ensures
        vlen(v) == r,
{
    let c = vlen(v);
    assert(is_length(v, c));
    if c < r {
        assert((c + 1) * (c + 1) <= r * r) by (nonlinear_arith)
            requires 0 <= c < r;
    } else if c > r {
        assert((r + 1) * (r + 1) <= c * c) by (nonlinear_arith)
            requires 0 <= r < c;
    }
}

/// Holds `a` to `[-lim, lim]`.
pub fn clamp_abs(a: i64, lim: i64) -> (r: i64)
    requires
        lim >= 0,
    ensures
        r == clamp_spec(a as int, -lim, lim as int),
{
    if a < -lim {
        -lim
    } else if a > lim {
        lim
    } else {
        a
    }
}

/// One update of the player `o`, which becomes `f`, over `dt` milliseconds:
/// a dead player does not change; a live one first forgets a meal if it was
/// almost dead, then takes a step of its jump or steers and moves.
pub open spec fn player_step(o: Player, f: Player, dt: int) -> bool {
    &&& !o.alive ==> f == o
    &&& o.alive ==> {
        &&& f.eaten == (o.eaten && !o.almost_dead)
        &&& f.almost_dead == (o.almost_dead && !o.eaten)
        &&& !f.want_jump
        &&& f.alive && f.stage == o.stage && f.radius == o.radius
        &&& f.max_speed == o.max_speed && f.target_vel == o.target_vel
        &&& f.mutation == o.mutation && f.tropheys == o.tropheys
        &&& f.stand_timer == stand_after(o.stand_timer as int, f.vel, dt)
        &&& jumping(o) ==> {
            &&& f.vel == Vec2 { x: 0, y: 0 }
            &&& f.pos == o.pos
            &&& jump_left(o, dt) < 0 ==> f.jump.is_none() && f.landed
            &&& jump_left(o, dt) >= 0 ==> f.jump == Some(jump_left(o, dt) as i64)
                && f.landed == o.landed
        }
        &&& !jumping(o) ==> {
            &&& f.vel == steer(o.vel, goal_of(o.target_vel, o.max_speed as int), dt)
            &&& f.pos == moved(o.pos, f.vel, dt)
            &&& f.jump == o.jump
            &&& f.landed == o.landed
        }
    }
}

/// The wanted direction for an intent `dir`: `UNIT` long, or zero.
pub open spec fn aimed(dir: Vec2) -> Vec2 {
    if dir.x == 0 && dir.y == 0 {
        Vec2 { x: 0, y: 0 }
    } else {
        Vec2 { x: scaled(dir, UNIT as int, vlen(dir)).0 as i64, y: scaled(dir, UNIT as int, vlen(dir)).1 as i64 }
    }
}

impl Player {
    pub open spec fn inv(&self) -> bool {
        &&& in_limit(self.pos, POS_LIMIT as int)
        &&& in_limit(self.vel, VEL_LIMIT as int)
        &&& in_limit(self.target_vel, UNIT as int)
        &&& 0 <= self.max_speed <= VEL_LIMIT
        &&& 0 < self.radius <= UNIT
        &&& 0 <= self.stand_timer <= STAND_FULL
        &&& (self.jump matches Some(j) ==> 0 <= j <= JUMP_FULL)
        &&& self.tropheys@.no_duplicates()
    }

    /// A hatchling at `pos`, at rest, at the first stage.
    pub fn new(pos: Vec2) -> (r: Player)
        requires
            in_limit(pos, POS_LIMIT as int),
        ensures
            r.inv(),
            r.pos == pos,
            r.radius == HATCHLING_RADIUS,
            r.vel == (Vec2 { x: 0, y: 0 }),
            r.target_vel == (Vec2 { x: 0, y: 0 }),
            r.max_speed == MAX_SPEED,
            r.stage == Stage::Start,
            r.stand_timer == 0,
            r.jump.is_none(),
            !r.want_jump && !r.landed && !r.eaten && !r.almost_dead,
            r.alive,
            r.mutation.is_none(),
            r.tropheys@.len() == 0,
    {
        Player {
            pos,
            radius: HATCHLING_RADIUS,
            target_vel: Vec2 { x: 0, y: 0 },
            vel: Vec2 { x: 0, y: 0 },
            max_speed: MAX_SPEED,
            stage: Stage::Start,
            stand_timer: 0,
            jump: None,
            want_jump: false,
            landed: false,
            eaten: false,
            almost_dead: false,
            alive: true,
            mutation: None,
            tropheys: Vec::new(),
        }
    }

    /// Reads and clears the one-shot "landed" signal.
    pub fn landed(&mut self) -> (r: bool)
        ensures
            r == old(self).landed,
            !final(self).landed,
            *final(self) == (Player { landed: false, ..*old(self) }),
    {
        if self.landed {
            self.landed = false;
            true
        } else {
            false
        }
    }

    /// Adds a trophy of mutation `m`, unless one is already held.
    pub fn collect(&mut self, m: Mutation)
        requires
            old(self).inv(),
        ensures
            final(self).inv(),
            final(self).tropheys@.to_set() == old(self).tropheys@.to_set().insert(m),
            *final(self) == (Player { tropheys: final(self).tropheys, ..*old(self) }),
    {
        let mut i: usize = 0;
        while i < self.tropheys.len()
            invariant
                *self == *old(self),
                self.inv(),
                i <= self.tropheys.len(),
                forall|k: int| 0 <= k < i ==> self.tropheys@[k] != m,
            decreases self.tropheys.len() - i,
        {
            if self.tropheys[i] == m {
                assert(old(self).tropheys@.contains(m));
                assert(old(self).tropheys@.to_set().insert(m) =~= old(self).tropheys@.to_set());
                return;
            }
            i += 1;
        }
        self.tropheys.push(m);
        assert(self.tropheys@ =~= old(self).tropheys@.push(m));
        let ghost old_t = old(self).tropheys@;
        let ghost new_t = self.tropheys@;
        assert forall|x: Mutation| new_t.contains(x) <==> (old_t.contains(x) || x == m) by {
            if old_t.contains(x) {
                let k = choose|k: int| 0 <= k < old_t.len() && old_t[k] == x;
                assert(new_t[k] == x);
            }
            if x == m {
                assert(new_t[old_t.len() as int] == m);
            }
            if new_t.contains(x) {
                let k = choose|k: int| 0 <= k < new_t.len() && new_t[k] == x;
                if k < old_t.len() {
                    assert(old_t[k] == x);
                }
            }
        }
        assert(new_t.to_set() =~= old_t.to_set().insert(m));
    }

    /// Sets the wanted direction from an intent vector, made `UNIT` long;
    /// a zero vector stops the player.
    pub fn steer_toward(&mut self, dir: Vec2)
        requires
            old(self).inv(),
            in_limit(dir, COORD_LIMIT as int),
        ensures
            final(self).inv(),
            *final(self) == (Player { target_vel: aimed(dir), ..*old(self) }),
    {
        let l = length(dir);
        proof {
            lemma_length_unique(dir, l as int);
        }
        if l == 0 {
            self.target_vel = Vec2 { x: 0, y: 0 };
        } else {
            proof {
                lemma_coord_le_length(dir, l as int);
                lemma_scaled_bound(dir.x as int, UNIT as int, l as int);
                lemma_scaled_bound(dir.y as int, UNIT as int, l as int);
            }
            self.target_vel = scale(dir, UNIT, l);
        }
    }

    /// Advances the player by `dt` milliseconds: a step of a jump, or a step
    /// of steering and moving; a dead player does not change.
    pub fn update(&mut self, dt: i64)
        requires
            old(self).inv(),
            in_limit(old(self).pos, START_LIMIT as int),
            0 <= dt <= MAX_DT,
        ensures
            final(self).inv(),
            player_step(*old(self), *final(self), dt as int),
    {
        if !self.alive {
            return;
        }
        if self.almost_dead && self.eaten {
            self.almost_dead = false;
            self.eaten = false;
        }
        if self.stage.can_jump() && (self.want_jump || self.jump.is_some()) {
            self.vel = Vec2 { x: 0, y: 0 };
            let j: i64 = match self.jump {
                Some(j) => j,
                None => JUMP_FULL,
            };
            let time_left: i64 = j - 3 * dt;
            if time_left < 0 {
                self.jump = None;
                self.landed = true;
            } else {
                self.jump = Some(time_left);
            }
        } else {
            self.vel = steered(self.vel, self.target_vel, self.max_speed, dt);
            self.pos = advanced(self.pos, self.vel, dt);
        }
        self.want_jump = false;
        self.stand_timer = stand_timer_after(self.stand_timer, self.vel, dt);
    }
}

/// The stand timer after `dt` milliseconds: it runs down while moving and
/// up while standing, five times per second, within `[0, STAND_FULL]`.
pub open spec fn stand_after(t: int, vel: Vec2, dt: int) -> int {
    if vel.x != 0 || vel.y != 0 {
        if t < 5 * dt { 0 } else { t - 5 * dt }
    } else {
        if t + 5 * dt > STAND_FULL { STAND_FULL as int } else { t + 5 * dt }
    }
}

pub fn stand_timer_after(t: i64, vel: Vec2, dt: i64) -> (r: i64)
    requires
        0 <= t <= STAND_FULL,
        0 <= dt <= MAX_DT,
    ensures
        r == stand_after(t as int, vel, dt as int),
        0 <= r <= STAND_FULL,
{
    if vel.x != 0 || vel.y != 0 {
        if t < 5 * dt { 0 } else { t - 5 * dt }
    } else {
        if t + 5 * dt > STAND_FULL { STAND_FULL } else { t + 5 * dt }
    }
}

/// The velocity after steering `vel` toward `target` at `max_speed` for
/// `dt` milliseconds.
pub fn steered(vel: Vec2, target: Vec2, max_speed: i64, dt: i64) -> (r: Vec2)
    requires
        in_limit(vel, VEL_LIMIT as int),
        in_limit(target, UNIT as int),
        0 <= max_speed <= VEL_LIMIT,
        0 <= dt <= MAX_DT,
    ensures
        r == steer(vel, goal_of(target, max_speed as int), dt as int),
        in_limit(r, VEL_LIMIT as int),
{
    let goal = scale(target, max_speed, UNIT);
    proof {
        lemma_scaled_bound(target.x as int, max_speed as int, UNIT as int);
        lemma_scaled_bound(target.y as int, max_speed as int, UNIT as int);
    }
    let dv = vsub(goal, vel);
    let dl = length(dv);
    proof {
        lemma_length_unique(dv, dl as int);
    }
    if dl > 0 {
        let reach: i64 = ACCEL * dt / 1000;
        let step: i64 = if reach < dl { reach } else { dl };
        proof {
            lemma_coord_le_length(dv, dl as int);
            lemma_scaled_bound(dv.x as int, step as int, dl as int);
            lemma_scaled_bound(dv.y as int, step as int, dl as int);
        }
        let change = scale(dv, step, dl);
        Vec2 {
            x: clamp_abs(vel.x + change.x, VEL_LIMIT),
            y: clamp_abs(vel.y + change.y, VEL_LIMIT),
        }
    } else {
        vel
    }
}

/// The position reached from `pos` at velocity `vel` after `dt` milliseconds.
pub fn advanced(pos: Vec2, vel: Vec2, dt: i64) -> (r: Vec2)
    requires
        in_limit(pos, START_LIMIT as int),
        in_limit(vel, VEL_LIMIT as int),
        0 <= dt <= MAX_DT,
    ensures
        r == moved(pos, vel, dt as int),
        in_limit(r, POS_LIMIT as int),
{
    proof {
        lemma_shift_bound(vel.x as int, dt as int);
        lemma_shift_bound(vel.y as int, dt as int);
    }
    let sx = mul_div(vel.x, dt, 1000);
    let sy = mul_div(vel.y, dt, 1000);
    Vec2 { x: pos.x + sx, y: pos.y + sy }
}

/// How far a capped velocity carries in one tick.
pub proof fn lemma_shift_bound(v: int, dt: int)
    requires
        abs(v) <= VEL_LIMIT,
        0 <= dt <= MAX_DT,
    ensures
        abs(tdiv(v * dt, 1000)) <= 10_000_000,
{
    let p = abs(v) * dt;
    assert(p <= VEL_LIMIT * MAX_DT) by (nonlinear_arith)
        requires abs(v) <= VEL_LIMIT, 0 <= dt <= MAX_DT, abs(v) >= 0, p == abs(v) * dt;
    assert(abs(v * dt) == p) by (nonlinear_arith)
        requires dt >= 0, p == abs(v) * dt;
    assert(p / 1000 <= 10_000_000) by (nonlinear_arith)
        requires p <= 10_000_000_000, p >= 0;
}

} // verus!
