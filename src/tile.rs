use crate::geom::{
    in_limit, length, lemma_coord_le_length, lemma_scaled_bound, scale, scaled, vsub,
    Vec2, UNIT,
};
use crate::mutation::{is_primary, mix_spec, same_mutation, Mutation};
use crate::player::{lemma_length_unique, vlen, Player, MAX_DT, START_LIMIT, VEL_LIMIT};
use crate::projectile::Projectile;
use crate::random::roll_below;
use vstd::prelude::*;

verus! {

/// Milliseconds between two shots of an angry weed.
pub const ANGRY_WEED_SHOOT_TIME: i64 = 3000;

/// Milliseconds fertilized soil takes to grow something.
pub const FERTILIZED_SOIL_TIME: i64 = 3000;

/// Within this distance of the player an angry weed shoots faster.
pub const ALERT_RANGE: i64 = 2000;

/// An angry weed keeps the player at least this far away.
pub const REPEL_RANGE: i64 = 800;

pub const PROJECTILE_RADIUS: i64 = 200;

/// Projectile speed, in length units per second.
pub const PROJECTILE_SPEED: i64 = 3000;

/// One cell of the map.
#[allow(inconsistent_fields)]
#[derive(Copy, Clone, Debug, PartialEq, Eq, Structural)]
pub enum Tile {
    Nothing,
    BrokenShell,
    CrushedShell,
    FertilizedSoil { time: i64, mutation: Option<Mutation> },
    Food { mutation: Option<Mutation> },
    Poop { mutation: Option<Mutation> },
    AngryWeed { time: i64, mutation: Option<Mutation> },
    MutatedRoot,
    Trophey { mutation: Mutation },
}

/// The centre of cell `(x, y)`.
pub open spec fn cell_center(x: usize, y: usize) -> Vec2 {
    Vec2 { x: (x as int * UNIT + UNIT / 2) as i64, y: (y as int * UNIT + UNIT / 2) as i64 }
}

/// What the countdown of an angry weed loses in `dt` milliseconds with the
/// player `dist` away: the plain `dt`, or more the closer the player is.
pub open spec fn weed_drain(time: int, dt: int, dist: int, max_speed: int) -> int {
    if REPEL_RANGE < dist < ALERT_RANGE && max_speed > 0 {
        let t = (dist - REPEL_RANGE) * 1000 / (2 * max_speed);
        if t > 0 && time * dt / t > dt { time * dt / t } else { dt }
    } else {
        dt
    }
}

/// Where a player at `pos` ends up when pushed out of a weed at `c`.
pub open spec fn repelled(pos: Vec2, c: Vec2) -> Vec2 {
    let d = Vec2 { x: (pos.x - c.x) as i64, y: (pos.y - c.y) as i64 };
    let l = vlen(d);
    if 0 < l < REPEL_RANGE {
        Vec2 {
            x: (c.x + scaled(d, REPEL_RANGE as int, l).0) as i64,
            y: (c.y + scaled(d, REPEL_RANGE as int, l).1) as i64,
        }
    } else {
        pos
    }
}

/// A tile after the player lands on it, but for a mutated root and a
/// trophy, which also change the player.
pub open spec fn landed_tile(t: Tile) -> Tile {
    match t {
        Tile::BrokenShell => Tile::CrushedShell,
        Tile::CrushedShell => Tile::FertilizedSoil { time: FERTILIZED_SOIL_TIME, mutation: None },
        Tile::Poop { mutation } => Tile::FertilizedSoil { time: FERTILIZED_SOIL_TIME, mutation },
        Tile::Food { mutation } => Tile::FertilizedSoil { time: FERTILIZED_SOIL_TIME, mutation },
        Tile::FertilizedSoil { .. } => Tile::Nothing,
        Tile::MutatedRoot => Tile::Nothing,
        Tile::Trophey { .. } => Tile::Nothing,
        _ => t,
    }
}

/// The burst that landing on a tile gives off, if any.
pub open spec fn land_burst(t: Tile) -> Option<Option<Mutation>> {
    match t {
        Tile::BrokenShell => Some(None),
        Tile::CrushedShell => Some(None),
        Tile::Poop { mutation } => Some(mutation),
        Tile::Food { mutation } => Some(mutation),
        Tile::FertilizedSoil { mutation, .. } => Some(mutation),
        Tile::MutatedRoot => Some(Some(Mutation::RGB)),
        _ => None,
    }
}

/// A tile after a projectile with mutation `m` strikes it.
pub open spec fn struck_tile(t: Tile, m: Option<Mutation>) -> Tile {
    match t {
        Tile::AngryWeed { mutation, .. } => {
            if mutation == m {
                match mutation {
                    Some(c) => Tile::Trophey { mutation: c },
                    None => Tile::MutatedRoot,
                }
            } else {
                t
            }
        },
        _ => t,
    }
}

pub open spec fn is_weed_of(t: Tile, m: Option<Mutation>) -> bool {
    t matches Tile::AngryWeed { mutation, .. } && mutation == m
}

/// What fertilized soil turns into once grown, without peace left: a
/// weighted pick of food (weight 3) and an angry weed (weight 1).
pub open spec fn grown(roll: u32, mutation: Option<Mutation>) -> Tile {
    if roll < 3 {
        Tile::Food { mutation }
    } else {
        Tile::AngryWeed { time: ANGRY_WEED_SHOOT_TIME, mutation }
    }
}

pub fn grown_tile(roll: u32, mutation: Option<Mutation>) -> (r: Tile)
    requires
        roll < 4,
    ensures
        r == grown(roll, mutation),
{
    if roll < 3 {
        Tile::Food { mutation }
    } else {
        Tile::AngryWeed { time: ANGRY_WEED_SHOOT_TIME, mutation }
    }
}

/// The primary colour drawn for a mutated root.
fn random_primary(rng: &mut rand::rngs::StdRng) -> (r: Mutation)
    ensures
        is_primary(r),
{
    let i = roll_below(rng, 3);
    Mutation::primary(i)
}

/// The name of a tile's kind.
pub open spec fn tile_name(t: Tile) -> &'static str {
    match t {
        Tile::Nothing => "Nothing",
        Tile::BrokenShell => "Broken shell",
        Tile::CrushedShell => "Crushed shell",
        Tile::FertilizedSoil { .. } => "Fertilized soil",
        Tile::Food { .. } => "Food",
        Tile::Poop { .. } => "Poop",
        Tile::AngryWeed { .. } => "Angry weed",
        Tile::MutatedRoot => "Mutated root",
        Tile::Trophey { .. } => "Trophey",
    }
}

/// One tick of fertilized soil `t`, which becomes `u`, with `peace` going to
/// `peace2` and burst `r` given off.
pub open spec fn soil_step(
    t: Tile,
    u: Tile,
    peace: usize,
    peace2: usize,
    r: Option<Option<Mutation>>,
    dt: int,
) -> bool {
    let time = t->FertilizedSoil_time;
    let m = t->FertilizedSoil_mutation;
    &&& time - dt > 0 ==> u == Tile::FertilizedSoil { time: (time - dt) as i64, mutation: m }
        && r.is_none() && peace2 == peace
    &&& time - dt <= 0 && peace > 0 ==> u == Tile::Food { mutation: m } && r == Some(m) && peace2 == peace - 1
    &&& time - dt <= 0 && peace == 0 ==> (u == Tile::Food { mutation: m }
        || u == Tile::AngryWeed { time: ANGRY_WEED_SHOOT_TIME, mutation: m }) && r == Some(m) && peace2 == 0
}

/// One tick of the angry weed `t` at cell `(x, y)`, which becomes `u`; the
/// player goes from `a` to `b` and the projectiles from `ps` to `qs`.
pub open spec fn weed_step(
    t: Tile,
    u: Tile,
    x: usize,
    y: usize,
    a: Player,
    b: Player,
    ps: Seq<Projectile>,
    qs: Seq<Projectile>,
    dt: int,
) -> bool {
    let time = t->AngryWeed_time;
    let m = t->AngryWeed_mutation;
    let c = cell_center(x, y);
    let d = Vec2 { x: (a.pos.x - c.x) as i64, y: (a.pos.y - c.y) as i64 };
    let left = time - weed_drain(time as int, dt, vlen(d), a.max_speed as int);
    let p = repelled(a.pos, c);
    let aim = Vec2 { x: (p.x - c.x) as i64, y: (p.y - c.y) as i64 };
    &&& b == (Player { pos: p, ..a })
    &&& left >= 0 ==> u == Tile::AngryWeed { time: left as i64, mutation: m } && qs == ps
    &&& left < 0 ==> u == Tile::AngryWeed { time: ANGRY_WEED_SHOOT_TIME, mutation: m }
    &&& left < 0 && p == c ==> qs == ps
    &&& left < 0 && p != c ==> {
        let q = qs.last();
        &&& qs == ps.push(q)
        &&& q.inv() && q.alive && q.pos == c && q.mutation == m
        &&& q.radius == PROJECTILE_RADIUS
        &&& q.spawn == (x, y)
        &&& (q.vel.x as int, q.vel.y as int) == scaled(aim, PROJECTILE_SPEED as int, vlen(aim))
    }
}

/// One tick of tile `t` at cell `(x, y)`, which becomes `u`: the player goes
/// from `a` to `b`, the projectiles from `ps` to `qs`, the peace from `pe`
/// to `pe2`, and `r` is the burst given off.
pub open spec fn cell_step(
    t: Tile,
    u: Tile,
    x: usize,
    y: usize,
    a: Player,
    b: Player,
    ps: Seq<Projectile>,
    qs: Seq<Projectile>,
    pe: usize,
    pe2: usize,
    r: Option<Option<Mutation>>,
    dt: int,
) -> bool {
    &&& t is FertilizedSoil ==> soil_step(t, u, pe, pe2, r, dt) && b == a && qs == ps
    &&& t is AngryWeed ==> weed_step(t, u, x, y, a, b, ps, qs, dt) && pe2 == pe && r is None
    &&& !(t is FertilizedSoil) && !(t is AngryWeed) ==> u == t && pe2 == pe && b == a && qs == ps && r is None
}

/// How the player `a` becomes `b` on landing on tile `t`: a mutated root
/// mixes a primary colour into the player's mutation, a trophy joins the
/// player's set, any other tile leaves the player as it is.
pub open spec fn landed_player(t: Tile, a: Player, b: Player) -> bool {
    &&& t is MutatedRoot ==> exists|k: Mutation| is_primary(k)
        && b == (Player { mutation: mix_spec(Some(k), a.mutation), ..a })
    &&& t is Trophey ==> b.tropheys@.to_set() == a.tropheys@.to_set().insert(t->Trophey_mutation)
        && b == (Player { tropheys: b.tropheys, ..a })
    &&& !(t is MutatedRoot) && !(t is Trophey) ==> b == a
}

impl Tile {
    pub open spec fn inv(&self) -> bool {
        match *self {
            Tile::FertilizedSoil { time, .. } => 0 <= time <= FERTILIZED_SOIL_TIME,
            Tile::AngryWeed { time, .. } => 0 <= time <= ANGRY_WEED_SHOOT_TIME,
            _ => true,
        }
    }

    pub fn is_trophey(&self) -> (r: bool)
        ensures
            r == (*self is Trophey),
    {
        match self {
            Tile::Trophey { .. } => true,
            _ => false,
        }
    }

    pub fn is_food(&self) -> (r: bool)
        ensures
            r == (*self is Food),
    {
        match self {
            Tile::Food { .. } => true,
            _ => false,
        }
    }

    pub fn is_poop(&self) -> (r: bool)
        ensures
            r == (*self is Poop),
    {
        match self {
            Tile::Poop { .. } => true,
            _ => false,
        }
    }

    /// The name of the tile, as a hover text shows it.
    pub fn text(&self) -> (r: String)
        ensures
            r@ == tile_name(*self)@,
    {
        match self {
            Tile::Nothing => "Nothing".to_string(),
            Tile::BrokenShell => "Broken shell".to_string(),
            Tile::CrushedShell => "Crushed shell".to_string(),
            Tile::FertilizedSoil { .. } => "Fertilized soil".to_string(),
            Tile::Food { .. } => "Food".to_string(),
            Tile::Poop { .. } => "Poop".to_string(),
            Tile::AngryWeed { .. } => "Angry weed".to_string(),
            Tile::MutatedRoot => "Mutated root".to_string(),
            Tile::Trophey { .. } => "Trophey".to_string(),
        }
    }

    /// Grows fertilized soil by `dt` milliseconds. Once its time is up it
    /// becomes food while peace is left (using one), else food or an angry
    /// weed by a weighted draw; it then gives off a burst of its mutation.
    pub fn update_soil(&mut self, dt: i64, peace: &mut usize, rng: &mut rand::rngs::StdRng)
        -> (r: Option<Option<Mutation>>)
        requires
            old(self).inv(),
            *old(self) is FertilizedSoil,
            0 <= dt <= MAX_DT,
        ensures
            final(self).inv(),
            soil_step(*old(self), *final(self), *old(peace), *final(peace), r, dt as int),
    {
        match *self {
            Tile::FertilizedSoil { time, mutation } => {
                let left: i64 = time - dt;
                if left > 0 {
                    *self = Tile::FertilizedSoil { time: left, mutation };
                    None
                } else {
                    if *peace > 0 {
                        *peace = *peace - 1;
                        *self = Tile::Food { mutation };
                    } else {
                        let roll = roll_below(rng, 4);
                        *self = grown_tile(roll, mutation);
                    }
                    Some(mutation)
                }
            },
            _ => None,
        }
    }

    /// Runs an angry weed at cell `(x, y)` for `dt` milliseconds: its
    /// countdown drains faster as the player comes near, the player is pushed
    /// out of its reach, and when the countdown runs out it restarts and,
    /// unless the player stands on its centre, shoots at the player.
    pub fn update_weed(
        &mut self,
        dt: i64,
        x: usize,
        y: usize,
        projectiles: &mut Vec<Projectile>,
        player: &mut Player,
    )
        requires
            old(self).inv(),
            *old(self) is AngryWeed,
            x < 16 && y < 16,
            0 <= dt <= MAX_DT,
            old(player).inv(),
            in_limit(old(player).pos, START_LIMIT as int),
        ensures
            final(self).inv(),
            final(player).inv(),
            final(player).pos == old(player).pos || in_limit(final(player).pos, 17 * UNIT),
            weed_step(*old(self), *final(self), x, y, *old(player), *final(player), old(projectiles)@,
                final(projectiles)@, dt as int),
    {
        let (time, mutation) = match *self {
            Tile::AngryWeed { time, mutation } => (time, mutation),
            _ => (0, None),
        };
        let c = Vec2 { x: (x as i64) * UNIT + UNIT / 2, y: (y as i64) * UNIT + UNIT / 2 };
        let d = vsub(player.pos, c);
        let dist = length(d);
        proof {
            lemma_length_unique(d, dist as int);
        }
        let drain = weed_drain_of(time, dt, dist, player.max_speed);
        let mut left: i64 = time - drain;
        if dist < REPEL_RANGE && dist > 0 {
            proof {
                lemma_coord_le_length(d, dist as int);
                lemma_scaled_bound(d.x as int, REPEL_RANGE as int, dist as int);
                lemma_scaled_bound(d.y as int, REPEL_RANGE as int, dist as int);
            }
            let push = scale(d, REPEL_RANGE, dist);
            player.pos = Vec2 { x: c.x + push.x, y: c.y + push.y };
        }
        if left < 0 {
            left = ANGRY_WEED_SHOOT_TIME;
            let aim = vsub(player.pos, c);
            let al = length(aim);
            proof {
                lemma_length_unique(aim, al as int);
            }
            if al > 0 {
                proof {
                    lemma_coord_le_length(aim, al as int);
                    lemma_scaled_bound(aim.x as int, PROJECTILE_SPEED as int, al as int);
                    lemma_scaled_bound(aim.y as int, PROJECTILE_SPEED as int, al as int);
                }
                let vel = scale(aim, PROJECTILE_SPEED, al);
                let q = Projectile::new(c, PROJECTILE_RADIUS, vel, mutation);
                projectiles.push(q);
            }
        }
        *self = Tile::AngryWeed { time: left, mutation };
    }

    /// One tick of `dt` milliseconds of the tile at cell `(x, y)`: soil grows,
    /// an angry weed aims and shoots, other tiles wait. Gives back the burst
    /// of grown soil.
    pub fn update(
        &mut self,
        dt: i64,
        peace: &mut usize,
        x: usize,
        y: usize,
        projectiles: &mut Vec<Projectile>,
        player: &mut Player,
        rng: &mut rand::rngs::StdRng,
    ) -> (r: Option<Option<Mutation>>)
        requires
            old(self).inv(),
            x < 16 && y < 16,
            0 <= dt <= MAX_DT,
            old(player).inv(),
            in_limit(old(player).pos, START_LIMIT as int),
        ensures
            final(self).inv(),
            final(player).inv(),
            final(player).pos == old(player).pos || in_limit(final(player).pos, 17 * UNIT),
            cell_step(*old(self), *final(self), x, y, *old(player), *final(player), old(projectiles)@,
                final(projectiles)@, *old(peace), *final(peace), r, dt as int),
    {
        match *self {
            Tile::FertilizedSoil { .. } => self.update_soil(dt, peace, rng),
            Tile::AngryWeed { .. } => {
                self.update_weed(dt, x, y, projectiles, player);
                None
            },
            _ => None,
        }
    }

    /// Lands the player on this tile; gives back the burst it gives off.
    pub fn handle_land(&mut self, player: &mut Player, rng: &mut rand::rngs::StdRng)
        -> (r: Option<Option<Mutation>>)
        requires
            old(self).inv(),
            old(player).inv(),
        ensures
            final(self).inv(),
            final(player).inv(),
            *final(self) == landed_tile(*old(self)),
            r == land_burst(*old(self)),
            landed_player(*old(self), *old(player), *final(player)),
    {
        match *self {
            Tile::BrokenShell => {
                *self = Tile::CrushedShell;
                Some(None)
            },
            Tile::CrushedShell => {
                *self = Tile::FertilizedSoil { time: FERTILIZED_SOIL_TIME, mutation: None };
                Some(None)
            },
            Tile::Poop { mutation } | Tile::Food { mutation } => {
                *self = Tile::FertilizedSoil { time: FERTILIZED_SOIL_TIME, mutation };
                Some(mutation)
            },
            Tile::FertilizedSoil { mutation, .. } => {
                *self = Tile::Nothing;
                Some(mutation)
            },
            Tile::MutatedRoot => {
                *self = Tile::Nothing;
                let k = random_primary(rng);
                player.mutation = k.mix(player.mutation);
                Some(Some(Mutation::RGB))
            },
            Tile::Trophey { mutation } => {
                player.collect(mutation);
                *self = Tile::Nothing;
                None
            },
            _ => None,
        }
    }

    /// A projectile strikes this tile: an angry weed of the very same
    /// mutation dies, leaving a trophy of its colour, or a mutated root if it
    /// had none, and the projectile dies with it.
    pub fn collide_projectile(&mut self, p: &mut Projectile)
        ensures
            *final(self) == struck_tile(*old(self), old(p).mutation),
            is_weed_of(*old(self), old(p).mutation) ==> *final(p) == (Projectile { alive: false, ..*old(p) }),
            !is_weed_of(*old(self), old(p).mutation) ==> *final(p) == *old(p),
            old(self).inv() ==> final(self).inv(),
    {
        match *self {
            Tile::AngryWeed { mutation, .. } => {
                if same_mutation(mutation, p.mutation) {
                    match mutation {
                        Some(c) => {
                            *self = Tile::Trophey { mutation: c };
                        },
                        None => {
                            *self = Tile::MutatedRoot;
                        },
                    }
                    p.alive = false;
                }
            },
            _ => {},
        }
    }
}

/// What an angry weed's countdown loses this tick.
pub fn weed_drain_of(time: i64, dt: i64, dist: i64, max_speed: i64) -> (r: i64)
    requires
        0 <= time <= ANGRY_WEED_SHOOT_TIME,
        0 <= dt <= MAX_DT,
        0 <= dist,
        0 <= max_speed <= VEL_LIMIT,
    ensures
        r == weed_drain(time as int, dt as int, dist as int, max_speed as int),
        dt <= r <= ANGRY_WEED_SHOOT_TIME * MAX_DT,
{
    if REPEL_RANGE < dist && dist < ALERT_RANGE && max_speed > 0 {
        let t: i64 = (dist - REPEL_RANGE) * 1000 / (2 * max_speed);
        if t > 0 {
            assert(0 <= time * dt <= ANGRY_WEED_SHOOT_TIME * MAX_DT) by (nonlinear_arith)
                requires 0 <= time <= ANGRY_WEED_SHOOT_TIME, 0 <= dt <= MAX_DT;
            let fast: i64 = time * dt / t;
            assert(fast <= time * dt) by (nonlinear_arith)
                requires fast == (time * dt) / (t as int), t > 0, time * dt >= 0;
            if fast > dt { fast } else { dt }
        } else {
            dt
        }
    } else {
        dt
    }
}

/// Landing on a broken shell always crushes it, and changes nothing of the
/// player, whatever the player carries.
pub proof fn lemma_broken_shell_crushes()
    ensures
        landed_tile(Tile::BrokenShell) == Tile::CrushedShell,
        land_burst(Tile::BrokenShell) == Some(None::<Mutation>),
{
}

/// Landing and projectile strikes keep every tile well formed.
pub proof fn lemma_tile_ops_well_formed(t: Tile, m: Option<Mutation>)
    requires
        t.inv(),
    ensures
        landed_tile(t).inv(),
        struck_tile(t, m).inv(),
{
}

} // verus!
