use crate::farm::{
    after_tile, farm_tick, hover_text, struck_tiles,    cell_at, cell_of, count_tiles, index, Burst, Farm, TileQuery, CELLS, SIDE,
};
use crate::geom::{in_limit, norm_sq, vsub, Vec2, COORD_LIMIT, UNIT};
use crate::mutation::{lemma_mix_none_identity, mix_spec, same_mutation, Mutation};
use crate::player::{
    aimed, player_step, capped, clamp_abs, Player, BORN_RADIUS, HATCHLING_RADIUS, MAX_DT, POS_LIMIT, START_LIMIT, VEL_LIMIT,
};
use crate::projectile::Projectile;
use crate::random::{seeded_rng, shuffle_cells};
use crate::stage::{rank, scan_spec, Progress, Stage};
use crate::tile::{
    cell_center, land_burst, landed_player, landed_tile, Tile, FERTILIZED_SOIL_TIME,
};
use vstd::prelude::*;

verus! {

/// Where the hatchling starts: the middle of the farm.
pub const CENTER: i64 = 8000;

/// Length of the farm's side in length units.
pub const EXTENT: i64 = 16_000;

/// Shell pieces that make the hatchling break out.
pub const SHELL_PIECES: usize = 3;

/// Optional mixing: "no mutation" leaves `carried` as it is.
pub fn mix_into(m: Option<Mutation>, carried: Option<Mutation>) -> (r: Option<Mutation>)
    ensures
        r == mix_spec(m, carried),
{
    proof {
        lemma_mix_none_identity(carried);
    }
    match m {
        Some(c) => c.mix(carried),
        None => carried,
    }
}

/// Two projectiles overlap and carry the same mutation.
pub open spec fn clash(a: Projectile, b: Projectile) -> bool {
    norm_sq(Vec2 { x: (a.pos.x - b.pos.x) as i64, y: (a.pos.y - b.pos.y) as i64 })
        < (a.radius + b.radius) * (a.radius + b.radius)
    && a.mutation == b.mutation
}

/// Squared distance between two points, exact.
pub fn dist_sq(a: Vec2, b: Vec2) -> (r: i64)
    requires
        in_limit(a, POS_LIMIT as int),
        in_limit(b, START_LIMIT as int),
    ensures
        r == norm_sq(Vec2 { x: (a.x - b.x) as i64, y: (a.y - b.y) as i64 }),
{
    let d = vsub(a, b);
    let dx = d.x;
    let dy = d.y;
    assert(-0x6000_0000 <= dx <= 0x6000_0000);
    assert(-0x6000_0000 <= dy <= 0x6000_0000);
    assert(0 <= dx * dx <= 0x2400_0000_0000_0000) by (nonlinear_arith)
        requires -0x6000_0000 <= dx <= 0x6000_0000;
    assert(0 <= dy * dy <= 0x2400_0000_0000_0000) by (nonlinear_arith)
        requires -0x6000_0000 <= dy <= 0x6000_0000;
    dx * dx + dy * dy
}

/// The unordered pair `{k, m}` comes before position `(i, j)` of a scan
/// over pairs `(a, b)` with `b < a`.
pub open spec fn pair_seen(k: int, m: int, i: int, j: int) -> bool {
    let hi = if k > m { k } else { m };
    let lo = if k > m { m } else { k };
    hi < i || (hi == i && lo < j)
}

/// The projectile at `k` of `s` is alive and clashes with none of the others
/// that the pair scan has met before position `(i, j)`.
pub open spec fn survives(s: Seq<Projectile>, k: int, i: int, j: int) -> bool {
    s[k].alive && forall|m: int| 0 <= m < s.len() && m != k && pair_seen(k, m, i, j)
        ==> !clash(s[k], #[trigger] s[m])
}

/// The projectile at `k` of `s` meets no other one that clashes with it.
pub open spec fn untouched(s: Seq<Projectile>, k: int) -> bool {
    forall|m: int| 0 <= m < s.len() && m != k ==> !clash(s[k], #[trigger] s[m])
}

pub proof fn lemma_clash_symmetric(a: Projectile, b: Projectile)
    requires
        a.inv(),
        b.inv(),
    ensures
        clash(a, b) == clash(b, a),
{
    let dx = a.pos.x - b.pos.x;
    let dy = a.pos.y - b.pos.y;
    assert(dx * dx == (-dx) * (-dx)) by (nonlinear_arith);
    assert(dy * dy == (-dy) * (-dy)) by (nonlinear_arith);
}

/// Kills every two projectiles that overlap and carry the same mutation;
/// projectiles of different mutations pass each other.
pub fn annihilate(projectiles: &mut Vec<Projectile>)
    requires
        forall|k: int| 0 <= k < old(projectiles)@.len() ==> (#[trigger] old(projectiles)@[k]).inv()
            && in_limit(old(projectiles)@[k].pos, START_LIMIT as int),
    ensures
        final(projectiles)@.len() == old(projectiles)@.len(),
        forall|k: int| 0 <= k < old(projectiles)@.len() ==> #[trigger] final(projectiles)@[k] == (Projectile {
            alive: old(projectiles)@[k].alive && untouched(old(projectiles)@, k),
            ..old(projectiles)@[k]
        }),
{
    let ghost orig = projectiles@;
    let n = projectiles.len();
    let mut i: usize = 0;
    while i < n
        invariant
            n == orig.len(),
            projectiles@.len() == n,
            i <= n,
            forall|k: int| 0 <= k < n ==> (#[trigger] orig[k]).inv() && in_limit(orig[k].pos, START_LIMIT as int),
            forall|k: int| 0 <= k < n ==> #[trigger] projectiles@[k] == (Projectile {
                alive: survives(orig, k, i as int, 0),
                ..orig[k]
            }),
        decreases n - i,
    {
        let mut j: usize = 0;
        while j < i
            invariant
                n == orig.len(),
                projectiles@.len() == n,
                j <= i < n,
                forall|k: int| 0 <= k < n ==> (#[trigger] orig[k]).inv() && in_limit(orig[k].pos, START_LIMIT as int),
                forall|k: int| 0 <= k < n ==> #[trigger] projectiles@[k] == (Projectile {
                    alive: survives(orig, k, i as int, j as int),
                    ..orig[k]
                }),
            decreases i - j,
        {
            let a = projectiles[i].pos;
            let b = projectiles[j].pos;
            let rr: i64 = projectiles[i].radius + projectiles[j].radius;
            assert(0 <= rr * rr <= 4 * UNIT * UNIT) by (nonlinear_arith)
                requires 0 <= rr <= 2 * UNIT;
            proof {
                lemma_clash_symmetric(orig[i as int], orig[j as int]);
            }
            let hit = dist_sq(a, b) < rr * rr && same_mutation(projectiles[i].mutation, projectiles[j].mutation);
            assert(hit == clash(orig[i as int], orig[j as int]));
            if hit {
                let mut pi = projectiles[i];
                pi.alive = false;
                projectiles.set(i, pi);
                let mut pj = projectiles[j];
                pj.alive = false;
                projectiles.set(j, pj);
            }
            assert forall|k: int| 0 <= k < n implies #[trigger] projectiles@[k] == (Projectile {
                alive: survives(orig, k, i as int, j + 1),
                ..orig[k]
            }) by {
                assert(pair_seen(i as int, j as int, i as int, j + 1));
                assert(pair_seen(j as int, i as int, i as int, j + 1));
            }
            j += 1;
        }
        assert forall|k: int| 0 <= k < n implies #[trigger] projectiles@[k] == (Projectile {
            alive: survives(orig, k, i + 1, 0),
            ..orig[k]
        }) by {
            assert forall|m: int| 0 <= m < n && m != k implies
                pair_seen(k, m, i + 1, 0) == pair_seen(k, m, i as int, i as int) by {}
        }
        i += 1;
    }
    assert forall|k: int| 0 <= k < n implies #[trigger] projectiles@[k] == (Projectile {
        alive: orig[k].alive && untouched(orig, k),
        ..orig[k]
    }) by {
        assert forall|m: int| 0 <= m < n implies pair_seen(k, m, n as int, 0) by {}
    }
}

/// Whether the live projectile `p` overlaps the live player.
pub open spec fn hits(player: Player, p: Projectile) -> bool {
    p.alive && player.alive && norm_sq(Vec2 { x: (p.pos.x - player.pos.x) as i64, y: (p.pos.y - player.pos.y) as i64 })
        < (p.radius + player.radius) * (p.radius + player.radius)
}

/// The player after projectile `p` flies by: a hit kills a player who is
/// almost dead, and leaves any other almost dead and knocked along the
/// projectile's flight.
pub open spec fn struck_player(a: Player, p: Projectile) -> Player {
    if !hits(a, p) {
        a
    } else if a.almost_dead {
        Player { alive: false, ..a }
    } else {
        Player { almost_dead: true, vel: capped(a.vel.x + 2 * p.vel.x, a.vel.y + 2 * p.vel.y), ..a }
    }
}

/// Projectile `p` after flying by the player: it dies if it hits.
pub open spec fn after_strike(a: Player, p: Projectile) -> Projectile {
    if hits(a, p) { Projectile { alive: false, ..p } } else { p }
}

/// One projectile's flight: `p` becomes `q`, the player goes from `a` to
/// `b` and the tiles from `t0` to `t1`. It may hit the player, then strikes
/// the tile under it, then moves, and it dies once off the farm.
pub open spec fn flight(p: Projectile, q: Projectile, a: Player, b: Player, t0: Seq<Tile>, t1: Seq<Tile>, dt: int) -> bool {
    let p1 = after_strike(a, p);
    let p2 = after_tile(t0, p1);
    let pos = crate::player::moved(p2.pos, p2.vel, dt);
    &&& b == struck_player(a, p)
    &&& t1 == struck_tiles(t0, p1)
    &&& q == (Projectile { pos, alive: p2.alive && over_farm(pos), ..p2 })
}

/// The flights of the projectiles `ps`, in order, which become `qs`: `pl[k]`
/// and `ts[k]` are the player and the tiles as projectile `k` flies.
pub open spec fn fly_trace(ps: Seq<Projectile>, qs: Seq<Projectile>, pl: Seq<Player>, ts: Seq<Seq<Tile>>, dt: int) -> bool {
    &&& qs.len() == ps.len() && pl.len() == ps.len() + 1 && ts.len() == ps.len() + 1
    &&& forall|k: int| 0 <= k < ps.len() ==> #[trigger] flight(ps[k], qs[k], pl[k], pl[k + 1], ts[k], ts[k + 1], dt)
}

/// A projectile strikes the player if they overlap: it dies; a player who
/// is almost dead dies, any other becomes almost dead and is knocked along
/// the projectile's flight. Gives back the burst, if any.
pub fn strike_player(player: &mut Player, p: &mut Projectile) -> (r: Option<Burst>)
    requires
        old(player).inv(),
        in_limit(old(player).pos, START_LIMIT as int),
        old(p).inv(),
        in_limit(old(p).pos, START_LIMIT as int),
    ensures
        final(player).inv(),
        in_limit(final(player).pos, START_LIMIT as int),
        *final(player) == struck_player(*old(player), *old(p)),
        *final(p) == after_strike(*old(player), *old(p)),
        r is Some <==> hits(*old(player), *old(p)),
{
    let rr: i64 = p.radius + player.radius;
    assert(0 <= rr * rr <= 4 * UNIT * UNIT) by (nonlinear_arith)
        requires 0 <= rr <= 2 * UNIT;
    if p.alive && player.alive && dist_sq(p.pos, player.pos) < rr * rr {
        p.alive = false;
        if player.almost_dead {
            player.alive = false;
            Some(Burst { pos: player.pos, mutation: player.mutation })
        } else {
            player.almost_dead = true;
            player.vel = Vec2 {
                x: clamp_abs(player.vel.x + 2 * p.vel.x, VEL_LIMIT),
                y: clamp_abs(player.vel.y + 2 * p.vel.y, VEL_LIMIT),
            };
            Some(Burst { pos: p.pos, mutation: p.mutation })
        }
    } else {
        None
    }
}

/// Flies every projectile for `dt` milliseconds: it may strike the player,
/// then the tile under it, then it moves, and it dies once off the farm.
pub fn fly(
    projectiles: &mut Vec<Projectile>,
    farm: &mut Farm,
    player: &mut Player,
    bursts: &mut Vec<Burst>,
    dt: i64,
)
    requires
        old(farm).inv(),
        old(player).inv(),
        in_limit(old(player).pos, START_LIMIT as int),
        0 <= dt <= MAX_DT,
        forall|k: int| 0 <= k < old(projectiles)@.len() ==> (#[trigger] old(projectiles)@[k]).inv()
            && in_limit(old(projectiles)@[k].pos, START_LIMIT as int),
    ensures
        final(farm).inv(),
        final(farm).peace_spec() == old(farm).peace_spec(),
        final(player).inv(),
        final(player).alive ==> old(player).alive,
        *final(player) == (Player {
            alive: final(player).alive,
            almost_dead: final(player).almost_dead,
            vel: final(player).vel,
            ..*old(player)
        }),
        final(projectiles)@.len() == old(projectiles)@.len(),
        forall|k: int| 0 <= k < old(projectiles)@.len() ==> flown(old(projectiles)@[k], #[trigger] final(projectiles)@[k], dt as int)
            && final(projectiles)@[k].inv(),
        exists|pl: Seq<Player>, ts: Seq<Seq<Tile>>| #[trigger] fly_trace(old(projectiles)@, final(projectiles)@, pl, ts, dt as int)
            && pl[0] == *old(player) && pl[old(projectiles)@.len() as int] == *final(player)
            && ts[0] == old(farm).view_tiles() && ts[old(projectiles)@.len() as int] == final(farm).view_tiles(),
{
    let ghost orig = projectiles@;
    let n = projectiles.len();
    let mut i: usize = 0;
    let ghost mut pl: Seq<Player> = seq![*player];
    let ghost mut ts: Seq<Seq<Tile>> = seq![farm.view_tiles()];
    while i < n
        invariant
            n == orig.len(),
            projectiles@.len() == n,
            i <= n,
            0 <= dt <= MAX_DT,
            pl.len() == i + 1 && ts.len() == i + 1,
            pl[0] == *old(player) && ts[0] == old(farm).view_tiles(),
            pl[i as int] == *player && ts[i as int] == farm.view_tiles(),
            forall|k: int| 0 <= k < i ==> #[trigger] flight(orig[k], projectiles@[k], pl[k], pl[k + 1], ts[k], ts[k + 1], dt as int),
            farm.inv(),
            farm.peace_spec() == old(farm).peace_spec(),
            player.inv(),
            player.pos == old(player).pos,
            in_limit(player.pos, START_LIMIT as int),
            player.alive ==> old(player).alive,
            *player == (Player { alive: player.alive, almost_dead: player.almost_dead, vel: player.vel, ..*old(player) }),
            forall|k: int| 0 <= k < n ==> (#[trigger] orig[k]).inv() && in_limit(orig[k].pos, START_LIMIT as int),
            forall|k: int| i <= k < n ==> #[trigger] projectiles@[k] == orig[k],
            forall|k: int| 0 <= k < i ==> flown(orig[k], #[trigger] projectiles@[k], dt as int) && projectiles@[k].inv(),
        decreases n - i,
    {
        let mut p = projectiles[i];
        match strike_player(player, &mut p) {
            Some(b) => {
                bursts.push(b);
            },
            None => {},
        }
        farm.collide_projectile(&mut p);
        p.update(dt);
        if !(0 <= p.pos.x && p.pos.x < EXTENT && 0 <= p.pos.y && p.pos.y < EXTENT) {
            p.alive = false;
        }
        if !p.alive {
            bursts.push(Burst { pos: p.pos, mutation: p.mutation });
        }
        projectiles.set(i, p);
        proof {
            pl = pl.push(*player);
            ts = ts.push(farm.view_tiles());
            assert(flight(orig[i as int], projectiles@[i as int], pl[i as int], pl[i + 1], ts[i as int], ts[i + 1], dt as int));
        }
        i += 1;
    }
    assert(fly_trace(orig, projectiles@, pl, ts, dt as int));
}

pub open spec fn is_alive(p: Projectile) -> bool {
    p.alive
}

/// Drops the dead projectiles, keeping the order of the others.
pub fn sweep(projectiles: &mut Vec<Projectile>)
    requires
        forall|k: int| 0 <= k < old(projectiles)@.len() ==> (#[trigger] old(projectiles)@[k]).inv()
            && (old(projectiles)@[k].alive ==> over_farm(old(projectiles)@[k].pos)),
    ensures
        final(projectiles)@ == old(projectiles)@.filter(|p: Projectile| is_alive(p)),
        forall|k: int| 0 <= k < final(projectiles)@.len() ==> (#[trigger] final(projectiles)@[k]).inv()
            && final(projectiles)@[k].alive && over_farm(final(projectiles)@[k].pos),
{
    let ghost orig = projectiles@;
    let mut kept: Vec<Projectile> = Vec::new();
    let mut i: usize = 0;
    while i < projectiles.len()
        invariant
            projectiles@ == orig,
            i <= orig.len(),
            forall|k: int| 0 <= k < orig.len() ==> (#[trigger] orig[k]).inv()
                && (orig[k].alive ==> over_farm(orig[k].pos)),
            kept@ == orig.subrange(0, i as int).filter(|p: Projectile| is_alive(p)),
            forall|k: int| 0 <= k < kept@.len() ==> (#[trigger] kept@[k]).inv()
                && kept@[k].alive && over_farm(kept@[k].pos),
        decreases orig.len() - i,
    {
        proof {
            reveal(Seq::filter);
            assert(orig.subrange(0, i + 1).drop_last() =~= orig.subrange(0, i as int));
        }
        let p = projectiles[i];
        if p.alive {
            kept.push(p);
        }
        i += 1;
    }
    proof {
        assert(orig.subrange(0, orig.len() as int) =~= orig);
    }
    *projectiles = kept;
}

/// Whether a position lies over the farm.
pub open spec fn over_farm(pos: Vec2) -> bool {
    0 <= pos.x < EXTENT && 0 <= pos.y < EXTENT
}

/// A coordinate held to `[r, EXTENT - r]`.
pub open spec fn held(c: int, r: int) -> int {
    if c < r { r } else if c > EXTENT - r { EXTENT - r } else { c }
}

/// Cell `i` lies in the three-by-three block around cell `(cx, cy)`.
pub open spec fn in_block(i: int, cx: int, cy: int) -> bool {
    0 <= i < CELLS && cx - 1 <= i / SIDE as int <= cx + 1 && cy - 1 <= i % SIDE as int <= cy + 1
}

/// One empty cell of the block around `(cx, cy)` became a broken shell,
/// if there was one; nothing else changed.
pub open spec fn cracked(old_tiles: Seq<Tile>, new_tiles: Seq<Tile>, cx: int, cy: int) -> bool {
    &&& (exists|k: int| in_block(k, cx, cy) && old_tiles[k] == Tile::Nothing) ==>
        exists|k: int| in_block(k, cx, cy) && old_tiles[k] == Tile::Nothing
            && new_tiles == old_tiles.update(k, Tile::BrokenShell)
    &&& !(exists|k: int| in_block(k, cx, cy) && old_tiles[k] == Tile::Nothing) ==> new_tiles == old_tiles
}

/// Whether the speed of `vel` is more than half of `max_speed`.
pub open spec fn fast(vel: Vec2, max_speed: int) -> bool {
    4 * norm_sq(vel) > max_speed * max_speed
}

/// A projectile after a tick of flight: it moved, and it is alive only if
/// it was and still is over the farm.
pub open spec fn flown(p: Projectile, q: Projectile, dt: int) -> bool {
    &&& q == (Projectile { pos: crate::player::moved(p.pos, p.vel, dt), alive: q.alive, ..p })
    &&& q.alive ==> p.alive && over_farm(q.pos)
}

/// The whole simulation: farm, player, stage and projectiles.
pub struct Game {
    pub farm: Farm,
    pub player: Player,
    pub stage: Stage,
    pub projectiles: Vec<Projectile>,
    /// Bursts given off since the last `take_bursts`.
    pub bursts: Vec<Burst>,
    /// The direction the controls ask for, of any length.
    pub input: Vec2,
    pub rng: rand::rngs::StdRng,
}

/// What the stage scan sees in game `g`.
pub open spec fn progress_of(g: Game) -> Progress {
    Progress {
        landed: g.player.landed,
        fertilized_soil: count_tiles(g.farm.view_tiles(), TileQuery::FertilizedSoil) as usize,
        food: count_tiles(g.farm.view_tiles(), TileQuery::Food) as usize,
        poop: count_tiles(g.farm.view_tiles(), TileQuery::Poop) as usize,
        angry_weeds: count_tiles(g.farm.view_tiles(), TileQuery::AngryWeed) as usize,
        mutated_weeds: count_tiles(g.farm.view_tiles(), TileQuery::MutatedWeed) as usize,
        mutated_roots: count_tiles(g.farm.view_tiles(), TileQuery::MutatedRoot) as usize,
        tropheys: count_tiles(g.farm.view_tiles(), TileQuery::Trophey) as usize,
        player_mutated: g.player.mutation.is_some(),
        collected: g.player.tropheys@.len() as usize,
    }
}

/// The tiles run for `dt` milliseconds, as `farm_tick` says; their bursts
/// are added to the game's.
pub open spec fn farm_phase(a: Game, b: Game, dt: int) -> bool {
    &&& b.bursts@.len() >= a.bursts@.len()
    &&& b.bursts@.take(a.bursts@.len() as int) == a.bursts@
    &&& farm_tick(a.farm, b.farm, a.player, b.player, a.projectiles@, b.projectiles@,
        b.bursts@.skip(a.bursts@.len() as int), dt)
    &&& b == (Game { farm: b.farm, player: b.player, projectiles: b.projectiles, bursts: b.bursts, rng: b.rng, ..a })
}

/// A player who has not eaten and stands on food eats it: the food's
/// mutation mixes into the player's, the player is no longer almost dead,
/// and the cell becomes fresh soil of the food's mutation.
pub open spec fn eat_step(a: Game, b: Game) -> bool {
    let (x, y) = cell_of(a.player.pos);
    let i = index(x as int, y as int);
    let t = a.farm.view_tiles()[i];
    &&& (!a.player.eaten && t is Food) ==> {
        &&& b.player == (Player {
            eaten: true,
            almost_dead: false,
            mutation: mix_spec(t->Food_mutation, a.player.mutation),
            ..a.player
        })
        &&& b.farm.view_tiles() == a.farm.view_tiles().update(
            i, Tile::FertilizedSoil { time: FERTILIZED_SOIL_TIME, mutation: t->Food_mutation })
        &&& b.farm.peace_spec() == a.farm.peace_spec()
        &&& b == (Game { farm: b.farm, player: b.player, ..a })
    }
    &&& !(!a.player.eaten && t is Food) ==> b == a
}

/// The bursts that landing on tile `t` at cell `(x, y)` gives off.
pub open spec fn land_bursts(t: Tile, x: usize, y: usize) -> Seq<Burst> {
    match land_burst(t) {
        Some(m) => seq![Burst { pos: cell_center(x, y), mutation: m }],
        None => Seq::empty(),
    }
}

/// The landed signal is consumed. A player who has eaten and lands on an
/// empty cell leaves poop of its mutation there and carries none after; any
/// other landing acts on the tile below, as `landed_tile` and
/// `landed_player` say.
pub open spec fn touch_step(a: Game, b: Game) -> bool {
    let (x, y) = cell_of(a.player.pos);
    let i = index(x as int, y as int);
    let t = a.farm.view_tiles()[i];
    let poops = a.player.eaten && t == Tile::Nothing;
    let calm = Player { landed: false, ..a.player };
    &&& !a.player.landed ==> b == a
    &&& a.player.landed && poops ==> {
        &&& b.player == (Player { eaten: false, mutation: None, ..calm })
        &&& b.farm.view_tiles() == a.farm.view_tiles().update(i, Tile::Poop { mutation: a.player.mutation })
        &&& b.farm.peace_spec() == a.farm.peace_spec()
        &&& b.bursts@ == a.bursts@.push(Burst { pos: a.player.pos, mutation: a.player.mutation })
        &&& b == (Game { farm: b.farm, player: b.player, bursts: b.bursts, ..a })
    }
    &&& a.player.landed && !poops ==> {
        &&& landed_player(t, calm, b.player)
        &&& b.farm.view_tiles() == a.farm.view_tiles().update(i, landed_tile(t))
        &&& b.farm.peace_spec() == a.farm.peace_spec()
        &&& b.bursts@ == a.bursts@ + land_bursts(t, x, y)
        &&& b == (Game { farm: b.farm, player: b.player, bursts: b.bursts, rng: b.rng, ..a })
    }
}

/// At `Start`, a hatchling more than one tile from where it started is
/// `Moving`.
pub open spec fn moving_step(a: Game, b: Game) -> bool {
    let far = norm_sq(Vec2 { x: (a.player.pos.x - CENTER) as i64, y: (a.player.pos.y - CENTER) as i64 })
        > UNIT * UNIT;
    &&& (a.stage == Stage::Start && far) ==> b == (Game { stage: Stage::Moving, ..a })
    &&& !(a.stage == Stage::Start && far) ==> b == a
}

/// The player is held inside the farm; held back, it stops, and pressed
/// against the border fast while `Moving` it breaks a piece of shell: one
/// empty cell around it becomes a broken shell, and with the third piece
/// the hatchling is born, shrinks, and the stage becomes `Born`.
pub open spec fn wall_step(a: Game, b: Game) -> bool {
    let o = a.player;
    let fix = Vec2 { x: held(o.pos.x as int, o.radius as int) as i64, y: held(o.pos.y as int, o.radius as int) as i64 };
    let breaks = a.stage == Stage::Moving && fast(o.vel, o.max_speed as int);
    let new_tiles = b.farm.view_tiles();
    &&& fix == o.pos ==> b == a
    &&& fix != o.pos && !breaks ==> b == (Game { player: Player { pos: fix, vel: Vec2 { x: 0, y: 0 }, ..o }, ..a })
    &&& fix != o.pos && breaks ==> {
        &&& b.player == (Player { pos: fix, vel: Vec2 { x: 0, y: 0 }, radius: b.player.radius, ..o })
        &&& cracked(a.farm.view_tiles(), new_tiles, cell_of(fix).0 as int, cell_of(fix).1 as int)
        &&& b.farm.peace_spec() == a.farm.peace_spec()
        &&& count_tiles(new_tiles, TileQuery::BrokenShell) == SHELL_PIECES ==>
            b.stage == Stage::Born && b.player.radius == BORN_RADIUS
        &&& count_tiles(new_tiles, TileQuery::BrokenShell) != SHELL_PIECES ==>
            b.stage == a.stage && b.player.radius == o.radius
        &&& b == (Game { farm: b.farm, player: b.player, stage: b.stage, bursts: b.bursts, rng: b.rng, ..a })
    }
}

/// Overlapping projectiles of the same mutation kill each other.
pub open spec fn annihilate_step(a: Game, b: Game) -> bool {
    &&& b.projectiles@.len() == a.projectiles@.len()
    &&& forall|k: int| 0 <= k < a.projectiles@.len() ==> #[trigger] b.projectiles@[k] == (Projectile {
        alive: a.projectiles@[k].alive && untouched(a.projectiles@, k),
        ..a.projectiles@[k]
    })
    &&& b == (Game { projectiles: b.projectiles, ..a })
}

/// The projectiles fly, in order, as `fly_trace` says.
pub open spec fn fly_step(a: Game, b: Game, dt: int) -> bool {
    let n = a.projectiles@.len() as int;
    &&& exists|pl: Seq<Player>, ts: Seq<Seq<Tile>>| #[trigger] fly_trace(a.projectiles@, b.projectiles@, pl, ts, dt)
        && pl[0] == a.player && pl[n] == b.player && ts[0] == a.farm.view_tiles() && ts[n] == b.farm.view_tiles()
    &&& b.farm.peace_spec() == a.farm.peace_spec()
    &&& b == (Game { farm: b.farm, player: b.player, projectiles: b.projectiles, bursts: b.bursts, ..a })
}

/// A whole tick of `g` over `dt` milliseconds, through the states `s[0]` to
/// `s[11]`: the player takes over the stage, the tiles run, the player
/// steers toward the input and moves, the stage scan runs, the player eats,
/// lands, leaves the start and is held inside the farm, the projectiles
/// clash and fly, and the dead ones are dropped.
pub open spec fn tick_trace(g: Game, s: Seq<Game>, dt: int) -> bool {
    &&& s.len() == 12
    &&& s[0] == (Game { player: Player { stage: g.stage, ..g.player }, ..g })
    &&& farm_phase(s[0], s[1], dt)
    &&& s[2] == (Game { player: Player { target_vel: aimed(s[1].input), ..s[1].player }, ..s[1] })
    &&& player_step(s[2].player, s[3].player, dt) && s[3] == (Game { player: s[3].player, ..s[2] })
    &&& s[4] == (Game { stage: scan_spec(s[3].stage, progress_of(s[3])), ..s[3] })
    &&& eat_step(s[4], s[5])
    &&& touch_step(s[5], s[6])
    &&& moving_step(s[6], s[7])
    &&& wall_step(s[7], s[8])
    &&& annihilate_step(s[8], s[9])
    &&& fly_step(s[9], s[10], dt)
    &&& s[11].projectiles@ == s[10].projectiles@.filter(|p: Projectile| is_alive(p))
    &&& s[11] == (Game { projectiles: s[11].projectiles, ..s[10] })
}

impl Game {
    pub open spec fn inv(&self) -> bool {
        &&& self.farm.inv()
        &&& self.player.inv()
        &&& in_limit(self.input, COORD_LIMIT as int)
        &&& forall|k: int| 0 <= k < self.projectiles@.len() ==> (#[trigger] self.projectiles@[k]).inv()
            && in_limit(self.projectiles@[k].pos, START_LIMIT as int)
    }

    /// A new game from a seed: an empty farm, the hatchling in its middle.
    pub fn new(seed: u64) -> (r: Game)
        ensures
            r.inv(),
            r.stage == Stage::Start,
            r.player.pos == (Vec2 { x: CENTER, y: CENTER }),
            r.player.vel == (Vec2 { x: 0, y: 0 }),
            r.player.radius == HATCHLING_RADIUS,
            r.player.alive && !r.player.eaten && !r.player.almost_dead,
            r.player.jump.is_none() && !r.player.landed && !r.player.want_jump,
            r.player.max_speed == crate::player::MAX_SPEED,
            r.player.target_vel == (Vec2 { x: 0, y: 0 }),
            r.player.stage == Stage::Start,
            r.player.stand_timer == 0,
            r.input == (Vec2 { x: 0, y: 0 }),
            r.player.mutation.is_none(),
            r.player.tropheys@.len() == 0,
            r.farm.peace_spec() == crate::farm::PEACE,
            forall|i: int| 0 <= i < CELLS ==> r.farm.view_tiles()[i] == Tile::Nothing,
            r.projectiles@.len() == 0,
            r.bursts@.len() == 0,
    {
        Game {
            farm: Farm::new(),
            player: Player::new(Vec2 { x: CENTER, y: CENTER }),
            stage: Stage::Start,
            projectiles: Vec::new(),
            bursts: Vec::new(),
            input: Vec2 { x: 0, y: 0 },
            rng: seeded_rng(seed),
        }
    }

    /// Sets the direction the controls ask for.
    pub fn set_input(&mut self, dir: Vec2)
        requires
            old(self).inv(),
            in_limit(dir, COORD_LIMIT as int),
        ensures
            final(self).inv(),
            *final(self) == (Game { input: dir, ..*old(self) }),
    {
        self.input = dir;
    }

    /// The jump key went down.
    pub fn request_jump(&mut self)
        requires
            old(self).inv(),
        ensures
            final(self).inv(),
            *final(self) == (Game { player: Player { want_jump: true, ..old(self).player }, ..*old(self) }),
    {
        self.player.want_jump = true;
    }

    /// Hands out the bursts given off so far and forgets them.
    pub fn take_bursts(&mut self) -> (r: Vec<Burst>)
        requires
            old(self).inv(),
        ensures
            final(self).inv(),
            r@ == old(self).bursts@,
            final(self).bursts@.len() == 0,
            *final(self) == (Game { bursts: final(self).bursts, ..*old(self) }),
    {
        let mut out: Vec<Burst> = Vec::new();
        std::mem::swap(&mut out, &mut self.bursts);
        out
    }

    /// A player who has not eaten and stands on food eats it: the food's
    /// mutation mixes into the player's, the player is no longer almost
    /// dead, and the cell becomes fresh soil of the food's mutation.
    pub fn eat(&mut self)
        requires
            old(self).inv(),
        ensures
            final(self).inv(),
            eat_step(*old(self), *final(self)),
    {
        if !self.player.eaten {
            let (x, y) = cell_at(self.player.pos);
            match self.farm.tile(x, y) {
                Tile::Food { mutation } => {
                    self.player.eaten = true;
                    self.player.almost_dead = false;
                    self.player.mutation = mix_into(mutation, self.player.mutation);
                    self.farm.set_tile(x, y, Tile::FertilizedSoil { time: FERTILIZED_SOIL_TIME, mutation });
                },
                _ => {},
            }
        }
    }

    /// Consumes the landed signal. A player who has eaten and lands on an
    /// empty cell leaves poop of the mutation carried and carries none after;
    /// any other landing acts on the tile below.
    pub fn touch_down(&mut self)
        requires
            old(self).inv(),
        ensures
            final(self).inv(),
            touch_step(*old(self), *final(self)),
    {
        if self.player.landed() {
            let (x, y) = cell_at(self.player.pos);
            if self.player.eaten && self.farm.tile(x, y) == Tile::Nothing {
                self.player.eaten = false;
                self.bursts.push(Burst { pos: self.player.pos, mutation: self.player.mutation });
                self.farm.set_tile(x, y, Tile::Poop { mutation: self.player.mutation });
                self.player.mutation = None;
            } else {
                let pos = self.player.pos;
                let ghost before = self.bursts@;
                let ghost t = self.farm.view_tiles()[index(x as int, y as int)];
                let burst = self.farm.land(pos, &mut self.player, &mut self.rng);
                match burst {
                    Some(b) => {
                        self.bursts.push(b);
                        assert(self.bursts@ =~= before + land_bursts(t, x, y));
                    },
                    None => {
                        assert(self.bursts@ =~= before + land_bursts(t, x, y));
                    },
                }
            }
        }
    }

    /// The hatchling has moved more than one tile away from where it started.
    pub fn check_moving(&mut self)
        requires
            old(self).inv(),
        ensures
            final(self).inv(),
            moving_step(*old(self), *final(self)),
    {
        if self.stage == Stage::Start && dist_sq(self.player.pos, Vec2 { x: CENTER, y: CENTER }) > UNIT * UNIT {
            self.stage = Stage::Moving;
        }
    }

    /// Breaks a piece of shell: of the cells around the player's, in a
    /// random order, the first empty one becomes a broken shell. With the
    /// third piece out the hatchling is born: it shrinks and the stage
    /// becomes `Born`.
    pub fn break_shell(&mut self)
        requires
            old(self).inv(),
        ensures
            final(self).inv(),
            *final(self) == (Game {
                farm: final(self).farm,
                player: final(self).player,
                stage: final(self).stage,
                bursts: final(self).bursts,
                rng: final(self).rng,
                ..*old(self)
            }),
            final(self).farm.peace_spec() == old(self).farm.peace_spec(),
            final(self).player == (Player { radius: final(self).player.radius, ..old(self).player }),
            ({
                let (cx, cy) = cell_of(old(self).player.pos);
                let old_tiles = old(self).farm.view_tiles();
                let new_tiles = final(self).farm.view_tiles();
                &&& cracked(old_tiles, new_tiles, cx as int, cy as int)
                &&& count_tiles(new_tiles, TileQuery::BrokenShell) == SHELL_PIECES ==>
                    final(self).stage == Stage::Born && final(self).player.radius == BORN_RADIUS
                &&& count_tiles(new_tiles, TileQuery::BrokenShell) != SHELL_PIECES ==>
                    final(self).stage == old(self).stage && final(self).player.radius == old(self).player.radius
            }),
    {
        let (cx, cy) = cell_at(self.player.pos);
        let ghost old_tiles = self.farm.view_tiles();
        let mut cells: Vec<usize> = Vec::new();
        let mut i: usize = 0;
        while i < CELLS
            invariant
                i <= CELLS,
                cx < SIDE && cy < SIDE,
                forall|e: int| 0 <= e < cells@.len() ==> in_block(#[trigger] cells@[e] as int, cx as int, cy as int),
                forall|k: int| 0 <= k < i && in_block(k, cx as int, cy as int) ==> cells@.contains(k as usize),
            decreases CELLS - i,
        {
            let x = i / SIDE;
            let y = i % SIDE;
            let ghost prev = cells@;
            if x + 1 >= cx && x <= cx + 1 && y + 1 >= cy && y <= cy + 1 {
                cells.push(i);
                proof {
                    assert(cells@[prev.len() as int] == i);
                    assert forall|k: int| 0 <= k < prev.len() implies cells@[k] == prev[k] by {}
                }
            }
            proof {
                assert forall|k: int| 0 <= k < i + 1 && in_block(k, cx as int, cy as int) implies cells@.contains(k as usize) by {
                    if k < i {
                        let e = choose|e: int| 0 <= e < prev.len() && prev[e] == k as usize;
                        assert(cells@[e] == k as usize);
                    } else {
                        assert(cells@[prev.len() as int] == i);
                    }
                }
            }
            i += 1;
        }
        let ghost listed = cells@;
        shuffle_cells(&mut self.rng, &mut cells);
        proof {
            broadcast use vstd::seq_lib::group_to_multiset_ensures;
            assert forall|k: usize| #[trigger] cells@.contains(k) <==> listed.contains(k) by {
                assert(cells@.to_multiset().count(k) == listed.to_multiset().count(k));
            }
            assert forall|e: int| 0 <= e < cells@.len() implies in_block(#[trigger] cells@[e] as int, cx as int, cy as int) by {
                assert(cells@.contains(cells@[e]));
                assert(listed.contains(cells@[e]));
            }
        }
        let mut j: usize = 0;
        let mut pick: Option<usize> = None;
        while j < cells.len() && pick.is_none()
            invariant
                j <= cells@.len(),
                self.inv(),
                self.farm.view_tiles() == old_tiles,
                forall|e: int| 0 <= e < cells@.len() ==> in_block(#[trigger] cells@[e] as int, cx as int, cy as int),
                pick.is_none() ==> forall|e: int| 0 <= e < j ==> old_tiles[#[trigger] cells@[e] as int] != Tile::Nothing,
                pick matches Some(k) ==> in_block(k as int, cx as int, cy as int) && old_tiles[k as int] == Tile::Nothing,
            decreases cells@.len() - j,
        {
            let k = cells[j];
            if self.farm.tile(k / SIDE, k % SIDE) == Tile::Nothing {
                pick = Some(k);
            }
            j += 1;
        }
        match pick {
            Some(k) => {
                let x = k / SIDE;
                let y = k % SIDE;
                self.farm.set_tile(x, y, Tile::BrokenShell);
                self.bursts.push(Burst {
                    pos: Vec2 { x: (x as i64) * UNIT + UNIT / 2, y: (y as i64) * UNIT + UNIT / 2 },
                    mutation: None,
                });
            },
            None => {
                assert forall|k: int| in_block(k, cx as int, cy as int) implies old_tiles[k] != Tile::Nothing by {
                    assert(listed.contains(k as usize));
                    assert(cells@.contains(k as usize));
                    let e = choose|e: int| 0 <= e < cells@.len() && cells@[e] == k as usize;
                    assert(old_tiles[cells@[e] as int] != Tile::Nothing);
                }
            },
        }
        if self.farm.find(TileQuery::BrokenShell) == SHELL_PIECES {
            self.player.radius = BORN_RADIUS;
            self.stage = Stage::Born;
        }
    }

    /// Holds the player inside the farm. Pressed against the border at more
    /// than half its top speed while `Moving`, the hatchling breaks a piece
    /// of its shell; held back at any speed, it stops.
    pub fn push_back_from_wall(&mut self)
        requires
            old(self).inv(),
        ensures
            final(self).inv(),
            0 <= final(self).player.pos.x <= EXTENT && 0 <= final(self).player.pos.y <= EXTENT,
            wall_step(*old(self), *final(self)),
    {
        let r = self.player.radius;
        let pos = self.player.pos;
        let fx: i64 = if pos.x < r { r } else if pos.x > EXTENT - r { EXTENT - r } else { pos.x };
        let fy: i64 = if pos.y < r { r } else if pos.y > EXTENT - r { EXTENT - r } else { pos.y };
        if fx != pos.x || fy != pos.y {
            self.player.pos = Vec2 { x: fx, y: fy };
            let v = self.player.vel;
            let m = self.player.max_speed;
            assert(0 <= v.x * v.x <= 1_000_000_000_000 && 0 <= v.y * v.y <= 1_000_000_000_000) by (nonlinear_arith)
                requires -1_000_000 <= v.x <= 1_000_000, -1_000_000 <= v.y <= 1_000_000;
            assert(0 <= m * m <= 1_000_000_000_000) by (nonlinear_arith)
                requires 0 <= m <= 1_000_000;
            if self.stage == Stage::Moving && 4 * (v.x * v.x + v.y * v.y) > m * m {
                self.break_shell();
            }
            self.player.vel = Vec2 { x: 0, y: 0 };
        }
    }

    /// The counts the stage scan looks at.
    pub fn progress(&self) -> (r: Progress)
        requires
            self.inv(),
        ensures
            r == (Progress {
                landed: self.player.landed,
                fertilized_soil: count_tiles(self.farm.view_tiles(), TileQuery::FertilizedSoil) as usize,
                food: count_tiles(self.farm.view_tiles(), TileQuery::Food) as usize,
                poop: count_tiles(self.farm.view_tiles(), TileQuery::Poop) as usize,
                angry_weeds: count_tiles(self.farm.view_tiles(), TileQuery::AngryWeed) as usize,
                mutated_weeds: count_tiles(self.farm.view_tiles(), TileQuery::MutatedWeed) as usize,
                mutated_roots: count_tiles(self.farm.view_tiles(), TileQuery::MutatedRoot) as usize,
                tropheys: count_tiles(self.farm.view_tiles(), TileQuery::Trophey) as usize,
                player_mutated: self.player.mutation.is_some(),
                collected: self.player.tropheys@.len() as usize,
            }),
    {
        Progress {
            landed: self.player.landed,
            fertilized_soil: self.farm.find(TileQuery::FertilizedSoil),
            food: self.farm.find(TileQuery::Food),
            poop: self.farm.find(TileQuery::Poop),
            angry_weeds: self.farm.find(TileQuery::AngryWeed),
            mutated_weeds: self.farm.find(TileQuery::MutatedWeed),
            mutated_roots: self.farm.find(TileQuery::MutatedRoot),
            tropheys: self.farm.find(TileQuery::Trophey),
            player_mutated: self.player.mutation.is_some(),
            collected: self.player.tropheys.len(),
        }
    }

    /// The hover text at `pos`: the farm's, else "YOU" over the player,
    /// else "Nothing".
    pub fn text_at(&self, pos: Vec2) -> (r: String)
        requires
            self.inv(),
            in_limit(pos, START_LIMIT as int),
        ensures
            hover_text(self.farm.view_tiles(), pos) matches Some(t) ==> r@ == t@,
            hover_text(self.farm.view_tiles(), pos) is None ==> r@ == (if norm_sq(Vec2 {
                x: (self.player.pos.x - pos.x) as i64,
                y: (self.player.pos.y - pos.y) as i64,
            }) < self.player.radius * self.player.radius { "YOU" } else { "Nothing" })@,
    {
        match self.farm.text_at(pos) {
            Some(text) => text,
            None => {
                let r = self.player.radius;
                assert(0 <= r * r <= UNIT * UNIT) by (nonlinear_arith)
                    requires 0 < r <= UNIT;
                if dist_sq(self.player.pos, pos) < r * r {
                    "YOU".to_string()
                } else {
                    "Nothing".to_string()
                }
            },
        }
    }

    /// One tick of `dt` milliseconds. At `Win` nothing moves any more: the
    /// player only takes over the stage. Otherwise the tick runs the steps
    /// that `tick_trace` lists, in that order.
    pub fn update(&mut self, dt: i64)
        requires
            old(self).inv(),
            in_limit(old(self).player.pos, START_LIMIT as int),
            0 <= dt <= MAX_DT,
        ensures
            final(self).inv(),
            in_limit(final(self).player.pos, START_LIMIT as int),
            final(self).player.stage == old(self).stage,
            old(self).stage == Stage::Win ==> *final(self) == (Game {
                player: Player { stage: Stage::Win, ..old(self).player },
                ..*old(self)
            }),
            old(self).stage != Stage::Win ==> exists|s: Seq<Game>| #[trigger] tick_trace(*old(self), s, dt as int)
                && s[11] == *final(self),
            rank(final(self).stage) >= rank(old(self).stage),
            old(self).stage != Stage::Win ==> 0 <= final(self).player.pos.x <= EXTENT
                && 0 <= final(self).player.pos.y <= EXTENT,
            old(self).stage != Stage::Win ==> forall|k: int| 0 <= k < final(self).projectiles@.len()
                ==> (#[trigger] final(self).projectiles@[k]).alive && over_farm(final(self).projectiles@[k].pos),
    {
        self.player.stage = self.stage;
        if self.stage == Stage::Win {
            return;
        }
        let ghost s0 = *self;
        let mut grown = self.farm.update(dt, &mut self.projectiles, &mut self.player, &mut self.rng);
        let ghost grown_seq = grown@;
        self.bursts.append(&mut grown);
        proof {
            assert(self.bursts@.skip(s0.bursts@.len() as int) =~= grown_seq);
            assert(self.bursts@.take(s0.bursts@.len() as int) =~= s0.bursts@);
        }
        let ghost s1 = *self;
        let input = self.input;
        self.player.steer_toward(input);
        let ghost s2 = *self;
        self.player.update(dt);
        let ghost s3 = *self;
        let progress = self.progress();
        self.stage = self.stage.scan(&progress);
        let ghost s4 = *self;
        self.eat();
        let ghost s5 = *self;
        self.touch_down();
        let ghost s6 = *self;
        self.check_moving();
        let ghost s7 = *self;
        self.push_back_from_wall();
        let ghost s8 = *self;
        annihilate(&mut self.projectiles);
        let ghost s9 = *self;
        fly(&mut self.projectiles, &mut self.farm, &mut self.player, &mut self.bursts, dt);
        let ghost s10 = *self;
        sweep(&mut self.projectiles);
        proof {
            let s = seq![s0, s1, s2, s3, s4, s5, s6, s7, s8, s9, s10, *self];
            assert(farm_phase(s[0], s[1], dt as int));
            assert(fly_step(s[9], s[10], dt as int));
            assert(tick_trace(*old(self), s, dt as int));
        }
    }
}

} // verus!
