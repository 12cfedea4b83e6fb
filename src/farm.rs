use crate::geom::{abs, in_limit, Vec2, UNIT};
use crate::mutation::Mutation;
use crate::player::{Player, MAX_DT, START_LIMIT};
use crate::projectile::{cell_coord, cell_coord_of, Projectile};
use crate::tile::{
    cell_center, cell_step, is_weed_of, land_burst, landed_player, landed_tile, struck_tile, tile_name, Tile,
    ANGRY_WEED_SHOOT_TIME,
};
use vstd::prelude::*;

verus! {

/// Cells along each side of the map.
pub const SIDE: usize = 16;

/// Cells in the map.
pub const CELLS: usize = 256;

/// Soil growths that are sure to give food before angry weeds can appear.
pub const PEACE: usize = 3;

/// A cosmetic burst of particles at `pos`, tinted by `mutation`.
#[derive(Copy, Clone, Debug, PartialEq, Eq, Structural)]
pub struct Burst {
    pub pos: Vec2,
    pub mutation: Option<Mutation>,
}

/// The kinds of tiles the stage scan counts.
#[derive(Copy, Clone, Debug, PartialEq, Eq, Structural)]
pub enum TileQuery {
    BrokenShell,
    FertilizedSoil,
    Food,
    Poop,
    AngryWeed,
    MutatedWeed,
    MutatedRoot,
    Trophey,
}

pub open spec fn query_holds(t: Tile, q: TileQuery) -> bool {
    match q {
        TileQuery::BrokenShell => t == Tile::BrokenShell,
        TileQuery::FertilizedSoil => t is FertilizedSoil,
        TileQuery::Food => t is Food,
        TileQuery::Poop => t is Poop,
        TileQuery::AngryWeed => t is AngryWeed,
        TileQuery::MutatedWeed => t is AngryWeed && t->AngryWeed_mutation.is_some(),
        TileQuery::MutatedRoot => t == Tile::MutatedRoot,
        TileQuery::Trophey => t is Trophey,
    }
}

/// Number of tiles of `s` that match `q`.
pub open spec fn count_tiles(s: Seq<Tile>, q: TileQuery) -> nat
    decreases s.len(),
{
    if s.len() == 0 {
        0
    } else {
        count_tiles(s.drop_last(), q) + if query_holds(s.last(), q) { 1nat } else { 0nat }
    }
}

pub open spec fn index(x: int, y: int) -> int {
    x * SIDE + y
}

/// The cell under a position, held inside the map.
pub open spec fn cell_of(pos: Vec2) -> (usize, usize) {
    (
        if cell_coord(pos.x) >= SIDE { (SIDE - 1) as usize } else { cell_coord(pos.x) },
        if cell_coord(pos.y) >= SIDE { (SIDE - 1) as usize } else { cell_coord(pos.y) },
    )
}

/// How one tile may change in a tick of `dt` milliseconds: soil counts down
/// and, once its time is up, grows into food or an angry weed of its
/// mutation; a weed stays a weed of its mutation; nothing else changes.
pub open spec fn ticked(t: Tile, u: Tile, dt: int) -> bool {
    match t {
        Tile::FertilizedSoil { time, mutation } => if time - dt > 0 {
            u == Tile::FertilizedSoil { time: (time - dt) as i64, mutation }
        } else {
            u == Tile::Food { mutation } || u == Tile::AngryWeed { time: ANGRY_WEED_SHOOT_TIME, mutation }
        },
        Tile::AngryWeed { mutation, .. } => u is AngryWeed && u->AngryWeed_mutation == mutation,
        _ => u == t,
    }
}

/// The tile under `pos`, if `pos` is over the farm or left of or below it.
pub open spec fn tile_under(tiles: Seq<Tile>, pos: Vec2) -> Option<Tile> {
    if cell_coord(pos.x) < SIDE && cell_coord(pos.y) < SIDE {
        Some(tiles[index(cell_coord(pos.x) as int, cell_coord(pos.y) as int)])
    } else {
        None
    }
}

/// Half a tile from either end of a side.
pub open spec fn near_edge(c: int) -> bool {
    abs(c) < UNIT / 2 || abs(c - SIDE * UNIT) < UNIT / 2
}

pub open spec fn near_wall(pos: Vec2) -> bool {
    near_edge(pos.x as int) || near_edge(pos.y as int)
}

/// The hover text at `pos`: the tile's name where there is a tile, "Wall"
/// near the border elsewhere.
pub open spec fn hover_text(tiles: Seq<Tile>, pos: Vec2) -> Option<&'static str> {
    match tile_under(tiles, pos) {
        Some(t) => if t != Tile::Nothing {
            Some(tile_name(t))
        } else if near_wall(pos) {
            Some("Wall")
        } else {
            None
        },
        None => if near_wall(pos) { Some("Wall") } else { None },
    }
}

pub fn near(c: i64) -> (r: bool)
    requires
        -0x4000_0000 <= c <= 0x4000_0000,
    ensures
        r == near_edge(c as int),
{
    let a: i64 = if c < 0 { -c } else { c };
    let e: i64 = c - (SIDE as i64) * UNIT;
    let b: i64 = if e < 0 { -e } else { e };
    a < UNIT / 2 || b < UNIT / 2
}

/// The bursts of a farm tick, in cell order: `rs[i]` is what cell `i` gave
/// off, and each burst stands at the centre of its cell.
pub open spec fn bursts_of(rs: Seq<Option<Option<Mutation>>>) -> Seq<Burst>
    decreases rs.len(),
{
    if rs.len() == 0 {
        Seq::empty()
    } else {
        let i = rs.len() - 1;
        bursts_of(rs.drop_last()) + match rs.last() {
            Some(m) => seq![Burst { pos: cell_center((i / SIDE as int) as usize, (i % SIDE as int) as usize), mutation: m }],
            None => Seq::<Burst>::empty(),
        }
    }
}

/// The first `n` cells of a tick, in order: tile `t0[i]` becomes `t1[i]`,
/// and `pl[i]`, `ps[i]`, `pe[i]` are the player, the projectiles and the
/// peace as cell `i` is reached.
pub open spec fn farm_trace(
    t0: Seq<Tile>,
    t1: Seq<Tile>,
    pl: Seq<Player>,
    ps: Seq<Seq<Projectile>>,
    pe: Seq<usize>,
    rs: Seq<Option<Option<Mutation>>>,
    n: int,
    dt: int,
) -> bool {
    &&& pl.len() == n + 1 && ps.len() == n + 1 && pe.len() == n + 1 && rs.len() == n
    &&& forall|i: int| 0 <= i < n ==> #[trigger] cell_step(t0[i], t1[i], (i / SIDE as int) as usize,
        (i % SIDE as int) as usize, pl[i], pl[i + 1], ps[i], ps[i + 1], pe[i], pe[i + 1], rs[i], dt)
}

/// A whole tick of the farm `f0`, which becomes `f1`: every cell runs once,
/// in order, each against the player and projectiles as the cells before it
/// left them; the player goes from `a` to `b`, the projectiles from `ps0` to
/// `ps1`, and `bs` are the bursts of grown soil.
pub open spec fn farm_tick(
    f0: Farm,
    f1: Farm,
    a: Player,
    b: Player,
    ps0: Seq<Projectile>,
    ps1: Seq<Projectile>,
    bs: Seq<Burst>,
    dt: int,
) -> bool {
    exists|pl: Seq<Player>, ps: Seq<Seq<Projectile>>, pe: Seq<usize>, rs: Seq<Option<Option<Mutation>>>|
        #[trigger] farm_trace(f0.view_tiles(), f1.view_tiles(), pl, ps, pe, rs, CELLS as int, dt)
        && pl[0] == a && pl[CELLS as int] == b && ps[0] == ps0 && ps[CELLS as int] == ps1
        && pe[0] == f0.peace_spec() && pe[CELLS as int] == f1.peace_spec() && bs == bursts_of(rs)
}

/// The tiles after projectile `p` strikes the tile under it; the cell it
/// was fired from is spared.
pub open spec fn struck_tiles(tiles: Seq<Tile>, p: Projectile) -> Seq<Tile> {
    let (x, y) = cell_of(p.pos);
    let i = index(x as int, y as int);
    if (x, y) == p.spawn {
        tiles
    } else {
        tiles.update(i, struck_tile(tiles[i], p.mutation))
    }
}

/// Projectile `p` after striking the tile under it: off its spawn cell, an
/// angry weed of its very mutation kills it.
pub open spec fn after_tile(tiles: Seq<Tile>, p: Projectile) -> Projectile {
    let (x, y) = cell_of(p.pos);
    if (x, y) != p.spawn && is_weed_of(tiles[index(x as int, y as int)], p.mutation) {
        Projectile { alive: false, ..p }
    } else {
        p
    }
}

pub fn query_matches(t: &Tile, q: TileQuery) -> (r: bool)
    ensures
        r == query_holds(*t, q),
{
    match q {
        TileQuery::BrokenShell => *t == Tile::BrokenShell,
        TileQuery::FertilizedSoil => matches!(t, Tile::FertilizedSoil { .. }),
        TileQuery::Food => t.is_food(),
        TileQuery::Poop => t.is_poop(),
        TileQuery::AngryWeed => matches!(t, Tile::AngryWeed { .. }),
        TileQuery::MutatedWeed => match t {
            Tile::AngryWeed { mutation, .. } => mutation.is_some(),
            _ => false,
        },
        TileQuery::MutatedRoot => *t == Tile::MutatedRoot,
        TileQuery::Trophey => t.is_trophey(),
    }
}

pub fn cell_at(pos: Vec2) -> (r: (usize, usize))
    ensures
        r == cell_of(pos),
        r.0 < SIDE && r.1 < SIDE,
{
    let x = cell_coord_of(pos.x);
    let y = cell_coord_of(pos.y);
    (if x >= SIDE { SIDE - 1 } else { x }, if y >= SIDE { SIDE - 1 } else { y })
}

/// The grid of tiles and the peace left before weeds can grow.
pub struct Farm {
    tiles: Vec<Tile>,
    peace: usize,
}

impl Farm {
    pub open spec fn inv(&self) -> bool {
        &&& self.view_tiles().len() == CELLS
        &&& forall|i: int| 0 <= i < CELLS ==> (#[trigger] self.view_tiles()[i]).inv()
        &&& self.peace_spec() <= PEACE
    }

    /// The tiles, row by row: cell `(x, y)` is at `index(x, y)`.
    pub closed spec fn view_tiles(&self) -> Seq<Tile> {
        self.tiles@
    }

    pub closed spec fn peace_spec(&self) -> usize {
        self.peace
    }

    pub open spec fn at(&self, x: int, y: int) -> Tile {
        self.view_tiles()[index(x, y)]
    }

    /// An empty farm with all its peace.
    pub fn new() -> (r: Farm)
        ensures
            r.inv(),
            r.peace_spec() == PEACE,
            forall|i: int| 0 <= i < CELLS ==> r.view_tiles()[i] == Tile::Nothing,
    {
        let mut tiles: Vec<Tile> = Vec::new();
        let mut i: usize = 0;
        while i < CELLS
            invariant
                i <= CELLS,
                tiles@.len() == i,
                forall|k: int| 0 <= k < i ==> tiles@[k] == Tile::Nothing,
            decreases CELLS - i,
        {
            tiles.push(Tile::Nothing);
            i += 1;
        }
        Farm { tiles, peace: PEACE }
    }

    pub fn size(&self) -> (r: (usize, usize))
        ensures
            r == (SIDE, SIDE),
    {
        (SIDE, SIDE)
    }

    pub fn peace(&self) -> (r: usize)
        ensures
            r == self.peace_spec(),
    {
        self.peace
    }

    pub fn tile(&self, x: usize, y: usize) -> (r: Tile)
        requires
            self.inv(),
            x < SIDE && y < SIDE,
        ensures
            r == self.at(x as int, y as int),
    {
        self.tiles[x * SIDE + y]
    }

    /// Puts `t` at cell `(x, y)`.
    pub fn set_tile(&mut self, x: usize, y: usize, t: Tile)
        requires
            old(self).inv(),
            x < SIDE && y < SIDE,
            t.inv(),
        ensures
            final(self).inv(),
            final(self).view_tiles() == old(self).view_tiles().update(index(x as int, y as int), t),
            final(self).peace_spec() == old(self).peace_spec(),
    {
        self.tiles.set(x * SIDE + y, t);
    }

    /// Number of tiles that match `q`.
    pub fn find(&self, q: TileQuery) -> (r: usize)
        requires
            self.inv(),
        ensures
            r == count_tiles(self.view_tiles(), q),
    {
        let mut result: usize = 0;
        let mut i: usize = 0;
        while i < self.tiles.len()
            invariant
                self.inv(),
                i <= self.tiles@.len(),
                result == count_tiles(self.tiles@.subrange(0, i as int), q),
                result <= i,
            decreases self.tiles@.len() - i,
        {
            assert(self.tiles@.subrange(0, i + 1).drop_last() =~= self.tiles@.subrange(0, i as int));
            if query_matches(&self.tiles[i], q) {
                result += 1;
            }
            i += 1;
        }
        assert(self.tiles@.subrange(0, self.tiles@.len() as int) =~= self.tiles@);
        result
    }

    /// Runs every tile for `dt` milliseconds, cell by cell: soil grows and
    /// angry weeds aim, push the player away and shoot. Gives back the
    /// bursts of grown soil.
    pub fn update(
        &mut self,
        dt: i64,
        projectiles: &mut Vec<Projectile>,
        player: &mut Player,
        rng: &mut rand::rngs::StdRng,
    ) -> (r: Vec<Burst>)
        requires
            old(self).inv(),
            old(player).inv(),
            in_limit(old(player).pos, START_LIMIT as int),
            0 <= dt <= MAX_DT,
            forall|k: int| 0 <= k < old(projectiles)@.len() ==> (#[trigger] old(projectiles)@[k]).inv()
                && in_limit(old(projectiles)@[k].pos, START_LIMIT as int),
        ensures
            final(self).inv(),
            final(player).inv(),
            in_limit(final(player).pos, START_LIMIT as int),
            *final(player) == (Player { pos: final(player).pos, ..*old(player) }),
            final(self).peace_spec() <= old(self).peace_spec(),
            forall|i: int| 0 <= i < CELLS ==> ticked(
                #[trigger] old(self).view_tiles()[i], final(self).view_tiles()[i], dt as int),
            final(projectiles)@.len() >= old(projectiles)@.len(),
            forall|k: int| 0 <= k < old(projectiles)@.len() ==> #[trigger] final(projectiles)@[k] == old(projectiles)@[k],
            forall|k: int| 0 <= k < final(projectiles)@.len() ==> (#[trigger] final(projectiles)@[k]).inv()
                && in_limit(final(projectiles)@[k].pos, START_LIMIT as int),
            farm_tick(*old(self), *final(self), *old(player), *final(player), old(projectiles)@,
                final(projectiles)@, r@, dt as int),
    {
        let mut bursts: Vec<Burst> = Vec::new();
        let mut i: usize = 0;
        let ghost mut pl: Seq<Player> = seq![*player];
        let ghost mut ps: Seq<Seq<Projectile>> = seq![projectiles@];
        let ghost mut pe: Seq<usize> = seq![self.peace];
        let ghost mut rs: Seq<Option<Option<Mutation>>> = Seq::empty();
        while i < CELLS
            invariant
                i <= CELLS,
                farm_trace(old(self).tiles@, self.tiles@, pl, ps, pe, rs, i as int, dt as int),
                pl[0] == *old(player) && ps[0] == old(projectiles)@ && pe[0] == old(self).peace,
                pl[i as int] == *player && ps[i as int] == projectiles@ && pe[i as int] == self.peace,
                bursts@ == bursts_of(rs),
                self.inv(),
                self.peace <= old(self).peace,
                forall|k: int| i <= k < CELLS ==> #[trigger] self.tiles@[k] == old(self).tiles@[k],
                forall|k: int| 0 <= k < i ==> ticked(#[trigger] old(self).tiles@[k], self.tiles@[k], dt as int),
                player.inv(),
                in_limit(player.pos, START_LIMIT as int),
                *player == (Player { pos: player.pos, ..*old(player) }),
                0 <= dt <= MAX_DT,
                projectiles@.len() >= old(projectiles)@.len(),
                forall|k: int| 0 <= k < old(projectiles)@.len() ==> #[trigger] projectiles@[k] == old(projectiles)@[k],
                forall|k: int| 0 <= k < projectiles@.len() ==> (#[trigger] projectiles@[k]).inv()
                    && in_limit(projectiles@[k].pos, START_LIMIT as int),
            decreases CELLS - i,
        {
            let x = i / SIDE;
            let y = i % SIDE;
            let mut t = self.tiles[i];
            let mut peace = self.peace;
            let ghost before = projectiles@;
            let ghost t0 = t;
            let burst = t.update(dt, &mut peace, x, y, projectiles, player, rng);
            self.peace = peace;
            proof {
                assert(rs.push(burst).drop_last() =~= rs);
                pl = pl.push(*player);
                ps = ps.push(projectiles@);
                pe = pe.push(peace);
                rs = rs.push(burst);
            }
            match burst {
                Some(m) => {
                    bursts.push(Burst {
                        pos: Vec2 { x: (x as i64) * UNIT + UNIT / 2, y: (y as i64) * UNIT + UNIT / 2 },
                        mutation: m,
                    });
                },
                None => {},
            }
            assert forall|k: int| 0 <= k < projectiles@.len() implies (#[trigger] projectiles@[k]).inv()
                && in_limit(projectiles@[k].pos, START_LIMIT as int) by {
                if k >= before.len() {
                    assert(projectiles@[k] == projectiles@.last());
                } else {
                    assert(projectiles@[k] == before[k]);
                }
            }
            self.tiles.set(i, t);
            proof {
                assert(cell_step(t0, self.tiles@[i as int], x, y, pl[i as int], pl[i + 1], ps[i as int],
                    ps[i + 1], pe[i as int], pe[i + 1], rs[i as int], dt as int));
            }
            i += 1;
        }
        assert(farm_trace(old(self).view_tiles(), self.view_tiles(), pl, ps, pe, rs, CELLS as int, dt as int));
        bursts
    }

    /// The player lands at `pos`: the tile of the cell under it reacts, and
    /// nothing else on the map changes. Gives back the burst, if any.
    pub fn land(&mut self, pos: Vec2, player: &mut Player, rng: &mut rand::rngs::StdRng)
        -> (r: Option<Burst>)
        requires
            old(self).inv(),
            old(player).inv(),
        ensures
            final(self).inv(),
            final(player).inv(),
            final(self).peace_spec() == old(self).peace_spec(),
            ({
                let (x, y) = cell_of(pos);
                let i = index(x as int, y as int);
                let t = old(self).view_tiles()[i];
                &&& final(self).view_tiles() == old(self).view_tiles().update(i, landed_tile(t))
                &&& land_burst(t) is None ==> r is None
                &&& land_burst(t) matches Some(m) ==> r == Some(Burst {
                    pos: Vec2 { x: (x * UNIT + UNIT / 2) as i64, y: (y * UNIT + UNIT / 2) as i64 },
                    mutation: m,
                })
                &&& landed_player(t, *old(player), *final(player))
            }),
    {
        let (x, y) = cell_at(pos);
        let i = x * SIDE + y;
        let mut t = self.tiles[i];
        let burst = t.handle_land(player, rng);
        self.tiles.set(i, t);
        match burst {
            Some(m) => Some(Burst {
                pos: Vec2 { x: (x as i64) * UNIT + UNIT / 2, y: (y as i64) * UNIT + UNIT / 2 },
                mutation: m,
            }),
            None => None,
        }
    }

    /// A projectile over the map strikes the tile under it, unless that is
    /// the cell it was fired from; nothing else on the map changes.
    pub fn collide_projectile(&mut self, p: &mut Projectile)
        requires
            old(self).inv(),
        ensures
            final(self).inv(),
            final(self).peace_spec() == old(self).peace_spec(),
            final(self).view_tiles() == struck_tiles(old(self).view_tiles(), *old(p)),
            *final(p) == after_tile(old(self).view_tiles(), *old(p)),
    {
        let (x, y) = cell_at(p.pos);
        if x != p.spawn.0 || y != p.spawn.1 {
            let i = x * SIDE + y;
            let mut t = self.tiles[i];
            t.collide_projectile(p);
            self.tiles.set(i, t);
        }
    }

    /// The hover text at `pos`: the name of the tile there, "Wall" near the
    /// border where there is none, nothing elsewhere.
    pub fn text_at(&self, pos: Vec2) -> (r: Option<String>)
        requires
            self.inv(),
            in_limit(pos, START_LIMIT as int),
        ensures
            hover_text(self.view_tiles(), pos) is None ==> r is None,
            hover_text(self.view_tiles(), pos) matches Some(t) ==> r matches Some(s) && s@ == t@,
    {
        let x = cell_coord_of(pos.x);
        let y = cell_coord_of(pos.y);
        if x < SIDE && y < SIDE && self.tiles[x * SIDE + y] != Tile::Nothing {
            Some(self.tiles[x * SIDE + y].text())
        } else if near(pos.x) || near(pos.y) {
            Some("Wall".to_string())
        } else {
            None
        }
    }
}

} // verus!
