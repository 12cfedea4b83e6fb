use crate::geom::{in_limit, Vec2, UNIT};
use crate::mutation::Mutation;
use crate::player::{advanced, moved, MAX_DT, POS_LIMIT, START_LIMIT, VEL_LIMIT};
use vstd::prelude::*;

verus! {

/// The cell coordinate of a position coordinate: negative positions fall
/// into the first cell.
pub open spec fn cell_coord(c: i64) -> usize {
    if c < 0 { 0 } else { (c / UNIT) as usize }
}

pub fn cell_coord_of(c: i64) -> (r: usize)
    ensures
        r == cell_coord(c),
{
    if c < 0 {
        0
    } else {
        (c / UNIT) as usize
    }
}

#[derive(Copy, Clone, Debug)]
pub struct Projectile {
    pub pos: Vec2,
    pub radius: i64,
    pub vel: Vec2,
    pub alive: bool,
    /// The cell it was fired from, which it does not hit.
    pub spawn: (usize, usize),
    pub mutation: Option<Mutation>,
}

impl Projectile {
    pub open spec fn inv(&self) -> bool {
        &&& in_limit(self.pos, POS_LIMIT as int)
        &&& in_limit(self.vel, VEL_LIMIT as int)
        &&& 0 <= self.radius <= UNIT
    }

    /// A live projectile at `pos`, fired from the cell under it.
    pub fn new(pos: Vec2, radius: i64, vel: Vec2, mutation: Option<Mutation>) -> (r: Projectile)
        requires
            in_limit(pos, POS_LIMIT as int),
            in_limit(vel, VEL_LIMIT as int),
            0 <= radius <= UNIT,
        ensures
            r.inv(),
            r.pos == pos,
            r.radius == radius,
            r.vel == vel,
            r.alive,
            r.spawn == (cell_coord(pos.x), cell_coord(pos.y)),
            r.mutation == mutation,
    {
        Projectile {
            pos,
            radius,
            vel,
            alive: true,
            spawn: (cell_coord_of(pos.x), cell_coord_of(pos.y)),
            mutation,
        }
    }

    /// Moves the projectile along its velocity for `dt` milliseconds.
    pub fn update(&mut self, dt: i64)
        requires
            old(self).inv(),
            in_limit(old(self).pos, START_LIMIT as int),
            0 <= dt <= MAX_DT,
        ensures
            final(self).inv(),
            *final(self) == (Projectile { pos: moved(old(self).pos, old(self).vel, dt as int), ..*old(self) }),
    {
        self.pos = advanced(self.pos, self.vel, dt);
    }
}

} // verus!
