pub mod game;
pub mod geom;
pub mod farm;
pub mod mutation;
pub mod player;
pub mod projectile;
pub mod random;
pub mod stage;
pub mod tile;
