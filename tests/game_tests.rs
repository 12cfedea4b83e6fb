use hatch::farm::{Farm, TileQuery};
use hatch::game::{annihilate, Game};
use hatch::geom::{isqrt, length, Vec2};
use hatch::mutation::Mutation;
use hatch::player::Player;
use hatch::projectile::Projectile;
use hatch::stage::Stage;
use hatch::tile::{Tile, FERTILIZED_SOIL_TIME};
use rand::rngs::StdRng;
use rand::SeedableRng;

const TICK: i64 = 16;

#[test]
fn integer_square_roots() {
    assert_eq!(isqrt(0), 0);
    assert_eq!(isqrt(1), 1);
    assert_eq!(isqrt(24), 4);
    assert_eq!(isqrt(25), 5);
    assert_eq!(isqrt(u64::MAX), 4_294_967_295);
    assert_eq!(length(Vec2 { x: 3, y: -4 }), 5);
    assert_eq!(length(Vec2 { x: 0, y: 0 }), 0);
}

#[test]
fn new_farm_is_empty() {
    let farm = Farm::new();
    assert_eq!(farm.size(), (16, 16));
    assert_eq!(farm.peace(), 3);
    for x in 0..16 {
        for y in 0..16 {
            assert_eq!(farm.tile(x, y), Tile::Nothing);
        }
    }
    assert_eq!(farm.find(TileQuery::Food), 0);
}

#[test]
fn farm_counts_tiles() {
    let mut farm = Farm::new();
    farm.set_tile(0, 0, Tile::Food { mutation: None });
    farm.set_tile(15, 15, Tile::Food { mutation: Some(Mutation::Red) });
    farm.set_tile(3, 4, Tile::AngryWeed { time: 3000, mutation: Some(Mutation::Red) });
    farm.set_tile(3, 5, Tile::AngryWeed { time: 3000, mutation: None });
    assert_eq!(farm.find(TileQuery::Food), 2);
    assert_eq!(farm.find(TileQuery::AngryWeed), 2);
    assert_eq!(farm.find(TileQuery::MutatedWeed), 1);
    assert_eq!(farm.find(TileQuery::Poop), 0);
}

#[test]
fn farm_lands_on_the_cell_under_the_position() {
    let mut farm = Farm::new();
    farm.set_tile(2, 3, Tile::BrokenShell);
    let mut p = Player::new(Vec2 { x: 2999, y: 3001 });
    let mut r = StdRng::seed_from_u64(3);
    let burst = farm.land(Vec2 { x: 2999, y: 3001 }, &mut p, &mut r).expect("a burst");
    assert_eq!(burst.pos, Vec2 { x: 2500, y: 3500 });
    assert_eq!(burst.mutation, None);
    assert_eq!(farm.tile(2, 3), Tile::CrushedShell);
    assert_eq!(farm.find(TileQuery::BrokenShell), 0);
}

#[test]
fn farm_hover_text() {
    let mut farm = Farm::new();
    farm.set_tile(4, 4, Tile::Poop { mutation: None });
    assert_eq!(farm.text_at(Vec2 { x: 4500, y: 4100 }), Some("Poop".to_string()));
    assert_eq!(farm.text_at(Vec2 { x: 8000, y: 8000 }), None);
    assert_eq!(farm.text_at(Vec2 { x: 100, y: 8000 }), Some("Wall".to_string()));
    assert_eq!(farm.text_at(Vec2 { x: 8000, y: 16300 }), Some("Wall".to_string()));
}

#[test]
fn game_hover_text_finds_player() {
    let g = Game::new(1);
    assert_eq!(g.text_at(Vec2 { x: 8100, y: 8000 }), "YOU");
    assert_eq!(g.text_at(Vec2 { x: 5000, y: 5000 }), "Nothing");
}

#[test]
fn walking_away_from_start_reaches_moving() {
    let mut g = Game::new(11);
    assert_eq!(g.stage, Stage::Start);
    g.set_input(Vec2 { x: 1, y: 0 });
    let mut ticks = 0;
    while g.player.pos.x - 8000 <= 1100 {
        g.update(TICK);
        ticks += 1;
        assert!(ticks < 100);
        if g.player.pos.x - 8000 <= 1000 {
            assert_eq!(g.stage, Stage::Start);
        }
    }
    assert_eq!(g.stage, Stage::Moving);
    assert_eq!(g.player.pos.y, 8000);
}

fn press_right_wall(g: &mut Game) {
    g.player.pos = Vec2 { x: 15490, y: 8200 };
    g.player.vel = Vec2 { x: 4000, y: 0 };
    g.set_input(Vec2 { x: 1, y: 0 });
    g.update(TICK);
}

#[test]
fn pressing_the_wall_breaks_the_shell() {
    let mut g = Game::new(5);
    g.stage = Stage::Moving;
    press_right_wall(&mut g);
    assert_eq!(g.farm.find(TileQuery::BrokenShell), 1);
    assert_eq!(g.stage, Stage::Moving);
    assert_eq!(g.player.vel, Vec2 { x: 0, y: 0 });
    assert_eq!(g.player.pos.x, 15500);
    press_right_wall(&mut g);
    assert_eq!(g.farm.find(TileQuery::BrokenShell), 2);
    assert_eq!(g.stage, Stage::Moving);
    assert_eq!(g.player.radius, 500);
    press_right_wall(&mut g);
    assert_eq!(g.farm.find(TileQuery::BrokenShell), 3);
    assert_eq!(g.stage, Stage::Born);
    assert_eq!(g.player.radius, 300);
    for x in 0..16 {
        for y in 0..16 {
            if g.farm.tile(x, y) == Tile::BrokenShell {
                assert!(x >= 14 && (7..=9).contains(&y));
            }
        }
    }
}

#[test]
fn slow_press_breaks_nothing() {
    let mut g = Game::new(5);
    g.stage = Stage::Moving;
    g.player.pos = Vec2 { x: 15490, y: 8000 };
    g.player.vel = Vec2 { x: 1500, y: 0 };
    g.update(TICK);
    assert_eq!(g.player.pos.x, 15500);
    assert_eq!(g.player.vel, Vec2 { x: 0, y: 0 });
    assert_eq!(g.farm.find(TileQuery::BrokenShell), 0);
}

#[test]
fn equal_projectiles_annihilate() {
    let mut g = Game::new(2);
    g.projectiles.push(Projectile::new(Vec2 { x: 3000, y: 3000 }, 200, Vec2 { x: 0, y: 0 }, Some(Mutation::Red)));
    g.projectiles.push(Projectile::new(Vec2 { x: 3000, y: 3000 }, 200, Vec2 { x: 0, y: 0 }, Some(Mutation::Red)));
    let mut copy = g.projectiles.clone();
    annihilate(&mut copy);
    assert!(!copy[0].alive && !copy[1].alive);
    g.update(TICK);
    assert!(g.projectiles.is_empty());
}

#[test]
fn different_projectiles_pass_each_other() {
    let mut g = Game::new(2);
    g.projectiles.push(Projectile::new(Vec2 { x: 3000, y: 3000 }, 200, Vec2 { x: 0, y: 0 }, Some(Mutation::Red)));
    g.projectiles.push(Projectile::new(Vec2 { x: 3000, y: 3000 }, 200, Vec2 { x: 0, y: 0 }, None));
    let mut copy = g.projectiles.clone();
    annihilate(&mut copy);
    assert!(copy[0].alive && copy[1].alive);
    g.update(TICK);
    assert_eq!(g.projectiles.len(), 2);
    assert!(g.projectiles.iter().all(|p| p.alive));
}

#[test]
fn projectile_hits_player_then_kills() {
    let mut g = Game::new(2);
    g.projectiles.push(Projectile::new(Vec2 { x: 8100, y: 8000 }, 200, Vec2 { x: 1000, y: 0 }, None));
    g.update(TICK);
    assert!(g.projectiles.is_empty());
    assert!(g.player.alive && g.player.almost_dead);
    g.projectiles.push(Projectile::new(g.player.pos, 200, Vec2 { x: 0, y: 0 }, None));
    g.update(TICK);
    assert!(!g.player.alive);
}

#[test]
fn projectile_leaving_the_farm_dies() {
    let mut g = Game::new(2);
    g.projectiles.push(Projectile::new(Vec2 { x: 15990, y: 3000 }, 200, Vec2 { x: 3000, y: 0 }, None));
    g.update(TICK);
    assert!(g.projectiles.is_empty());
}

#[test]
fn eating_food_mixes_its_mutation() {
    let mut g = Game::new(4);
    g.farm.set_tile(8, 8, Tile::Food { mutation: Some(Mutation::Red) });
    g.eat();
    assert!(g.player.eaten);
    assert_eq!(g.player.mutation, Some(Mutation::Red));
    assert_eq!(g.farm.tile(8, 8), Tile::FertilizedSoil { time: FERTILIZED_SOIL_TIME, mutation: Some(Mutation::Red) });
}

#[test]
fn eating_food_during_a_tick() {
    let mut g = Game::new(4);
    g.farm.set_tile(8, 8, Tile::Food { mutation: Some(Mutation::Red) });
    g.update(TICK);
    assert!(g.player.eaten);
    assert_eq!(g.player.mutation, Some(Mutation::Red));
    assert_eq!(g.farm.tile(8, 8), Tile::FertilizedSoil { time: FERTILIZED_SOIL_TIME, mutation: Some(Mutation::Red) });
}

#[test]
fn jumping_after_eating_poops_on_empty_ground() {
    let mut g = Game::new(4);
    g.stage = Stage::Born;
    g.player.eaten = true;
    g.player.mutation = Some(Mutation::Green);
    g.request_jump();
    let mut ticks = 0;
    while g.farm.find(TileQuery::Poop) == 0 {
        g.update(TICK);
        ticks += 1;
        assert!(ticks < 40);
    }
    assert_eq!(g.farm.tile(8, 8), Tile::Poop { mutation: Some(Mutation::Green) });
    assert!(!g.player.eaten);
    assert_eq!(g.player.mutation, None);
    assert_eq!(g.stage, Stage::ToCrush);
}

#[test]
fn jump_runs_a_third_of_a_second() {
    let mut p = Player::new(Vec2 { x: 8000, y: 8000 });
    p.stage = Stage::Born;
    p.want_jump = true;
    p.vel = Vec2 { x: 100, y: 0 };
    p.update(100);
    assert_eq!(p.jump, Some(700));
    assert_eq!(p.vel, Vec2 { x: 0, y: 0 });
    p.update(200);
    assert_eq!(p.jump, Some(100));
    assert!(!p.landed);
    p.update(100);
    assert_eq!(p.jump, None);
    assert!(p.landed());
    assert!(!p.landed());
}

#[test]
fn no_jump_before_birth() {
    let mut p = Player::new(Vec2 { x: 8000, y: 8000 });
    p.want_jump = true;
    p.update(100);
    assert_eq!(p.jump, None);
    assert!(!p.want_jump);
}

#[test]
fn steering_is_capped_by_acceleration() {
    let mut p = Player::new(Vec2 { x: 8000, y: 8000 });
    p.steer_toward(Vec2 { x: 0, y: 5 });
    assert_eq!(p.target_vel, Vec2 { x: 0, y: 1000 });
    p.update(100);
    assert_eq!(p.vel, Vec2 { x: 0, y: 2000 });
    assert_eq!(p.pos, Vec2 { x: 8000, y: 8200 });
    p.update(1000);
    assert_eq!(p.vel, Vec2 { x: 0, y: 4000 });
}

#[test]
fn brush_with_death_purges_digestion() {
    let mut p = Player::new(Vec2 { x: 8000, y: 8000 });
    p.eaten = true;
    p.almost_dead = true;
    p.update(16);
    assert!(!p.eaten && !p.almost_dead);
}

#[test]
fn dead_player_is_frozen() {
    let mut p = Player::new(Vec2 { x: 8000, y: 8000 });
    p.alive = false;
    p.vel = Vec2 { x: 100, y: 0 };
    p.update(100);
    assert_eq!(p.pos, Vec2 { x: 8000, y: 8000 });
}

#[test]
fn win_freezes_the_game() {
    let mut g = Game::new(9);
    g.stage = Stage::Win;
    g.farm.set_tile(1, 1, Tile::FertilizedSoil { time: 10, mutation: None });
    g.projectiles.push(Projectile::new(Vec2 { x: 3000, y: 3000 }, 200, Vec2 { x: 1000, y: 0 }, None));
    for _ in 0..10 {
        g.update(TICK);
    }
    assert_eq!(g.stage, Stage::Win);
    assert_eq!(g.farm.tile(1, 1), Tile::FertilizedSoil { time: 10, mutation: None });
    assert_eq!(g.projectiles[0].pos, Vec2 { x: 3000, y: 3000 });
}

#[test]
fn collecting_all_trophies_wins() {
    let mut g = Game::new(9);
    g.stage = Stage::KillAll;
    for m in [
        Mutation::Red,
        Mutation::Green,
        Mutation::Blue,
        Mutation::Yellow,
        Mutation::Cyan,
        Mutation::Purple,
        Mutation::RGB,
    ] {
        g.player.collect(m);
    }
    g.update(TICK);
    assert_eq!(g.stage, Stage::Win);
}

#[test]
fn take_bursts_empties_the_list() {
    let mut g = Game::new(9);
    g.farm.set_tile(1, 1, Tile::FertilizedSoil { time: 10, mutation: Some(Mutation::Blue) });
    g.update(TICK);
    let bursts = g.take_bursts();
    assert_eq!(bursts.len(), 1);
    assert_eq!(bursts[0].pos, Vec2 { x: 1500, y: 1500 });
    assert_eq!(bursts[0].mutation, Some(Mutation::Blue));
    assert!(g.take_bursts().is_empty());
    assert_eq!(g.farm.tile(1, 1), Tile::Food { mutation: Some(Mutation::Blue) });
    assert_eq!(g.farm.peace(), 2);
}
