use hatch::geom::Vec2;
use hatch::mutation::Mutation;
use hatch::player::Player;
use hatch::projectile::Projectile;
use hatch::tile::{Tile, ANGRY_WEED_SHOOT_TIME, FERTILIZED_SOIL_TIME};
use rand::rngs::StdRng;
use rand::SeedableRng;

fn rng() -> StdRng {
    StdRng::seed_from_u64(7)
}

#[test]
fn landing_on_broken_shell_crushes_it() {
    let mut r = rng();
    for m in [None, Some(Mutation::Red), Some(Mutation::RGB)] {
        let mut t = Tile::BrokenShell;
        let mut p = Player::new(Vec2 { x: 500, y: 500 });
        p.mutation = m;
        let burst = t.handle_land(&mut p, &mut r);
        assert_eq!(t, Tile::CrushedShell);
        assert_eq!(burst, Some(None));
        assert_eq!(p.mutation, m);
    }
}

#[test]
fn landing_on_crushed_shell_fertilizes() {
    let mut t = Tile::CrushedShell;
    let mut p = Player::new(Vec2 { x: 500, y: 500 });
    assert_eq!(t.handle_land(&mut p, &mut rng()), Some(None));
    assert_eq!(t, Tile::FertilizedSoil { time: FERTILIZED_SOIL_TIME, mutation: None });
}

#[test]
fn landing_on_food_or_poop_fertilizes_with_its_mutation() {
    let mut p = Player::new(Vec2 { x: 500, y: 500 });
    let mut t = Tile::Food { mutation: Some(Mutation::Cyan) };
    assert_eq!(t.handle_land(&mut p, &mut rng()), Some(Some(Mutation::Cyan)));
    assert_eq!(t, Tile::FertilizedSoil { time: FERTILIZED_SOIL_TIME, mutation: Some(Mutation::Cyan) });
    let mut t = Tile::Poop { mutation: None };
    assert_eq!(t.handle_land(&mut p, &mut rng()), Some(None));
    assert_eq!(t, Tile::FertilizedSoil { time: FERTILIZED_SOIL_TIME, mutation: None });
}

#[test]
fn landing_on_soil_clears_it() {
    let mut p = Player::new(Vec2 { x: 500, y: 500 });
    let mut t = Tile::FertilizedSoil { time: 1200, mutation: Some(Mutation::Blue) };
    assert_eq!(t.handle_land(&mut p, &mut rng()), Some(Some(Mutation::Blue)));
    assert_eq!(t, Tile::Nothing);
}

#[test]
fn landing_on_mutated_root_mutates_player() {
    let mut p = Player::new(Vec2 { x: 500, y: 500 });
    let mut t = Tile::MutatedRoot;
    assert_eq!(t.handle_land(&mut p, &mut rng()), Some(Some(Mutation::RGB)));
    assert_eq!(t, Tile::Nothing);
    let m = p.mutation.expect("a primary colour");
    assert!(m == Mutation::Red || m == Mutation::Green || m == Mutation::Blue);
}

#[test]
fn landing_on_trophey_collects_it_once() {
    let mut p = Player::new(Vec2 { x: 500, y: 500 });
    let mut t = Tile::Trophey { mutation: Mutation::Purple };
    assert_eq!(t.handle_land(&mut p, &mut rng()), None);
    assert_eq!(t, Tile::Nothing);
    let mut t = Tile::Trophey { mutation: Mutation::Purple };
    t.handle_land(&mut p, &mut rng());
    assert_eq!(p.tropheys, vec![Mutation::Purple]);
}

#[test]
fn landing_on_nothing_or_weed_changes_nothing() {
    let mut p = Player::new(Vec2 { x: 500, y: 500 });
    for start in [Tile::Nothing, Tile::AngryWeed { time: 10, mutation: None }] {
        let mut t = start;
        assert_eq!(t.handle_land(&mut p, &mut rng()), None);
        assert_eq!(t, start);
    }
}

#[test]
fn soil_counts_down() {
    let mut t = Tile::FertilizedSoil { time: 3000, mutation: Some(Mutation::Red) };
    let mut peace: usize = 3;
    assert_eq!(t.update_soil(1000, &mut peace, &mut rng()), None);
    assert_eq!(t, Tile::FertilizedSoil { time: 2000, mutation: Some(Mutation::Red) });
    assert_eq!(peace, 3);
}

#[test]
fn soil_grows_food_while_peace_lasts() {
    let mut peace: usize = 3;
    let mut r = rng();
    for left in [2usize, 1, 0] {
        let mut t = Tile::FertilizedSoil { time: 100, mutation: Some(Mutation::Green) };
        assert_eq!(t.update_soil(100, &mut peace, &mut r), Some(Some(Mutation::Green)));
        assert_eq!(t, Tile::Food { mutation: Some(Mutation::Green) });
        assert_eq!(peace, left);
    }
}

#[test]
fn soil_without_peace_grows_food_or_weed() {
    let mut r = rng();
    let mut food = 0;
    let mut weeds = 0;
    for _ in 0..200 {
        let mut peace: usize = 0;
        let mut t = Tile::FertilizedSoil { time: 0, mutation: None };
        assert_eq!(t.update_soil(16, &mut peace, &mut r), Some(None));
        assert_eq!(peace, 0);
        match t {
            Tile::Food { mutation: None } => food += 1,
            Tile::AngryWeed { time, mutation: None } => {
                assert_eq!(time, ANGRY_WEED_SHOOT_TIME);
                weeds += 1
            }
            other => panic!("unexpected {:?}", other),
        }
    }
    assert!(food > 0 && weeds > 0);
    assert!(food > weeds);
}

#[test]
fn weed_counts_down_with_player_far() {
    let mut t = Tile::AngryWeed { time: 3000, mutation: None };
    let mut p = Player::new(Vec2 { x: 8000, y: 8000 });
    let mut shots: Vec<Projectile> = Vec::new();
    t.update_weed(100, 0, 0, &mut shots, &mut p);
    assert_eq!(t, Tile::AngryWeed { time: 2900, mutation: None });
    assert!(shots.is_empty());
    assert_eq!(p.pos, Vec2 { x: 8000, y: 8000 });
}

#[test]
fn weed_shoots_at_player_when_time_is_up() {
    let mut t = Tile::AngryWeed { time: 50, mutation: Some(Mutation::Red) };
    let mut p = Player::new(Vec2 { x: 8500, y: 500 });
    let mut shots: Vec<Projectile> = Vec::new();
    t.update_weed(100, 0, 0, &mut shots, &mut p);
    assert_eq!(t, Tile::AngryWeed { time: ANGRY_WEED_SHOOT_TIME, mutation: Some(Mutation::Red) });
    assert_eq!(shots.len(), 1);
    let q = shots[0];
    assert_eq!(q.pos, Vec2 { x: 500, y: 500 });
    assert_eq!(q.vel, Vec2 { x: 3000, y: 0 });
    assert_eq!(q.radius, 200);
    assert!(q.alive);
    assert_eq!(q.spawn, (0, 0));
    assert_eq!(q.mutation, Some(Mutation::Red));
}

#[test]
fn weed_pushes_player_out() {
    let mut t = Tile::AngryWeed { time: 3000, mutation: None };
    let mut p = Player::new(Vec2 { x: 2800, y: 2500 });
    let mut shots: Vec<Projectile> = Vec::new();
    t.update_weed(10, 2, 2, &mut shots, &mut p);
    assert_eq!(p.pos, Vec2 { x: 3300, y: 2500 });
    match t {
        Tile::AngryWeed { time, .. } => assert!(time <= 2990),
        other => panic!("unexpected {:?}", other),
    }
}

#[test]
fn weed_drains_faster_when_player_near() {
    let mut near = Tile::AngryWeed { time: 3000, mutation: None };
    let mut p = Player::new(Vec2 { x: 3400, y: 2500 });
    let mut shots: Vec<Projectile> = Vec::new();
    near.update_weed(10, 2, 2, &mut shots, &mut p);
    // distance 900: time to close (900 - 800) / 4000 / 2 s = 12 ms
    assert_eq!(near, Tile::AngryWeed { time: 3000 - 3000 * 10 / 12, mutation: None });
}

#[test]
fn projectile_kills_weed_of_same_mutation() {
    let mut t = Tile::AngryWeed { time: 100, mutation: Some(Mutation::Blue) };
    let mut q = Projectile::new(Vec2 { x: 100, y: 100 }, 200, Vec2 { x: 0, y: 0 }, Some(Mutation::Blue));
    t.collide_projectile(&mut q);
    assert_eq!(t, Tile::Trophey { mutation: Mutation::Blue });
    assert!(!q.alive);

    let mut t = Tile::AngryWeed { time: 100, mutation: None };
    let mut q = Projectile::new(Vec2 { x: 100, y: 100 }, 200, Vec2 { x: 0, y: 0 }, None);
    t.collide_projectile(&mut q);
    assert_eq!(t, Tile::MutatedRoot);
    assert!(!q.alive);
}

#[test]
fn projectile_passes_other_tiles() {
    let mut t = Tile::AngryWeed { time: 100, mutation: Some(Mutation::Blue) };
    let mut q = Projectile::new(Vec2 { x: 100, y: 100 }, 200, Vec2 { x: 0, y: 0 }, Some(Mutation::Red));
    t.collide_projectile(&mut q);
    assert_eq!(t, Tile::AngryWeed { time: 100, mutation: Some(Mutation::Blue) });
    assert!(q.alive);
    let mut t = Tile::Food { mutation: None };
    let mut q = Projectile::new(Vec2 { x: 100, y: 100 }, 200, Vec2 { x: 0, y: 0 }, None);
    t.collide_projectile(&mut q);
    assert_eq!(t, Tile::Food { mutation: None });
    assert!(q.alive);
}

#[test]
fn tile_kinds_and_names() {
    assert!(Tile::Food { mutation: None }.is_food());
    assert!(Tile::Poop { mutation: None }.is_poop());
    assert!(Tile::Trophey { mutation: Mutation::Red }.is_trophey());
    assert!(!Tile::Nothing.is_food());
    assert_eq!(Tile::BrokenShell.text(), "Broken shell");
    assert_eq!(Tile::AngryWeed { time: 0, mutation: None }.text(), "Angry weed");
}

#[test]
fn tick_leaves_still_tiles_alone() {
    let mut r = rng();
    let mut p = Player::new(Vec2 { x: 800, y: 800 });
    let mut shots: Vec<Projectile> = Vec::new();
    let mut peace: usize = 3;
    for start in [
        Tile::Nothing,
        Tile::BrokenShell,
        Tile::CrushedShell,
        Tile::Food { mutation: None },
        Tile::Poop { mutation: Some(Mutation::Red) },
        Tile::MutatedRoot,
        Tile::Trophey { mutation: Mutation::Cyan },
    ] {
        let mut t = start;
        assert_eq!(t.update(500, &mut peace, 0, 0, &mut shots, &mut p, &mut r), None);
        assert_eq!(t, start);
    }
    assert_eq!(peace, 3);
    assert!(shots.is_empty());
    assert_eq!(p.pos, Vec2 { x: 800, y: 800 });
}

#[test]
fn tick_grows_soil_and_runs_weeds() {
    let mut r = rng();
    let mut p = Player::new(Vec2 { x: 8000, y: 8000 });
    let mut shots: Vec<Projectile> = Vec::new();
    let mut peace: usize = 1;
    let mut t = Tile::FertilizedSoil { time: 10, mutation: Some(Mutation::Yellow) };
    assert_eq!(t.update(20, &mut peace, 0, 0, &mut shots, &mut p, &mut r), Some(Some(Mutation::Yellow)));
    assert_eq!(t, Tile::Food { mutation: Some(Mutation::Yellow) });
    assert_eq!(peace, 0);
    let mut t = Tile::AngryWeed { time: 10, mutation: None };
    assert_eq!(t.update(20, &mut peace, 0, 0, &mut shots, &mut p, &mut r), None);
    assert_eq!(t, Tile::AngryWeed { time: ANGRY_WEED_SHOOT_TIME, mutation: None });
    assert_eq!(shots.len(), 1);
}
