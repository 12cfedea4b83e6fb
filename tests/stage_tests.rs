use hatch::stage::{Progress, Stage};

fn quiet() -> Progress {
    Progress {
        landed: false,
        fertilized_soil: 0,
        food: 0,
        poop: 1,
        angry_weeds: 0,
        mutated_weeds: 0,
        mutated_roots: 0,
        tropheys: 0,
        player_mutated: false,
        collected: 0,
    }
}

#[test]
fn scan_waits_without_progress() {
    let p = quiet();
    assert_eq!(Stage::Born.scan(&p), Stage::Born);
    assert_eq!(Stage::ToCrush.scan(&p), Stage::ToCrush);
    assert_eq!(Stage::Start.scan(&p), Stage::Start);
    assert_eq!(Stage::Moving.scan(&p), Stage::Moving);
    assert_eq!(Stage::KillAll.scan(&p), Stage::KillAll);
}

#[test]
fn scan_born_to_crush_on_landing() {
    let p = Progress { landed: true, ..quiet() };
    assert_eq!(Stage::Born.scan(&p), Stage::ToCrush);
}

#[test]
fn scan_passes_several_gates_in_one_tick() {
    let p = Progress { fertilized_soil: 1, food: 2, poop: 0, ..quiet() };
    // soil, then food, then no poop yet: stops at Poop
    assert_eq!(Stage::ToCrush.scan(&p), Stage::Poop);
    let p = Progress { poop: 1, ..quiet() };
    assert_eq!(Stage::Poop.scan(&p), Stage::PoopFertilize);
    let p = Progress { poop: 0, angry_weeds: 1, ..quiet() };
    assert_eq!(Stage::PoopFertilize.scan(&p), Stage::KillWeed);
}

#[test]
fn scan_late_gates() {
    let p = Progress { mutated_roots: 1, player_mutated: true, mutated_weeds: 1, tropheys: 1, ..quiet() };
    assert_eq!(Stage::KillWeed.scan(&p), Stage::KillAll);
    let p = Progress { collected: 7, ..quiet() };
    assert_eq!(Stage::KillAll.scan(&p), Stage::Win);
    let p = Progress { collected: 6, ..quiet() };
    assert_eq!(Stage::KillAll.scan(&p), Stage::KillAll);
}

#[test]
fn scan_never_leaves_win() {
    let p = Progress {
        landed: true,
        fertilized_soil: 3,
        food: 3,
        poop: 0,
        angry_weeds: 3,
        mutated_weeds: 3,
        mutated_roots: 3,
        tropheys: 3,
        player_mutated: true,
        collected: 7,
    };
    assert_eq!(Stage::Win.scan(&p), Stage::Win);
    assert_eq!(Stage::Win.scan(&quiet()), Stage::Win);
}

#[test]
fn ranks_are_ordered() {
    let order = [
        Stage::Start,
        Stage::Moving,
        Stage::Born,
        Stage::ToCrush,
        Stage::WaitForFood,
        Stage::Poop,
        Stage::PoopFertilize,
        Stage::GrowWeed,
        Stage::KillWeed,
        Stage::Mutate,
        Stage::GrowMutation,
        Stage::KillMutated,
        Stage::KillAll,
        Stage::Win,
    ];
    for (i, s) in order.iter().enumerate() {
        assert_eq!(s.rank() as usize, i);
    }
    assert!(!Stage::Moving.can_jump());
    assert!(Stage::Born.can_jump());
    assert!(Stage::Win.can_jump());
}

#[test]
fn help_texts() {
    assert_eq!(Stage::Start.help(), "Use WASD to move around");
    assert_eq!(Stage::Born.help(), "Use Space to jump");
    assert_eq!(Stage::Win.help(), "You WON! Congrats! Make screenshot, or nobody will believe you!");
}
