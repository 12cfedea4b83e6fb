use vstd::prelude::*;

verus! {

/// The progression of a game, in the order in which it is reached.
#[derive(Copy, Clone, Debug, PartialEq, Eq, Structural)]
pub enum Stage {
    Start,
    Moving,
    Born,
    ToCrush,
    WaitForFood,
    Poop,
    PoopFertilize,
    GrowWeed,
    KillWeed,
    Mutate,
    GrowMutation,
    KillMutated,
    KillAll,
    Win,
}

pub open spec fn rank(s: Stage) -> nat {
    match s {
        Stage::Start => 0,
        Stage::Moving => 1,
        Stage::Born => 2,
        Stage::ToCrush => 3,
        Stage::WaitForFood => 4,
        Stage::Poop => 5,
        Stage::PoopFertilize => 6,
        Stage::GrowWeed => 7,
        Stage::KillWeed => 8,
        Stage::Mutate => 9,
        Stage::GrowMutation => 10,
        Stage::KillMutated => 11,
        Stage::KillAll => 12,
        Stage::Win => 13,
    }
}

/// What the stage scan looks at after a tick's state changes.
#[derive(Copy, Clone, Debug, PartialEq, Eq, Structural)]
pub struct Progress {
    /// The player touched down this tick.
    pub landed: bool,
    pub fertilized_soil: usize,
    pub food: usize,
    pub poop: usize,
    pub angry_weeds: usize,
    pub mutated_weeds: usize,
    pub mutated_roots: usize,
    pub tropheys: usize,
    /// The player carries a mutation.
    pub player_mutated: bool,
    /// Number of distinct trophies the player holds.
    pub collected: usize,
}

/// Number of distinct mutations, and so of trophies needed to win.
pub const ALL_TROPHIES: usize = 7;

/// One gate of the scan: leave `from` for `to` when `cond` holds.
pub open spec fn gate(s: Stage, from: Stage, cond: bool, to: Stage) -> Stage {
    if s == from && cond { to } else { s }
}

/// The forward scan: each gate is tried in order, so one tick may pass
/// several of them.
pub open spec fn scan_spec(s: Stage, p: Progress) -> Stage {
    let s = gate(s, Stage::Born, p.landed, Stage::ToCrush);
    let s = gate(s, Stage::ToCrush, p.fertilized_soil > 0, Stage::WaitForFood);
    let s = gate(s, Stage::WaitForFood, p.food > 0, Stage::Poop);
    let s = gate(s, Stage::Poop, p.poop > 0, Stage::PoopFertilize);
    let s = gate(s, Stage::PoopFertilize, p.poop == 0, Stage::GrowWeed);
    let s = gate(s, Stage::GrowWeed, p.angry_weeds > 0, Stage::KillWeed);
    let s = gate(s, Stage::KillWeed, p.mutated_roots > 0, Stage::Mutate);
    let s = gate(s, Stage::Mutate, p.player_mutated, Stage::GrowMutation);
    let s = gate(s, Stage::GrowMutation, p.mutated_weeds > 0, Stage::KillMutated);
    let s = gate(s, Stage::KillMutated, p.tropheys > 0, Stage::KillAll);
    gate(s, Stage::KillAll, p.collected == ALL_TROPHIES, Stage::Win)
}

/// The hint shown at each stage.
pub open spec fn help_text(s: Stage) -> &'static str {
    match s {
        Stage::Start => "Use WASD to move around",
        Stage::Moving => "Try to break the wall",
        Stage::Born => "Use Space to jump",
        Stage::ToCrush => "Crush the shell to fertilize soil",
        Stage::WaitForFood => "Fertilized soil will grow something eventually",
        Stage::Poop => "Pooping is unavoidable if you jump on empty space after eating",
        Stage::PoopFertilize => "Poop can also be used as fertilizer",
        Stage::GrowWeed => "More food! More poop! More!",
        Stage::KillWeed => "Getting rid of angry plants may require planting more",
        Stage::Mutate => "This mutated root must be destroyed!",
        Stage::GrowMutation => "Maybe mutation should be spread, make life more colorful",
        Stage::KillMutated => "Well, you've done this before",
        Stage::KillAll => "Collect all tropheys. Remember there are several levels of mutation!",
        Stage::Win => "You WON! Congrats! Make screenshot, or nobody will believe you!",
    }
}

impl Stage {
    pub fn rank(self) -> (r: u8)
        ensures
            r == rank(self),
    {
        match self {
            Stage::Start => 0,
            Stage::Moving => 1,
            Stage::Born => 2,
            Stage::ToCrush => 3,
            Stage::WaitForFood => 4,
            Stage::Poop => 5,
            Stage::PoopFertilize => 6,
            Stage::GrowWeed => 7,
            Stage::KillWeed => 8,
            Stage::Mutate => 9,
            Stage::GrowMutation => 10,
            Stage::KillMutated => 11,
            Stage::KillAll => 12,
            Stage::Win => 13,
        }
    }

    /// Whether the player may jump at this stage.
    pub fn can_jump(self) -> (r: bool)
        ensures
            r == (rank(self) >= rank(Stage::Born)),
    {
        self.rank() >= 2
    }

    /// The hint shown to the player at this stage.
    pub fn help(&self) -> (r: &'static str)
        ensures
            r == help_text(*self),
    {
        match self {
            Stage::Start => "Use WASD to move around",
            Stage::Moving => "Try to break the wall",
            Stage::Born => "Use Space to jump",
            Stage::ToCrush => "Crush the shell to fertilize soil",
            Stage::WaitForFood => "Fertilized soil will grow something eventually",
            Stage::Poop => "Pooping is unavoidable if you jump on empty space after eating",
            Stage::PoopFertilize => "Poop can also be used as fertilizer",
            Stage::GrowWeed => "More food! More poop! More!",
            Stage::KillWeed => "Getting rid of angry plants may require planting more",
            Stage::Mutate => "This mutated root must be destroyed!",
            Stage::GrowMutation => "Maybe mutation should be spread, make life more colorful",
            Stage::KillMutated => "Well, you've done this before",
            Stage::KillAll => "Collect all tropheys. Remember there are several levels of mutation!",
            Stage::Win => "You WON! Congrats! Make screenshot, or nobody will believe you!",
        }
    }

    /// Runs the forward scan of the stage gates over this tick's progress.
    pub fn scan(self, p: &Progress) -> (r: Stage)
        ensures
            r == scan_spec(self, *p),
            rank(r) >= rank(self),
            self == Stage::Win ==> r == Stage::Win,
    {
        let mut s = self;
        if s == Stage::Born && p.landed {
            s = Stage::ToCrush;
        }
        if s == Stage::ToCrush && p.fertilized_soil > 0 {
            s = Stage::WaitForFood;
        }
        if s == Stage::WaitForFood && p.food > 0 {
            s = Stage::Poop;
        }
        if s == Stage::Poop && p.poop > 0 {
            s = Stage::PoopFertilize;
        }
        if s == Stage::PoopFertilize && p.poop == 0 {
            s = Stage::GrowWeed;
        }
        if s == Stage::GrowWeed && p.angry_weeds > 0 {
            s = Stage::KillWeed;
        }
        if s == Stage::KillWeed && p.mutated_roots > 0 {
            s = Stage::Mutate;
        }
        if s == Stage::Mutate && p.player_mutated {
            s = Stage::GrowMutation;
        }
        if s == Stage::GrowMutation && p.mutated_weeds > 0 {
            s = Stage::KillMutated;
        }
        if s == Stage::KillMutated && p.tropheys > 0 {
            s = Stage::KillAll;
        }
        if s == Stage::KillAll && p.collected == ALL_TROPHIES {
            s = Stage::Win;
        }
        s
    }
}

/// The scan never moves a stage backwards, and never leaves `Win`.
pub proof fn lemma_scan_forward(s: Stage, p: Progress)
    ensures
        rank(scan_spec(s, p)) >= rank(s),
        s == Stage::Win ==> scan_spec(s, p) == Stage::Win,
{
}

} // verus!
