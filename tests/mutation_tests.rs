use hatch::mutation::Mutation;

const ALL: [Mutation; 7] = [
    Mutation::Red,
    Mutation::Green,
    Mutation::Blue,
    Mutation::Yellow,
    Mutation::Cyan,
    Mutation::Purple,
    Mutation::RGB,
];

fn mix_opt(a: Option<Mutation>, b: Option<Mutation>) -> Option<Mutation> {
    match a {
        Some(a) => a.mix(b),
        None => b,
    }
}

#[test]
fn mix_red_green_is_yellow() {
    assert_eq!(Mutation::Red.mix(Some(Mutation::Green)), Some(Mutation::Yellow));
}

#[test]
fn mix_secondary_colours() {
    assert_eq!(Mutation::Red.mix(Some(Mutation::Blue)), Some(Mutation::Purple));
    assert_eq!(Mutation::Green.mix(Some(Mutation::Blue)), Some(Mutation::Cyan));
    assert_eq!(Mutation::Blue.mix(Some(Mutation::Green)), Some(Mutation::Cyan));
}

#[test]
fn mix_three_primaries_is_wildcard() {
    let rg = Mutation::Red.mix(Some(Mutation::Green));
    assert_eq!(Mutation::Blue.mix(rg), Some(Mutation::RGB));
    assert_eq!(Mutation::Yellow.mix(Some(Mutation::Blue)), Some(Mutation::RGB));
    assert_eq!(Mutation::Cyan.mix(Some(Mutation::Purple)), Some(Mutation::RGB));
}

#[test]
fn mix_is_commutative_on_all_pairs() {
    let mut opts: Vec<Option<Mutation>> = ALL.iter().map(|m| Some(*m)).collect();
    opts.push(None);
    for a in &opts {
        for b in &opts {
            assert_eq!(mix_opt(*a, *b), mix_opt(*b, *a));
        }
    }
}

#[test]
fn mix_with_none_is_identity() {
    for m in ALL {
        assert_eq!(m.mix(None), Some(m));
    }
}

#[test]
fn mix_with_wildcard_is_wildcard() {
    for m in ALL {
        assert_eq!(m.mix(Some(Mutation::RGB)), Some(Mutation::RGB));
        assert_eq!(Mutation::RGB.mix(Some(m)), Some(Mutation::RGB));
    }
    assert_eq!(Mutation::RGB.mix(None), Some(Mutation::RGB));
}

#[test]
fn mix_is_idempotent() {
    for m in ALL {
        assert_eq!(m.mix(Some(m)), Some(m));
    }
}

#[test]
fn primary_numbers() {
    assert_eq!(Mutation::primary(0), Mutation::Red);
    assert_eq!(Mutation::primary(1), Mutation::Green);
    assert_eq!(Mutation::primary(2), Mutation::Blue);
}
