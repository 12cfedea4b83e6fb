use vstd::prelude::*;

verus! {

/// A colour tag carried by food, weeds, projectiles and the player.
/// `RGB` is the wildcard that holds all three channels.
#[derive(Copy, Clone, Debug, PartialEq, Eq, Hash, Structural)]
pub enum Mutation {
    Red,
    Green,
    Blue,
    Yellow,
    Cyan,
    Purple,
    RGB,
}

/// Which of the red, green and blue channels a colour occupies.
pub type Channels = (bool, bool, bool);

pub open spec fn channels(m: Mutation) -> Channels {
    match m {
        Mutation::Red => (true, false, false),
        Mutation::Green => (false, true, false),
        Mutation::Blue => (false, false, true),
        Mutation::Yellow => (true, true, false),
        Mutation::Cyan => (false, true, true),
        Mutation::Purple => (true, false, true),
        Mutation::RGB => (true, true, true),
    }
}

/// "No mutation" occupies no channel.
pub open spec fn opt_channels(m: Option<Mutation>) -> Channels {
    match m {
        Some(m) => channels(m),
        None => (false, false, false),
    }
}

pub open spec fn union(a: Channels, b: Channels) -> Channels {
    (a.0 || b.0, a.1 || b.1, a.2 || b.2)
}

/// The mutation that occupies exactly the given channels.
pub open spec fn from_channels(c: Channels) -> Option<Mutation> {
    match c {
        (false, false, false) => None,
        (true, false, false) => Some(Mutation::Red),
        (false, true, false) => Some(Mutation::Green),
        (false, false, true) => Some(Mutation::Blue),
        (true, true, false) => Some(Mutation::Yellow),
        (false, true, true) => Some(Mutation::Cyan),
        (true, false, true) => Some(Mutation::Purple),
        (true, true, true) => Some(Mutation::RGB),
    }
}

/// Mixing two optional mutations: the union of their channels.
pub open spec fn mix_spec(a: Option<Mutation>, b: Option<Mutation>) -> Option<Mutation> {
    from_channels(union(opt_channels(a), opt_channels(b)))
}

/// The three single-channel colours, the only ones a mutated root hands out.
pub open spec fn is_primary(m: Mutation) -> bool {
    m == Mutation::Red || m == Mutation::Green || m == Mutation::Blue
}

/// The primary colour numbered `i` (0: red, 1: green, 2: blue).
pub open spec fn primary_spec(i: u32) -> Mutation {
    if i == 0 {
        Mutation::Red
    } else if i == 1 {
        Mutation::Green
    } else {
        Mutation::Blue
    }
}

/// Compares two optional mutations.
pub fn same_mutation(a: Option<Mutation>, b: Option<Mutation>) -> (r: bool)
    ensures
        r == (a == b),
{
    match (a, b) {
        (None, None) => true,
        (Some(x), Some(y)) => x == y,
        _ => false,
    }
}

impl Mutation {
    pub fn channels(self) -> (r: Channels)
        ensures
            r == channels(self),
    {
        match self {
            Mutation::Red => (true, false, false),
            Mutation::Green => (false, true, false),
            Mutation::Blue => (false, false, true),
            Mutation::Yellow => (true, true, false),
            Mutation::Cyan => (false, true, true),
            Mutation::Purple => (true, false, true),
            Mutation::RGB => (true, true, true),
        }
    }

    /// Mixes `self` with `other`: the wildcard wins, otherwise the channels
    /// are joined and the colour of the joined set is returned.
    pub fn mix(self, other: Option<Mutation>) -> (r: Option<Mutation>)
        ensures
            r == mix_spec(Some(self), other),
    {
        if self == Mutation::RGB || same_mutation(other, Some(Mutation::RGB)) {
            return Some(Mutation::RGB);
        }
        let (mut r, mut g, mut b) = self.channels();
        match other {
            Some(o) => {
                let (or, og, ob) = o.channels();
                r = r || or;
                g = g || og;
                b = b || ob;
            },
            None => {},
        }
        match (r, g, b) {
            (false, false, false) => None,
            (true, true, true) => Some(Mutation::RGB),
            (true, false, false) => Some(Mutation::Red),
            (false, true, false) => Some(Mutation::Green),
            (false, false, true) => Some(Mutation::Blue),
            (true, true, false) => Some(Mutation::Yellow),
            (true, false, true) => Some(Mutation::Purple),
            (false, true, true) => Some(Mutation::Cyan),
        }
    }

    /// The primary colour numbered `i`, as a mutated root draws it.
    pub fn primary(i: u32) -> (r: Mutation)
        requires
            i < 3,
        ensures
            r == primary_spec(i),
            is_primary(r),
    {
        if i == 0 {
            Mutation::Red
        } else if i == 1 {
            Mutation::Green
        } else {
            Mutation::Blue
        }
    }
}

/// Mixing is commutative, also when either side is "no mutation".
pub proof fn lemma_mix_commutative(a: Option<Mutation>, b: Option<Mutation>)
    ensures
        mix_spec(a, b) == mix_spec(b, a),
{
}

/// "No mutation" is the identity of mixing.
pub proof fn lemma_mix_none_identity(a: Option<Mutation>)
    ensures
        mix_spec(a, None) == a,
        mix_spec(None, a) == a,
{
}

/// The wildcard absorbs everything it is mixed with.
pub proof fn lemma_mix_wildcard_absorbs(a: Option<Mutation>)
    ensures
        mix_spec(Some(Mutation::RGB), a) == Some(Mutation::RGB),
        mix_spec(a, Some(Mutation::RGB)) == Some(Mutation::RGB),
{
}

/// Mixing a mutation with itself changes nothing.
pub proof fn lemma_mix_idempotent(a: Option<Mutation>)
    ensures
        mix_spec(a, a) == a,
{
}

/// Mixing is associative.
pub proof fn lemma_mix_associative(a: Option<Mutation>, b: Option<Mutation>, c: Option<Mutation>)
    ensures
        mix_spec(mix_spec(a, b), c) == mix_spec(a, mix_spec(b, c)),
{
}

/// The secondary colours come from pairs of primaries, and all three
/// primaries give the wildcard.
pub proof fn lemma_mix_primaries()
    ensures
        mix_spec(Some(Mutation::Red), Some(Mutation::Green)) == Some(Mutation::Yellow),
        mix_spec(Some(Mutation::Red), Some(Mutation::Blue)) == Some(Mutation::Purple),
        mix_spec(Some(Mutation::Green), Some(Mutation::Blue)) == Some(Mutation::Cyan),
        mix_spec(mix_spec(Some(Mutation::Red), Some(Mutation::Green)), Some(Mutation::Blue))
            == Some(Mutation::RGB),
{
}

} // verus!
