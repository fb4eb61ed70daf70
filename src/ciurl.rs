use rand::rngs::ThreadRng;
use rand::Rng;
use vstd::prelude::*;

verus! {

#[verifier::external_type_specification]
#[verifier::external_body]
pub struct ExThreadRng(ThreadRng);

/// Relies on rand's `Rng::gen::<bool>` on a `ThreadRng`: one fair coin flip.
/// Nothing is known of its outcome.
#[verifier::external_body]
fn flip_coin(rng: &mut ThreadRng) -> (r: bool) {
    rng.gen()
}

/// The five sticks thrown when a piece tries to enter water: each falls
/// face up or face down.
#[derive(Clone, Copy, Debug, PartialEq, Eq, Structural)]
pub struct Ciurl(pub bool, pub bool, pub bool, pub bool, pub bool);

pub open spec fn bit(b: bool) -> nat {
    if b { 1 } else { 0 }
}

impl Ciurl {
    /// The outcomes in the order in which they were thrown.
    pub open spec fn outcomes(self) -> Seq<bool> {
        seq![self.0, self.1, self.2, self.3, self.4]
    }

    /// How many sticks fell face up.
    pub open spec fn count_spec(self) -> nat {
        bit(self.0) + bit(self.1) + bit(self.2) + bit(self.3) + bit(self.4)
    }

    /// Builds the record of five given outcomes.
    pub fn from_outcomes(a: bool, b: bool, c: bool, d: bool, e: bool) -> (r: Ciurl)
        ensures
            r.outcomes() == seq![a, b, c, d, e],
    {
        Ciurl(a, b, c, d, e)
    }

    /// The five outcomes, in order.
    pub fn to_outcomes(self) -> (r: [bool; 5])
        ensures
            r@ == self.outcomes(),
    {
        let r = [self.0, self.1, self.2, self.3, self.4];
        assert(r@ =~= self.outcomes());
        r
    }

    /// Throws five sticks, each with a fresh draw from `rng`.
    pub fn new(rng: &mut ThreadRng) -> (r: Ciurl)
        ensures
            r.count_spec() <= 5,
    {
        let a = flip_coin(rng);
        let b = flip_coin(rng);
        let c = flip_coin(rng);
        let d = flip_coin(rng);
        let e = flip_coin(rng);
        Ciurl(a, b, c, d, e)
    }

    /// The number of sticks that fell face up.
    pub fn count(self) -> (r: usize)
        ensures
            r == self.count_spec(),
            r <= 5,
    {
        self.0 as usize + self.1 as usize + self.2 as usize + self.3 as usize + self.4 as usize
    }
}

/// Every record of five throws counts between zero and five face-up sticks.
pub proof fn lemma_count_in_range(c: Ciurl)
    ensures
        0 <= c.count_spec() <= 5,
        c.count_spec() == c.outcomes().filter(|b: bool| b).len(),
{
    reveal_with_fuel(Seq::filter, 6);
    assert(c.outcomes().drop_last() =~= seq![c.0, c.1, c.2, c.3]);
    assert(c.outcomes().drop_last().drop_last() =~= seq![c.0, c.1, c.2]);
    assert(c.outcomes().drop_last().drop_last().drop_last() =~= seq![c.0, c.1]);
    assert(c.outcomes().drop_last().drop_last().drop_last().drop_last() =~= seq![c.0]);
    assert(c.outcomes().drop_last().drop_last().drop_last().drop_last().drop_last() =~= Seq::<bool>::empty());
}

} // verus!
