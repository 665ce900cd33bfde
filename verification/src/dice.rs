//! The dice of the game: a random number generator that keeps, for the proofs, the
//! record of every throw made with it.

use crate::outside::roll_dice;
use bracket_lib::prelude::RandomNumberGenerator;
use vstd::prelude::*;

verus! {

/// One throw: `n` dice of `die_type` sides, and the sum they showed.
pub type Throw = (i32, i32, i32);

/// A random number generator, with the throws made with it since it was taken up.
pub struct Dice {
    rng: RandomNumberGenerator,
    thrown: Ghost<Seq<Throw>>,
}

impl Dice {
    /// The throws made with these dice, the first first.
    pub closed spec fn thrown(&self) -> Seq<Throw> {
        self.thrown@
    }

    /// Takes up `rng`, with no throw made yet.
    pub fn new(rng: RandomNumberGenerator) -> (dice: Dice)
        ensures
            dice.thrown() == Seq::<Throw>::empty(),
    {
        Dice { rng, thrown: Ghost(Seq::empty()) }
    }

    /// Throws `n` dice of `die_type` sides and returns their sum, which is 0 for no die and
    /// else lies between `n` and `n * die_type`; the throw is added to the record.
    pub fn roll(&mut self, n: i32, die_type: i32) -> (total: i32)
        requires
            n <= 0 || (1 <= die_type < i32::MAX && n * die_type <= i32::MAX),
        ensures
            final(self).thrown() == old(self).thrown().push((n, die_type, total)),
            n <= 0 ==> total == 0,
            n > 0 ==> n <= total <= n * die_type,
    {
        let total = roll_dice(&mut self.rng, n, die_type);
        self.thrown = Ghost(self.thrown@.push((n, die_type, total)));
        total
    }

    /// Gives the generator back.
    pub fn into_rng(self) -> RandomNumberGenerator {
        self.rng
    }
}

} // verus!
