//! Dice rolling for the bot's entertainment command: roll specifications,
//! modifier hooks, and a die backed by the thread-local random number
//! generator. Every roll of an `s`-sided die lands in `1..=s`.

use vstd::prelude::*;

use std::collections::BTreeMap;
use std::collections::BTreeSet;

verus! {

/// A source of die rolls.
pub trait Dice {
    /// One throw of a `sides`-sided die.
    fn roll(&mut self, sides: u32) -> (r: i32)
        requires
            1 <= sides <= 0x7fff_ffff,
        ensures
            1 <= r <= sides as i32,
    ;
}

/// How many dice to throw, with how many sides.
#[derive(Debug, Clone, Copy, PartialEq, Eq, Structural)]
pub struct DiceSpecifier {
    pub num: u32,
    pub sides: u32,
}

/// A parsed dice command: the base specification and the modifiers applied
/// around the throws.
pub struct DiceRoll {
    pub roll_spec: DiceSpecifier,
    pub modifiers: Vec<Box<dyn DiceModifier>>,
}

/// The working state a modifier may adjust before and after the throws.
pub struct RollRequest {
    pub roll_values: BTreeMap<(u32, u32), i32>,
    pub specifier: DiceSpecifier,
    pub iterations: u32,
    pub cancellations: BTreeSet<(u32, u32)>,
    pub total_modifiers: BTreeMap<u32, i32>,
}

/// The outcome of a full roll: per iteration, each die's value and whether
/// it still counts.
pub struct Roll {
    pub results: Vec<Vec<(i32, bool)>>,
}

/// A hook adjusting a roll; both stages accept the request unchanged by
/// default.
pub trait DiceModifier {
    fn pre_roll(&self, state: &mut RollRequest) -> (r: Result<(), String>) {
        let _ = state;
        Ok(())
    }

    fn post_roll(&self, state: &mut RollRequest) -> (r: Result<(), String>) {
        let _ = state;
        Ok(())
    }
}

impl DiceSpecifier {
    /// Throws a single die of this specification.
    pub fn roll_one<D: Dice>(&self, dice: &mut D) -> (r: i32)
        requires
            1 <= self.sides <= 0x7fff_ffff,
        ensures
            1 <= r <= self.sides as i32,
    {
        dice.roll(self.sides)
    }

    /// Throws all `num` dice of this specification.
    pub fn roll_all<D: Dice>(&self, dice: &mut D) -> (r: Vec<i32>)
        requires
            1 <= self.sides <= 0x7fff_ffff,
        ensures
            r@.len() == self.num,
            forall|i: int| 0 <= i < r@.len() ==> 1 <= #[trigger] r@[i] <= self.sides as i32,
    {
        let mut out: Vec<i32> = Vec::new();
        let mut k: u32 = 0;
        while k < self.num
            invariant
                1 <= self.sides <= 0x7fff_ffff,
                0 <= k <= self.num,
                out@.len() == k,
                forall|i: int| 0 <= i < out@.len() ==> 1 <= #[trigger] out@[i] <= self.sides as i32,
            decreases self.num - k,
        {
            out.push(dice.roll(self.sides));
            k = k + 1;
        }
        out
    }
}

/// Relies on rand: `Rng::gen_range(0..bound)` returns a value below `bound`
/// and panics only on an empty range.
#[verifier::external_body]
fn rand_below(bound: u32) -> (r: u32)
    requires
        bound >= 1,
    ensures
        r < bound,
{
    rand::Rng::gen_range(&mut rand::thread_rng(), 0..bound)
}

/// A die thrown with the thread-local random number generator.
#[derive(Debug)]
pub struct RandomDice {}

impl Dice for RandomDice {
    fn roll(&mut self, sides: u32) -> (r: i32) {
        (rand_below(sides) as i32) + 1
    }
}

} // verus!
