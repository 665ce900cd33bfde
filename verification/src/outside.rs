//! The calls into `bracket_lib` and `specs` that the library makes, each with the
//! contract that the library relies on.

use bracket_lib::prelude::RandomNumberGenerator;
use specs::Entity;
use vstd::prelude::*;

verus! {

/// The dice roller of `bracket_lib`, carried through the spawner.
#[verifier::external_type_specification]
#[verifier::external_body]
pub struct ExRandomNumberGenerator(RandomNumberGenerator);

/// A handle of an entity of the `specs` world.
#[verifier::external_type_specification]
#[verifier::external_body]
pub struct ExEntity(Entity);

/// The glyph that `bracket_lib`'s code page 437 table gives a character (0 where the
/// table has none).
pub uninterp spec fn cp437(c: char) -> u16;

/// Calls `bracket_lib::prelude::to_cp437`, a table of 256 entries; its result is
/// named `cp437` and not restated.
#[verifier::external_body]
pub(crate) fn to_cp437(c: char) -> (glyph: u16)
    ensures
        glyph == cp437(c),
{
    bracket_lib::prelude::to_cp437(c)
}

/// Calls `RandomNumberGenerator::roll_dice`, which sums `n` draws from `1..=die_type`
/// (`range(1, die_type + 1)` each); with `n <= 0` the sum is empty. The draws panic on an
/// empty range, so `die_type >= 1` is required when a die is thrown, and the sum must fit
/// an `i32`. Which value comes out rests on chance: only its range is stated.
#[verifier::external_body]
pub(crate) fn roll_dice(rng: &mut RandomNumberGenerator, n: i32, die_type: i32) -> (total: i32)
    requires
        n <= 0 || (1 <= die_type < i32::MAX && n * die_type <= i32::MAX),
    ensures
        n <= 0 ==> total == 0,
        n > 0 ==> n <= total <= n * die_type,
{
    rng.roll_dice(n, die_type)
}

/// Compares two entity handles with the `==` that `specs` derives for `Entity`
/// (field by field), which is equality of the two values.
#[verifier::external_body]
pub(crate) fn same_entity(a: &Entity, b: &Entity) -> (same: bool)
    ensures
        same == (*a == *b),
{
    *a == *b
}

} // verus!
