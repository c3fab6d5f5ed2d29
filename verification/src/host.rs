//! What the game takes from `bracket_lib`: random numbers and the code page
//! of the terminal font. Nothing here is proved: each contract restates what
//! the source of `bracket_lib` shows, and the proofs elsewhere rest on it.

use vstd::prelude::*;
use bracket_lib::random::RandomNumberGenerator;

verus! {

/// `bracket_lib`'s random number generator, carried as an opaque value.
#[verifier::external_type_specification]
#[verifier::external_body]
pub struct ExRandomNumberGenerator(RandomNumberGenerator);

/// The code that `bracket_lib::terminal::to_cp437` gives a character: its
/// place in code page 437, or 0 where the page has no such character.
pub uninterp spec fn cp437(c: char) -> u16;

/// `RandomNumberGenerator::new` seeds a generator from the operating system's
/// random source, or from the clock where that fails. Nothing is claimed of
/// the generator it returns.
pub assume_specification[ bracket_lib::random::RandomNumberGenerator::new ]() -> (rng:
    RandomNumberGenerator);

/// `to_cp437` is a fixed table from characters to font codes; its result is
/// a function of the character alone, named [`cp437`].
pub assume_specification[ bracket_lib::terminal::to_cp437 ](c: char) -> (code: u16)
    ensures
        code == cp437(c),
;

/// `RandomNumberGenerator::range` samples from `min` up to but not including
/// `max`, and panics on an empty range, which `requires` leaves out.
#[verifier::external_body]
pub(crate) fn range_i32(rng: &mut RandomNumberGenerator, min: i32, max: i32) -> (r: i32)
    requires
        min < max,
    ensures
        min <= r < max,
{
    rng.range(min, max)
}

} // verus!
