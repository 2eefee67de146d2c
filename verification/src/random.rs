//! The source of chance: whole numbers drawn from the thread's generator.
use rand::Rng;
use vstd::prelude::*;

verus! {

/// Draws a number from `low..high` with `rand::thread_rng().gen_range(..)`.
///
/// Trusted, not proved: the generator hands back a value of the half-open
/// range, `low` included and `high` excluded. It refuses an empty range, which
/// the precondition leaves out. Two draws from one range may differ, so
/// nothing more is said of the value. The generator takes its seed from the
/// system on first use and stops the program if the system has none to give;
/// no argument decides that.
#[verifier::external_body]
pub(crate) fn draw_in_range(low: i32, high: i32) -> (r: i32)
    requires
        low < high,
    ensures
        low <= r < high,
{
    rand::thread_rng().gen_range(low..high)
}

} // verus!
