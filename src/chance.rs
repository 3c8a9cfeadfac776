use vstd::prelude::*;

verus! {

/// Relies on rand::thread_rng and rand::Rng::gen_range: a number drawn from
/// `low..=high`, which panics only on an empty range.
#[verifier::external_body]
pub(crate) fn draw_between(low: u32, high: u32) -> (r: u32)
    requires
        low <= high,
    ensures
        low <= r <= high,
{
    rand::Rng::gen_range(&mut rand::thread_rng(), low..=high)
}

/// Whether `draw` is the winning draw, 1.
pub fn one_in_n(draw: u32) -> (r: bool)
    ensures
        r == (draw == 1),
{
    draw == 1
}

/// Whether a draw of `1..=n` came out as 1, as `one_in_n` decides: true with a
/// chance of one in `n`, and always for `n` of 1.
pub fn random_bool_one_in_n(n: u32) -> (r: bool)
    requires
        n >= 1,
    ensures
        n == 1 ==> r,
{
    one_in_n(draw_between(1, n))
}

} // verus!
