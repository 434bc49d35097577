use rand::Rng;
use vstd::prelude::*;

verus! {

/// Relies on orbclient's `Color`, a packed ARGB value in its public `data`
/// field.
#[verifier::external_type_specification]
pub struct ExColor(orbclient::Color);

/// Relies on orbclient's `Color::rgb`: an opaque colour with the three
/// channels packed below the alpha byte.
pub assume_specification[ orbclient::Color::rgb ](r: u8, g: u8, b: u8) -> (c: orbclient::Color)
    ensures
        c.data == 0xFF00_0000u32 | ((r as u32) << 16u32) | ((g as u32) << 8u32) | (b as u32),
;

/// Relies on rand's `Rng::gen_ratio` on the thread-local generator: a draw
/// that is true with chance `numerator / denominator`, never true when the
/// numerator is zero and always true when it equals the denominator. It
/// panics on a zero denominator or a numerator above the denominator.
#[verifier::external_body]
pub(crate) fn draw_ratio(numerator: u32, denominator: u32) -> (r: bool)
    requires
        0 < denominator,
        numerator <= denominator,
    ensures
        numerator == 0 ==> !r,
        numerator == denominator ==> r,
{
    rand::thread_rng().gen_ratio(numerator, denominator)
}

} // verus!
