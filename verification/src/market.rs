//! The price at which land trades in a year.

use vstd::prelude::*;
use rand::Rng;
use crate::city::City;

verus! {

/// Land trades at seventeen bushels an acre and up to nine more.
pub open spec fn land_price(draw: u16) -> int {
    17 + draw
}

/// The ledger with the year's land price written in.
pub open spec fn priced(city: City, draw: u16) -> City {
    City { bushels_per_acre: land_price(draw) as u16, ..city }
}

/// Draws a number below `bound` by `rand::Rng::gen_range`, called with the
/// range from zero up to and excluding `bound` on the generator that
/// `rand::thread_rng` hands out. Trusted, not proved: that the number drawn
/// lies in that range. An empty range, on which the call panics, is kept
/// out. Nothing is claimed of how the numbers are spread, nor that the
/// system can seed the generator.
#[verifier::external_body]
fn draw_below(bound: u16) -> (draw: u16)
    requires
        bound > 0,
    ensures
        draw < bound,
{
    rand::thread_rng().gen_range(0..bound)
}

/// Writes the land price for `draw` into the ledger.
pub fn set_land_price(city: &mut City, draw: u16)
    requires
        land_price(draw) <= u16::MAX,
    ensures
        *final(city) == priced(*old(city), draw),
{
    city.bushels_per_acre = draw + 17;
}

/// Draws this year's land price and writes it into the ledger. Whatever is
/// drawn, the price lies between 17 and 26 and nothing else changes.
pub fn open_market(city: &mut City)
    ensures
        exists|draw: u16| draw < 10 && *final(city) == #[trigger] priced(*old(city), draw),
        17 <= final(city).bushels_per_acre <= 26,
        *final(city) == (City { bushels_per_acre: final(city).bushels_per_acre, ..*old(city) }),
{
    let draw: u16 = draw_below(10);
    set_land_price(city, draw);
}

} // verus!
