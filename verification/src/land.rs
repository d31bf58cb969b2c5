//! Buying and selling land at the year's price.

use vstd::prelude::*;
use crate::city::{City, CityEvent, Rejection};

verus! {

/// Bushels that `acres` of land trade for at the city's current price.
pub open spec fn land_value(city: City, acres: u16) -> int {
    city.bushels_per_acre * acres
}

/// Whether the grain in store pays for `acres` of land.
pub open spec fn can_buy(city: City, acres: u16) -> bool {
    land_value(city, acres) <= city.bushels_preserved
}

/// Whether `acres` may be sold: the city keeps at least one acre.
pub open spec fn can_sell(city: City, acres: u16) -> bool {
    acres < city.acres_owned
}

/// The ledger after `acres` were bought.
pub open spec fn after_buy(city: City, acres: u16) -> City {
    City {
        acres_owned: (city.acres_owned + acres) as u16,
        bushels_preserved: (city.bushels_preserved - land_value(city, acres)) as u16,
        ..city
    }
}

/// The ledger after `acres` were sold.
pub open spec fn after_sell(city: City, acres: u16) -> City {
    City {
        acres_owned: (city.acres_owned - acres) as u16,
        bushels_preserved: (city.bushels_preserved + land_value(city, acres)) as u16,
        ..city
    }
}

/// Whether the land bought still fits the ledger's width.
pub open spec fn buy_fits(city: City, acres: u16) -> bool {
    can_buy(city, acres) ==> city.acres_owned + acres <= u16::MAX
}

/// Whether the grain earned still fits the ledger's width.
pub open spec fn sell_fits(city: City, acres: u16) -> bool {
    can_sell(city, acres) ==> city.bushels_preserved + land_value(city, acres) <= u16::MAX
}

/// Says whether the land bought would fit the ledger's width.
pub fn check_buy_fits(city: &City, input: u16) -> (ok: bool)
    ensures
        ok == buy_fits(*city, input),
{
    let price: u32 = city.bushels_per_acre as u32;
    let acres: u32 = input as u32;
    assert(price * acres <= 0xffff * 0xffff) by (nonlinear_arith)
        requires
            price <= 0xffff,
            acres <= 0xffff,
    ;
    price * acres > city.bushels_preserved as u32 || city.acres_owned as u32 + acres <= 0xffff
}

/// Says whether the grain earned would fit the ledger's width.
pub fn check_sell_fits(city: &City, input: u16) -> (ok: bool)
    ensures
        ok == sell_fits(*city, input),
{
    let price: u64 = city.bushels_per_acre as u64;
    let acres: u64 = input as u64;
    assert(price * acres <= 0xffff * 0xffff) by (nonlinear_arith)
        requires
            price <= 0xffff,
            acres <= 0xffff,
    ;
    input >= city.acres_owned || city.bushels_preserved as u64 + price * acres <= 0xffff
}

/// Handles the directive to buy `input` acres.
///
/// A purchase that the grain in store cannot pay for is turned down with the
/// bushels there are, and nothing changes. A purchase of no land leaves the
/// ledger alone and leads to the question of selling. Any other purchase is
/// paid for and leads on to feeding the people.
pub fn buy_acres(
    city: &mut City,
    acres_buy_or_sell: &mut u16,
    input: u16,
) -> (next: Result<CityEvent, Rejection>)
    requires
        buy_fits(*old(city), input),
    ensures
        !can_buy(*old(city), input) ==> {
            &&& next == Err::<CityEvent, Rejection>(
                Rejection::Bushels(old(city).bushels_preserved),
            )
            &&& *final(city) == *old(city)
            &&& *final(acres_buy_or_sell) == *old(acres_buy_or_sell)
        },
        can_buy(*old(city), input) && input == 0 ==> {
            &&& next == Ok::<CityEvent, Rejection>(CityEvent::SellAcres)
            &&& *final(city) == *old(city)
            &&& *final(acres_buy_or_sell) == 0
        },
        can_buy(*old(city), input) && input != 0 ==> {
            &&& next == Ok::<CityEvent, Rejection>(CityEvent::FeedPeople)
            &&& *final(city) == after_buy(*old(city), input)
            &&& final(city).acres_owned == old(city).acres_owned + input
            &&& final(city).bushels_preserved == old(city).bushels_preserved
                - old(city).bushels_per_acre * input
            &&& *final(acres_buy_or_sell) == input
        },
{
    let price: u32 = city.bushels_per_acre as u32;
    let acres: u32 = input as u32;
    assert(price * acres <= 0xffff * 0xffff) by (nonlinear_arith)
        requires
            price <= 0xffff,
            acres <= 0xffff,
    ;
    let cost: u32 = price * acres;
    if cost > city.bushels_preserved as u32 {
        return Err(Rejection::Bushels(city.bushels_preserved));
    }
    *acres_buy_or_sell = input;
    if input != 0 {
        city.acres_owned += input;
        city.bushels_preserved -= cost as u16;
        return Ok(CityEvent::FeedPeople);
    }
    Ok(CityEvent::SellAcres)
}

/// Handles the directive to sell `input` acres.
///
/// Selling all the land, or more, is turned down with the acres there are,
/// and nothing changes. Any other sale is paid into the granary and leads on
/// to feeding the people.
pub fn sell_acres(
    city: &mut City,
    acres_buy_or_sell: &mut u16,
    input: u16,
) -> (next: Result<CityEvent, Rejection>)
    requires
        sell_fits(*old(city), input),
    ensures
        !can_sell(*old(city), input) ==> {
            &&& next == Err::<CityEvent, Rejection>(Rejection::Acres(old(city).acres_owned))
            &&& *final(city) == *old(city)
            &&& *final(acres_buy_or_sell) == *old(acres_buy_or_sell)
        },
        can_sell(*old(city), input) ==> {
            &&& next == Ok::<CityEvent, Rejection>(CityEvent::FeedPeople)
            &&& *final(city) == after_sell(*old(city), input)
            &&& final(city).acres_owned == old(city).acres_owned - input
            &&& final(city).bushels_preserved == old(city).bushels_preserved
                + old(city).bushels_per_acre * input
            &&& *final(acres_buy_or_sell) == input
        },
{
    if input >= city.acres_owned {
        return Err(Rejection::Acres(city.acres_owned));
    }
    let price: u32 = city.bushels_per_acre as u32;
    let acres: u32 = input as u32;
    assert(price * acres <= 0xffff * 0xffff) by (nonlinear_arith)
        requires
            price <= 0xffff,
            acres <= 0xffff,
    ;
    let earned: u32 = price * acres;
    *acres_buy_or_sell = input;
    city.acres_owned -= input;
    city.bushels_preserved += earned as u16;
    Ok(CityEvent::FeedPeople)
}

} // verus!
