//! Spending grain: feeding the people and sowing the fields.

use vstd::prelude::*;
use crate::city::{City, CityEvent, Rejection};

verus! {

/// Whether the grain in store covers `bushels` for the people.
pub open spec fn can_feed(city: City, bushels: u16) -> bool {
    bushels <= city.bushels_preserved
}

/// The ledger after `bushels` went to the people.
pub open spec fn after_feed(city: City, bushels: u16) -> City {
    City { bushels_preserved: (city.bushels_preserved - bushels) as u16, ..city }
}

/// Seed grain for `acres`: half a bushel each, rounded down.
pub open spec fn seed_cost(acres: u16) -> int {
    (acres as int) / 2
}

/// Why `acres` cannot be planted, if they cannot. No land at all can always
/// be planted. Otherwise the acres owned are looked at first, then the seed
/// grain, which must stay below the grain in store, then the people, each of
/// whom tends fewer than ten acres.
pub open spec fn planting_refused(city: City, acres: u16) -> Option<Rejection> {
    if acres == 0 {
        None
    } else if acres > city.acres_owned {
        Some(Rejection::Acres(city.acres_owned))
    } else if seed_cost(acres) >= city.bushels_preserved {
        Some(Rejection::Bushels(city.bushels_preserved))
    } else if acres >= 10 * city.population {
        Some(Rejection::People(city.population))
    } else {
        None
    }
}

/// The ledger after `acres` were sown.
pub open spec fn after_planting(city: City, acres: u16) -> City {
    City {
        acres_planted_with_seed: acres,
        bushels_preserved: (city.bushels_preserved - seed_cost(acres)) as u16,
        ..city
    }
}

/// Handles the directive to feed the people `input` bushels.
///
/// More than the grain in store is turned down with the bushels there are,
/// and nothing changes. Otherwise the grain leaves the granary, the quantity
/// is carried on to the harvest, and planting is next.
pub fn feed_people(
    city: &mut City,
    acres_buy_or_sell: &mut u16,
    input: u16,
) -> (next: Result<CityEvent, Rejection>)
    ensures
        !can_feed(*old(city), input) ==> {
            &&& next == Err::<CityEvent, Rejection>(
                Rejection::Bushels(old(city).bushels_preserved),
            )
            &&& *final(city) == *old(city)
            &&& *final(acres_buy_or_sell) == *old(acres_buy_or_sell)
        },
        can_feed(*old(city), input) ==> {
            &&& next == Ok::<CityEvent, Rejection>(CityEvent::PlantSeeds)
            &&& *final(city) == after_feed(*old(city), input)
            &&& *final(acres_buy_or_sell) == input
        },
{
    if input > city.bushels_preserved {
        return Err(Rejection::Bushels(city.bushels_preserved));
    }
    *acres_buy_or_sell = input;
    city.bushels_preserved -= input;
    Ok(CityEvent::PlantSeeds)
}

/// Handles the directive to plant `input` acres.
///
/// A directive that the land, the seed grain or the people do not allow is
/// turned down with the limit it ran into, and nothing changes. Otherwise
/// the acres are sown, the seed leaves the granary, and the harvest is next.
pub fn plant_seeds(city: &mut City, input: u16) -> (next: Result<CityEvent, Rejection>)
    ensures
        planting_refused(*old(city), input) matches Some(why) ==> {
            &&& next == Err::<CityEvent, Rejection>(why)
            &&& *final(city) == *old(city)
        },
        planting_refused(*old(city), input) is None ==> {
            &&& next == Ok::<CityEvent, Rejection>(CityEvent::HarvestBounty)
            &&& *final(city) == after_planting(*old(city), input)
        },
        input > old(city).acres_owned
            || (input != 0 && seed_cost(input) >= old(city).bushels_preserved)
            || (input != 0 && input >= 10 * old(city).population)
            ==> next is Err && *final(city) == *old(city),
{
    if input == 0 {
        city.acres_planted_with_seed = input;
        return Ok(CityEvent::HarvestBounty);
    }
    if input > city.acres_owned {
        return Err(Rejection::Acres(city.acres_owned));
    } else if input / 2 >= city.bushels_preserved {
        return Err(Rejection::Bushels(city.bushels_preserved));
    } else if input as u32 >= 10 * (city.population as u32) {
        return Err(Rejection::People(city.population));
    }
    city.acres_planted_with_seed = input;
    city.bushels_preserved -= input / 2;
    Ok(CityEvent::HarvestBounty)
}

} // verus!
