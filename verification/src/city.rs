//! The city's ledger, the phases of a year and the yearly report.

use vstd::prelude::*;

verus! {

/// A phase of the year, or what a finished phase hands on.
#[derive(Clone, Copy, Debug, PartialEq, Eq, Structural)]
pub enum CityEvent {
    Plague,
    BuyAcres,
    SellAcres,
    FeedPeople,
    PlantSeeds,
    HarvestBounty,
    Nothing,
    Exit,
}

/// The four ratings of a term of office, worst first.
#[derive(Clone, Copy, Debug, PartialEq, Eq, Structural)]
pub enum PlayerScore {
    Worse,
    Bad,
    Fair,
    Good,
}

/// Why a directive was turned down. Each variant carries the limit that the
/// directive ran into: the grain in store, the acres owned, or the people
/// there are to tend the fields.
#[derive(Clone, Copy, Debug, PartialEq, Eq, Structural)]
pub enum Rejection {
    Bushels(u16),
    Acres(u16),
    People(u16),
}

/// The ledger of the city for the current year.
#[derive(Clone, Copy, Debug, PartialEq, Eq, Structural)]
pub struct City {
    pub year: u16,
    pub bushels_preserved: u16,
    pub bushels_destroyed: u16,
    pub bushels_per_acre: u16,
    pub people_starved: u16,
    pub people_arrived: u16,
    pub population: u16,
    pub acres_owned: u16,
    pub acres_planted_with_seed: u16,
}

/// The city as a new steward finds it: the land is what the grain in store
/// and the grain that the rats had would have paid for.
pub open spec fn new_city() -> City {
    City {
        year: 1,
        bushels_preserved: 2800,
        bushels_destroyed: 200,
        bushels_per_acre: 3,
        people_starved: 0,
        people_arrived: 5,
        population: 95,
        acres_owned: 1000,
        acres_planted_with_seed: 0,
    }
}

/// The city after a plague: half the people, rounded down.
pub open spec fn after_plague(city: City) -> City {
    City { population: city.population / 2, ..city }
}

/// Whether a plague strikes: it does when the carried land signal is zero.
pub open spec fn plague_strikes(acres_buy_or_sell: u16) -> bool {
    acres_buy_or_sell == 0
}

/// Whether the yearly report can be drawn up within the ledger's width.
pub open spec fn report_fits(city: City) -> bool {
    &&& city.year < u16::MAX
    &&& city.population + city.people_arrived <= u16::MAX
}

/// The city after the yearly report: the year has advanced, the arrivals
/// have joined the people, and a plague, if one strikes, has halved them.
pub open spec fn after_report(city: City, acres_buy_or_sell: u16) -> City {
    let joined = City {
        year: (city.year + 1) as u16,
        population: (city.population + city.people_arrived) as u16,
        ..city
    };
    if plague_strikes(acres_buy_or_sell) {
        after_plague(joined)
    } else {
        joined
    }
}

pub fn get_new_city() -> (city: City)
    ensures
        city == new_city(),
        city.acres_owned as int == (city.bushels_preserved + city.bushels_destroyed)
            / (city.bushels_per_acre as int),
{
    let city = City {
        year: 1,
        bushels_preserved: 2800,
        bushels_destroyed: 200,
        bushels_per_acre: 3,
        people_starved: 0,
        people_arrived: 5,
        population: 95,
        acres_owned: 0,
        acres_planted_with_seed: 0,
    };
    City {
        acres_owned: (city.bushels_preserved + city.bushels_destroyed) / city.bushels_per_acre,
        ..city
    }
}

/// Halves the population when the carried land signal is zero, and says
/// whether it did.
pub fn check_plague(acres_buy_or_sell: u16, city: &mut City) -> (event: CityEvent)
    ensures
        plague_strikes(acres_buy_or_sell) ==> {
            &&& event == CityEvent::Plague
            &&& *final(city) == after_plague(*old(city))
        },
        !plague_strikes(acres_buy_or_sell) ==> {
            &&& event == CityEvent::Nothing
            &&& *final(city) == *old(city)
        },
{
    if acres_buy_or_sell == 0 {
        city.population = city.population / 2;
        return CityEvent::Plague;
    }
    CityEvent::Nothing
}

/// Says whether the yearly report can be drawn up within the ledger's width.
pub fn check_report_fits(city: &City) -> (ok: bool)
    ensures
        ok == report_fits(*city),
{
    city.year < u16::MAX && city.population as u32 + city.people_arrived as u32 <= 0xffff
}

/// Closes the books of the past year. The result is `Plague` when a plague
/// struck, `Nothing` otherwise.
pub fn update_report_summary(city: &mut City, acres_buy_or_sell: &u16) -> (event: CityEvent)
    requires
        report_fits(*old(city)),
    ensures
        *final(city) == after_report(*old(city), *acres_buy_or_sell),
        event == if plague_strikes(*acres_buy_or_sell) {
            CityEvent::Plague
        } else {
            CityEvent::Nothing
        },
{
    city.year += 1;
    city.population += city.people_arrived;
    check_plague(*acres_buy_or_sell, city)
}

} // verus!
