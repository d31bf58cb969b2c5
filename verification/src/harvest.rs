//! The harvest: what the fields gave, what the rats took, who came to the
//! city and who starved.

use vstd::prelude::*;
use crate::city::{City, CityEvent};

verus! {

/// The chance that enters one harvest, drawn before it is resolved.
#[derive(Clone, Copy, Debug, PartialEq, Eq, Structural)]
pub struct HarvestDraws {
    /// Bushels that each planted acre gives.
    pub bushels_per_acre: u16,
    /// The rats' draw: an even one lets them into the granary.
    pub rats: u16,
    /// Scales the number of people who come to the city.
    pub arrivals: u16,
    /// Decides the land signal that the next yearly report reads.
    pub signal: u16,
}

/// Bushels that the rats destroy: none on an odd draw or on zero, else the
/// grain in store divided by the draw.
pub open spec fn rat_loss(stored: u16, draw: u16) -> int {
    if draw != 0 && draw % 2 == 0 {
        (stored as int) / (draw as int)
    } else {
        0
    }
}

/// Grain in store after the harvest came in and the rats had their share.
pub open spec fn harvest_stores(city: City, draws: HarvestDraws) -> int {
    city.bushels_preserved + city.acres_planted_with_seed * draws.bushels_per_acre
        - rat_loss(city.bushels_preserved, draws.rats)
}

/// People who come to the city, kept to the sixteen bits of the ledger.
pub open spec fn arrivals(draw: u16, acres_owned: u16, stored: int, population: u16) -> int {
    (draw * (20 * acres_owned + stored) / (population as int) / 101) % 0x1_0000
}

/// The land signal carried into the next year: zero for a zero draw, else
/// ten times one less than twice the draw.
pub open spec fn next_signal(draw: u16) -> int {
    if draw == 0 {
        0
    } else {
        10 * (2 * draw - 1)
    }
}

/// People that the carried quantity sustains: one for every twenty.
pub open spec fn sustained(carried: u16) -> int {
    (carried as int) / 20
}

/// People who starve: those beyond the sustained number, if any.
pub open spec fn starved(population: u16, carried: u16) -> int {
    if population < sustained(carried) {
        0
    } else {
        population - sustained(carried)
    }
}

/// Whether more than 45 in a hundred of the people starve.
pub open spec fn collapses(population: u16, carried: u16) -> bool {
    100 * starved(population, carried) > 45 * population
}

/// The average yearly starvation in percent, with this year weighed in.
pub open spec fn running_average(year: u16, average: u16, starved: int, population: u16) -> int {
    ((year - 1) * average + starved * 100 / (population as int)) / (year as int)
}

/// The ledger once grain and arrivals are counted, before anyone starves.
pub open spec fn gathered(city: City, draws: HarvestDraws) -> City {
    City {
        bushels_per_acre: draws.bushels_per_acre,
        bushels_destroyed: rat_loss(city.bushels_preserved, draws.rats) as u16,
        bushels_preserved: harvest_stores(city, draws) as u16,
        people_arrived: arrivals(
            draws.arrivals,
            city.acres_owned,
            harvest_stores(city, draws),
            city.population,
        ) as u16,
        ..city
    }
}

/// The ledger after the harvest. The population changes only where people
/// starve and the city survives it.
pub open spec fn harvested(city: City, carried: u16, draws: HarvestDraws) -> City {
    let counted = gathered(city, draws);
    if city.population < sustained(carried) {
        City { people_starved: 0, ..counted }
    } else if collapses(city.population, carried) {
        City { people_starved: starved(city.population, carried) as u16, ..counted }
    } else {
        City {
            people_starved: starved(city.population, carried) as u16,
            population: sustained(carried) as u16,
            ..counted
        }
    }
}

/// Whether this year's starvation enters the running totals: it does when
/// the carried quantity sustains no more than the people there are, and the
/// city does not collapse.
pub open spec fn counts_starvation(population: u16, carried: u16) -> bool {
    population >= sustained(carried) && !collapses(population, carried)
}

/// Whether the harvest can be resolved within the ledger's width.
pub open spec fn harvest_fits(
    city: City,
    carried: u16,
    people_died_total: u16,
    draws: HarvestDraws,
) -> bool {
    &&& city.year >= 1
    &&& city.population > 0
    &&& harvest_stores(city, draws) <= u16::MAX
    &&& next_signal(draws.signal) <= u16::MAX
    &&& counts_starvation(city.population, carried) ==> people_died_total
        + starved(city.population, carried) <= u16::MAX
}

/// Says whether the harvest can be resolved within the ledger's width.
pub fn check_harvest_fits(
    city: &City,
    carried: u16,
    people_died_total: u16,
    draws: &HarvestDraws,
) -> (ok: bool)
    ensures
        ok == harvest_fits(*city, carried, people_died_total, *draws),
{
    if city.year < 1 || city.population == 0 {
        return false;
    }
    let planted: u64 = city.acres_planted_with_seed as u64;
    let per_acre: u64 = draws.bushels_per_acre as u64;
    assert(planted * per_acre <= 0xffff * 0xffff) by (nonlinear_arith)
        requires
            planted <= 0xffff,
            per_acre <= 0xffff,
    ;
    let eaten: u64 = if draws.rats != 0 && draws.rats % 2 == 0 {
        (city.bushels_preserved / draws.rats) as u64
    } else {
        0
    };
    if city.bushels_preserved as u64 + planted * per_acre - eaten > 0xffff {
        return false;
    }
    if draws.signal != 0 && 10 * (2 * (draws.signal as u32) - 1) > 0xffff {
        return false;
    }
    let fed_people: u16 = carried / 20;
    if city.population >= fed_people {
        let dying: u32 = (city.population - fed_people) as u32;
        let survives = 100 * dying <= 45 * (city.population as u32);
        if survives && people_died_total as u32 + dying > 0xffff {
            return false;
        }
    }
    true
}

/// Sets the rats' share of the grain in store for this year's draw.
pub fn check_rat_menace(city: &mut City, draw: u16)
    ensures
        *final(city) == (City {
            bushels_destroyed: rat_loss(old(city).bushels_preserved, draw) as u16,
            ..*old(city)
        }),
        final(city).bushels_destroyed <= old(city).bushels_preserved,
{
    city.bushels_destroyed = 0;
    if draw != 0 && draw % 2 == 0 {
        city.bushels_destroyed = city.bushels_preserved / draw;
    }
}

/// The land signal that the next yearly report will read.
pub fn carried_signal(draw: u16) -> (signal: u16)
    requires
        next_signal(draw) <= u16::MAX,
    ensures
        signal == next_signal(draw),
{
    if draw == 0 {
        0
    } else {
        10 * (2 * draw - 1)
    }
}

/// The people who come to the city after a harvest.
pub fn people_arriving(draw: u16, acres_owned: u16, stored: u16, population: u16) -> (people: u16)
    requires
        population > 0,
    ensures
        people == arrivals(draw, acres_owned, stored as int, population),
{
    let wealth: u64 = 20 * (acres_owned as u64) + (stored as u64);
    assert(draw * wealth <= 0xffff * wealth) by (nonlinear_arith)
        requires
            draw <= 0xffff,
            wealth >= 0,
    ;
    let scaled: u64 = (draw as u64) * wealth;
    let people: u64 = scaled / (population as u64) / 101 % 0x1_0000;
    people as u16
}

proof fn lemma_rate_bounded(starved: int, population: int)
    requires
        population > 0,
        0 <= starved,
        100 * starved <= 45 * population,
    ensures
        0 <= starved * 100 / population <= 45,
{
    assert(starved * 100 / population <= 45) by (nonlinear_arith)
        requires
            population > 0,
            starved * 100 <= 45 * population,
    ;
    assert(0 <= starved * 100 / population) by (nonlinear_arith)
        requires
            population > 0,
            0 <= starved * 100,
    ;
}

proof fn lemma_average_bounded(year: int, average: int, rate: int)
    requires
        1 <= year,
        0 <= average <= 0xffff,
        0 <= rate <= 45,
    ensures
        0 <= ((year - 1) * average + rate) / year <= 0xffff,
        0 <= (year - 1) * average <= (year - 1) * 0xffff,
{
    assert(0 <= (year - 1) * average <= (year - 1) * 0xffff) by (nonlinear_arith)
        requires
            1 <= year,
            0 <= average <= 0xffff,
    ;
    assert(((year - 1) * average + rate) / year <= 0xffff) by (nonlinear_arith)
        requires
            1 <= year,
            (year - 1) * average + rate <= year * 0xffff,
    ;
    assert(0 <= ((year - 1) * average + rate) / year) by (nonlinear_arith)
        requires
            1 <= year,
            0 <= (year - 1) * average + rate,
    ;
}

/// Resolves the harvest of one year.
///
/// `acres_buy_or_sell` comes in holding the quantity carried from the
/// earlier phases, of which every twenty sustain one person, and goes out as
/// the land signal for the next yearly report. The result is `Exit` exactly
/// when more than 45 in a hundred of the people starve: the population and
/// both running totals are then left as they were. Otherwise it is
/// `Nothing`, and the year's starvation is weighed into the average and
/// added to the deaths, unless the carried quantity sustains more people
/// than there are.
pub fn harvest_bounty(
    city: &mut City,
    acres_buy_or_sell: &mut u16,
    population_starved_per_yr: &mut u16,
    people_died_total: &mut u16,
    draws: HarvestDraws,
) -> (event: CityEvent)
    requires
        harvest_fits(*old(city), *old(acres_buy_or_sell), *old(people_died_total), draws),
    ensures
        *final(city) == harvested(*old(city), *old(acres_buy_or_sell), draws),
        *final(acres_buy_or_sell) == next_signal(draws.signal),
        event == if collapses(old(city).population, *old(acres_buy_or_sell)) {
            CityEvent::Exit
        } else {
            CityEvent::Nothing
        },
        collapses(old(city).population, *old(acres_buy_or_sell))
            ==> final(city).population == old(city).population,
        counts_starvation(old(city).population, *old(acres_buy_or_sell)) ==> {
            &&& *final(population_starved_per_yr) == running_average(
                old(city).year,
                *old(population_starved_per_yr),
                starved(old(city).population, *old(acres_buy_or_sell)),
                old(city).population,
            )
            &&& *final(people_died_total) == *old(people_died_total)
                + starved(old(city).population, *old(acres_buy_or_sell))
        },
        !counts_starvation(old(city).population, *old(acres_buy_or_sell)) ==> {
            &&& *final(population_starved_per_yr) == *old(population_starved_per_yr)
            &&& *final(people_died_total) == *old(people_died_total)
        },
{
    city.bushels_per_acre = draws.bushels_per_acre;
    let planted: u64 = city.acres_planted_with_seed as u64;
    let per_acre: u64 = city.bushels_per_acre as u64;
    assert(planted * per_acre <= 0xffff * 0xffff) by (nonlinear_arith)
        requires
            planted <= 0xffff,
            per_acre <= 0xffff,
    ;
    let new_bushels: u64 = planted * per_acre;

    check_rat_menace(city, draws.rats);

    let stored: u64 = city.bushels_preserved as u64 + new_bushels - city.bushels_destroyed as u64;
    city.bushels_preserved = stored as u16;
    city.people_arrived = people_arriving(
        draws.arrivals,
        city.acres_owned,
        city.bushels_preserved,
        city.population,
    );

    let fed_people: u16 = *acres_buy_or_sell / 20;
    *acres_buy_or_sell = carried_signal(draws.signal);

    if city.population < fed_people {
        city.people_starved = 0;
        return CityEvent::Nothing;
    }
    city.people_starved = city.population - fed_people;

    if 100 * (city.people_starved as u64) > 45 * (city.population as u64) {
        return CityEvent::Exit;
    }
    proof {
        lemma_rate_bounded(city.people_starved as int, city.population as int);
        lemma_average_bounded(
            city.year as int,
            *population_starved_per_yr as int,
            city.people_starved * 100 / (city.population as int),
        );
    }
    let rate: u64 = (city.people_starved as u64) * 100 / (city.population as u64);
    let weighed: u64 = (city.year as u64 - 1) * (*population_starved_per_yr as u64) + rate;
    *population_starved_per_yr = (weighed / (city.year as u64)) as u16;
    city.population = fed_people;
    *people_died_total += city.people_starved;

    CityEvent::Nothing
}

} // verus!
