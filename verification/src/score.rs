//! The rating of a finished term of office.

use vstd::prelude::*;
use crate::city::{City, PlayerScore};

verus! {

/// Acres of land for each person, rounded down.
pub open spec fn acres_per_person(city: City) -> int {
    (city.acres_owned as int) / (city.population as int)
}

/// The rating for an average yearly starvation in percent and the acres
/// that each person ends with. The four tiers are tried from the worst up
/// and the first that applies is the rating.
pub open spec fn rating(starved_per_yr: int, per_person: int) -> PlayerScore {
    if starved_per_yr > 33 || per_person < 7 {
        PlayerScore::Worse
    } else if starved_per_yr > 10 || per_person < 9 {
        PlayerScore::Bad
    } else if starved_per_yr > 3 || per_person < 10 {
        PlayerScore::Fair
    } else {
        PlayerScore::Good
    }
}

/// Rates the term of office from the land and people at its end and the
/// average starvation over its years. The total of deaths is part of the
/// report to the steward and does not enter the rating.
pub fn game_result(
    city: &City,
    population_starved_per_yr: u16,
    people_died_total: u16,
) -> (score: PlayerScore)
    requires
        city.population > 0,
    ensures
        score == rating(population_starved_per_yr as int, acres_per_person(*city)),
{
    let acres_per_person: u16 = city.acres_owned / city.population;

    if population_starved_per_yr > 33 || acres_per_person < 7 {
        return PlayerScore::Worse;
    } else if population_starved_per_yr > 10 || acres_per_person < 9 {
        return PlayerScore::Bad;
    } else if population_starved_per_yr > 3 || acres_per_person < 10 {
        return PlayerScore::Fair;
    }
    PlayerScore::Good
}

} // verus!
