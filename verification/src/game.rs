//! A term of office: the ledger with the running totals, and the single
//! transition that moves it from phase to phase.

use vstd::prelude::*;
use crate::city::{
    after_report, check_report_fits, get_new_city, new_city, plague_strikes, report_fits,
    update_report_summary, City, CityEvent, Rejection,
};
use crate::harvest::{
    check_harvest_fits, collapses, counts_starvation, harvest_bounty, harvest_fits, harvested, next_signal,
    running_average, starved, HarvestDraws,
};
use crate::land::{
    after_buy, after_sell, buy_acres, buy_fits, can_buy, can_sell, check_buy_fits, check_sell_fits,
    sell_acres, sell_fits,
};
use crate::market::{land_price, open_market, priced, set_land_price};
use crate::stores::{
    after_feed, after_planting, can_feed, feed_people, plant_seeds, planting_refused,
};

verus! {

/// The number of years in a term of office.
pub const TERM_YEARS: u16 = 10;

/// Everything that a term of office carries from phase to phase.
#[derive(Clone, Copy, Debug, PartialEq, Eq, Structural)]
pub struct Game {
    pub city: City,
    /// The quantity of the last directive on land or food; after a harvest,
    /// the land signal that the next yearly report reads.
    pub acres_buy_or_sell: u16,
    /// Average percentage of the people who starved in a year.
    pub population_starved_per_yr: u16,
    /// People who starved since the term began.
    pub people_died_total: u16,
}

/// What the opening of a year brought.
#[derive(Clone, Copy, Debug, PartialEq, Eq, Structural)]
pub struct YearOpening {
    /// A plague halved the people.
    pub plague: bool,
    /// The term is over: no directives are taken, the rating is due.
    pub term_over: bool,
}

/// What a phase waits for before it can be handled.
#[derive(Clone, Copy, Debug, PartialEq, Eq, Structural)]
pub enum Demand {
    /// A directive of the steward.
    Directive,
    /// The draws of a harvest.
    Draws,
    /// Nothing: the year is complete and the next one can be opened.
    YearDone,
    /// Nothing: the term has ended early.
    TermEnded,
}

/// A term at its beginning.
pub open spec fn new_game() -> Game {
    Game {
        city: new_city(),
        acres_buy_or_sell: 1,
        population_starved_per_yr: 0,
        people_died_total: 0,
    }
}

/// Whether the term has run its years.
pub open spec fn term_over(city: City) -> bool {
    city.year > TERM_YEARS
}

/// The term after a year was opened with the given draw for the land price:
/// the report is drawn up, and land is priced unless the term is over.
pub open spec fn year_opened(game: Game, draw: u16) -> Game {
    let reported = after_report(game.city, game.acres_buy_or_sell);
    if term_over(reported) {
        Game { city: reported, ..game }
    } else {
        Game { city: priced(reported, draw), ..game }
    }
}

/// What the opening of a year tells.
pub open spec fn opening_of(game: Game) -> YearOpening {
    YearOpening {
        plague: plague_strikes(game.acres_buy_or_sell),
        term_over: term_over(after_report(game.city, game.acres_buy_or_sell)),
    }
}

/// The outcome of a directive to buy land.
pub open spec fn bought(game: Game, input: u16) -> (Game, Result<CityEvent, Rejection>) {
    if !can_buy(game.city, input) {
        (game, Err(Rejection::Bushels(game.city.bushels_preserved)))
    } else if input == 0 {
        (Game { acres_buy_or_sell: 0, ..game }, Ok(CityEvent::SellAcres))
    } else {
        (
            Game { city: after_buy(game.city, input), acres_buy_or_sell: input, ..game },
            Ok(CityEvent::FeedPeople),
        )
    }
}

/// The outcome of a directive to sell land.
pub open spec fn sold(game: Game, input: u16) -> (Game, Result<CityEvent, Rejection>) {
    if !can_sell(game.city, input) {
        (game, Err(Rejection::Acres(game.city.acres_owned)))
    } else {
        (
            Game { city: after_sell(game.city, input), acres_buy_or_sell: input, ..game },
            Ok(CityEvent::FeedPeople),
        )
    }
}

/// The outcome of a directive to feed the people.
pub open spec fn fed(game: Game, input: u16) -> (Game, Result<CityEvent, Rejection>) {
    if !can_feed(game.city, input) {
        (game, Err(Rejection::Bushels(game.city.bushels_preserved)))
    } else {
        (
            Game { city: after_feed(game.city, input), acres_buy_or_sell: input, ..game },
            Ok(CityEvent::PlantSeeds),
        )
    }
}

/// The outcome of a directive to plant.
pub open spec fn planted(game: Game, input: u16) -> (Game, Result<CityEvent, Rejection>) {
    match planting_refused(game.city, input) {
        Some(why) => (game, Err(why)),
        None => (
            Game { city: after_planting(game.city, input), ..game },
            Ok(CityEvent::HarvestBounty),
        ),
    }
}

/// The outcome of a harvest.
pub open spec fn reaped(game: Game, draws: HarvestDraws) -> (Game, Result<CityEvent, Rejection>) {
    let population = game.city.population;
    let carried = game.acres_buy_or_sell;
    let counted = counts_starvation(population, carried);
    (
        Game {
            city: harvested(game.city, carried, draws),
            acres_buy_or_sell: next_signal(draws.signal) as u16,
            population_starved_per_yr: if counted {
                running_average(
                    game.city.year,
                    game.population_starved_per_yr,
                    starved(population, carried),
                    population,
                ) as u16
            } else {
                game.population_starved_per_yr
            },
            people_died_total: if counted {
                (game.people_died_total + starved(population, carried)) as u16
            } else {
                game.people_died_total
            },
        },
        Ok(
            if collapses(population, carried) {
                CityEvent::Exit
            } else {
                CityEvent::Nothing
            },
        ),
    )
}

/// The term and the next phase after `phase` was handled with the
/// steward's `input` and the year's `draws`. A phase that takes no directive
/// leaves everything as it is.
pub open spec fn stepped(game: Game, phase: CityEvent, input: u16, draws: HarvestDraws) -> (
    Game,
    Result<CityEvent, Rejection>,
) {
    match phase {
        CityEvent::BuyAcres => bought(game, input),
        CityEvent::SellAcres => sold(game, input),
        CityEvent::FeedPeople => fed(game, input),
        CityEvent::PlantSeeds => planted(game, input),
        CityEvent::HarvestBounty => reaped(game, draws),
        _ => (game, Ok(phase)),
    }
}

/// What `phase` waits for.
pub open spec fn demand_of(phase: CityEvent) -> Demand {
    match phase {
        CityEvent::BuyAcres => Demand::Directive,
        CityEvent::SellAcres => Demand::Directive,
        CityEvent::FeedPeople => Demand::Directive,
        CityEvent::PlantSeeds => Demand::Directive,
        CityEvent::HarvestBounty => Demand::Draws,
        CityEvent::Exit => Demand::TermEnded,
        _ => Demand::YearDone,
    }
}

/// The place of `phase` in a year: the five phases in their order, then
/// everything that ends the year.
pub open spec fn phase_order(phase: CityEvent) -> int {
    match phase {
        CityEvent::BuyAcres => 0,
        CityEvent::SellAcres => 1,
        CityEvent::FeedPeople => 2,
        CityEvent::PlantSeeds => 3,
        CityEvent::HarvestBounty => 4,
        _ => 5,
    }
}

/// Whether `phase` can be handled within the ledger's width.
pub open spec fn step_fits(game: Game, phase: CityEvent, input: u16, draws: HarvestDraws) -> bool {
    match phase {
        CityEvent::BuyAcres => buy_fits(game.city, input),
        CityEvent::SellAcres => sell_fits(game.city, input),
        CityEvent::HarvestBounty => harvest_fits(
            game.city,
            game.acres_buy_or_sell,
            game.people_died_total,
            draws,
        ),
        _ => true,
    }
}

/// Begins a term of office.
pub fn game_start() -> (game: Game)
    ensures
        game == new_game(),
{
    Game {
        city: get_new_city(),
        acres_buy_or_sell: 1,
        population_starved_per_yr: 0,
        people_died_total: 0,
    }
}

/// Opens a year with a given draw for the land price: closes the books of
/// the past year and, unless the term is over, prices the land.
pub fn game_open_year_with(game: &mut Game, draw: u16) -> (opening: YearOpening)
    requires
        report_fits(old(game).city),
        land_price(draw) <= u16::MAX,
    ensures
        *final(game) == year_opened(*old(game), draw),
        opening == opening_of(*old(game)),
{
    let signal: u16 = game.acres_buy_or_sell;
    let event = update_report_summary(&mut game.city, &signal);
    let plague = event == CityEvent::Plague;
    if game.city.year > TERM_YEARS {
        return YearOpening { plague, term_over: true };
    }
    set_land_price(&mut game.city, draw);
    YearOpening { plague, term_over: false }
}

/// Opens a year: closes the books of the past year and, unless the term is
/// over, draws the price of land. Whatever is drawn, the term is as
/// `year_opened` gives it for some draw below ten.
pub fn game_open_year(game: &mut Game) -> (opening: YearOpening)
    requires
        report_fits(old(game).city),
    ensures
        exists|draw: u16| draw < 10 && *final(game) == #[trigger] year_opened(*old(game), draw),
        opening == opening_of(*old(game)),
{
    let signal: u16 = game.acres_buy_or_sell;
    let event = update_report_summary(&mut game.city, &signal);
    let plague = event == CityEvent::Plague;
    if game.city.year > TERM_YEARS {
        assert(*game == year_opened(*old(game), 0));
        return YearOpening { plague, term_over: true };
    }
    let ghost reported = game.city;
    open_market(&mut game.city);
    proof {
        let draw = choose|draw: u16| draw < 10 && game.city == #[trigger] priced(reported, draw);
        assert(*game == year_opened(*old(game), draw));
    }
    YearOpening { plague, term_over: false }
}

/// Says what `phase` waits for.
pub fn phase_demand(phase: CityEvent) -> (demand: Demand)
    ensures
        demand == demand_of(phase),
{
    match phase {
        CityEvent::BuyAcres
        | CityEvent::SellAcres
        | CityEvent::FeedPeople
        | CityEvent::PlantSeeds => Demand::Directive,
        CityEvent::HarvestBounty => Demand::Draws,
        CityEvent::Exit => Demand::TermEnded,
        _ => Demand::YearDone,
    }
}

/// Says whether `phase` can be handled within the ledger's width.
pub fn check_step_fits(
    game: &Game,
    phase: CityEvent,
    input: u16,
    draws: &HarvestDraws,
) -> (ok: bool)
    ensures
        ok == step_fits(*game, phase, input, *draws),
{
    match phase {
        CityEvent::BuyAcres => check_buy_fits(&game.city, input),
        CityEvent::SellAcres => check_sell_fits(&game.city, input),
        CityEvent::HarvestBounty => check_harvest_fits(
            &game.city,
            game.acres_buy_or_sell,
            game.people_died_total,
            draws,
        ),
        _ => true,
    }
}

/// Handles one phase of the year and says which phase is next.
///
/// `input` is the steward's directive and is read by the four phases that
/// take one; `draws` is read by the harvest alone. A directive that is
/// turned down comes back as the reason, with the term unchanged: the same
/// phase is then due again.
pub fn game_step(
    game: &mut Game,
    phase: CityEvent,
    input: u16,
    draws: HarvestDraws,
) -> (next: Result<CityEvent, Rejection>)
    requires
        step_fits(*old(game), phase, input, draws),
    ensures
        (*final(game), next) == stepped(*old(game), phase, input, draws),
{
    match phase {
        CityEvent::BuyAcres => buy_acres(&mut game.city, &mut game.acres_buy_or_sell, input),
        CityEvent::SellAcres => sell_acres(&mut game.city, &mut game.acres_buy_or_sell, input),
        CityEvent::FeedPeople => feed_people(&mut game.city, &mut game.acres_buy_or_sell, input),
        CityEvent::PlantSeeds => plant_seeds(&mut game.city, input),
        CityEvent::HarvestBounty => Ok(
            harvest_bounty(
                &mut game.city,
                &mut game.acres_buy_or_sell,
                &mut game.population_starved_per_yr,
                &mut game.people_died_total,
                draws,
            ),
        ),
        _ => Ok(phase),
    }
}

/// Opens a year if the report fits the ledger's width, and does nothing
/// otherwise.
pub fn game_try_open_year(game: &mut Game) -> (opening: Option<YearOpening>)
    ensures
        report_fits(old(game).city) ==> {
            &&& opening == Some(opening_of(*old(game)))
            &&& exists|draw: u16|
                draw < 10 && *final(game) == #[trigger] year_opened(*old(game), draw)
        },
        !report_fits(old(game).city) ==> {
            &&& opening is None
            &&& *final(game) == *old(game)
        },
{
    if !check_report_fits(&game.city) {
        return None;
    }
    Some(game_open_year(game))
}

/// Handles one phase of the year if it fits the ledger's width, and does
/// nothing otherwise.
pub fn game_try_step(
    game: &mut Game,
    phase: CityEvent,
    input: u16,
    draws: HarvestDraws,
) -> (next: Option<Result<CityEvent, Rejection>>)
    ensures
        step_fits(*old(game), phase, input, draws) ==> {
            &&& next is Some
            &&& (*final(game), next.unwrap()) == stepped(*old(game), phase, input, draws)
        },
        !step_fits(*old(game), phase, input, draws) ==> {
            &&& next is None
            &&& *final(game) == *old(game)
        },
{
    if !check_step_fits(game, phase, input, &draws) {
        return None;
    }
    Some(game_step(game, phase, input, draws))
}

} // verus!
