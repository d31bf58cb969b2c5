//! Laws that hold across the phases of a year.

use vstd::prelude::*;
use crate::city::{City, CityEvent, Rejection};
use crate::game::{
    bought, fed, phase_order, planted, reaped, sold, step_fits, stepped, year_opened, Game,
};
use crate::harvest::{collapses, rat_loss, starved, HarvestDraws};
use crate::land::{after_buy, after_sell, buy_fits, can_buy, can_sell, land_value, sell_fits};
use crate::stores::{planting_refused, seed_cost};

verus! {

/// A purchase that is accepted takes exactly the price of the acres from the
/// granary, never more grain than is in store, and adds exactly the acres
/// bought.
pub proof fn lemma_buy_keeps_stock(city: City, acres: u16)
    requires
        can_buy(city, acres),
        buy_fits(city, acres),
    ensures
        after_buy(city, acres).bushels_preserved == city.bushels_preserved - city.bushels_per_acre
            * acres,
        after_buy(city, acres).bushels_preserved >= 0,
        city.bushels_preserved - city.bushels_per_acre * acres >= 0,
        after_buy(city, acres).acres_owned == city.acres_owned + acres,
{
    lemma_land_value_bounds(city, acres);
}

/// A sale that is accepted takes exactly the acres sold from the land and
/// pays exactly their price into the granary.
pub proof fn lemma_sell_pays_price(city: City, acres: u16)
    requires
        can_sell(city, acres),
        sell_fits(city, acres),
    ensures
        after_sell(city, acres).acres_owned == city.acres_owned - acres,
        after_sell(city, acres).bushels_preserved == city.bushels_preserved + city.bushels_per_acre
            * acres,
{
    lemma_land_value_bounds(city, acres);
}

/// Buying land and selling the same acres at once, at the same price, gives
/// back the ledger as it was: the sale is within the ledger's width, and it
/// restores both the acres owned and the grain in store.
pub proof fn lemma_buy_then_sell_restores(city: City, acres: u16)
    requires
        can_buy(city, acres),
        buy_fits(city, acres),
        can_sell(after_buy(city, acres), acres),
    ensures
        after_buy(city, acres).bushels_per_acre == city.bushels_per_acre,
        sell_fits(after_buy(city, acres), acres),
        after_sell(after_buy(city, acres), acres).acres_owned == city.acres_owned,
        after_sell(after_buy(city, acres), acres).bushels_preserved == city.bushels_preserved,
        after_sell(after_buy(city, acres), acres) == city,
{
    lemma_land_value_bounds(city, acres);
}

/// Selling land and buying the same acres back at once, at the same price,
/// gives back the ledger as it was.
pub proof fn lemma_sell_then_buy_restores(city: City, acres: u16)
    requires
        can_sell(city, acres),
        sell_fits(city, acres),
    ensures
        can_buy(after_sell(city, acres), acres),
        buy_fits(after_sell(city, acres), acres),
        after_buy(after_sell(city, acres), acres) == city,
{
    lemma_land_value_bounds(city, acres);
}

/// Planting is refused, and the term left as it was, for more acres than the
/// city owns, and for any acres at all whose seed grain is not below the
/// grain in store or that the people cannot tend.
pub proof fn lemma_planting_limits(game: Game, acres: u16)
    requires
        acres > game.city.acres_owned
            || (acres != 0 && seed_cost(acres) >= game.city.bushels_preserved)
            || (acres != 0 && acres >= 10 * game.city.population),
    ensures
        planting_refused(game.city, acres) is Some,
        planted(game, acres).1 is Err,
        planted(game, acres).0 == game,
{
}

/// When more than 45 in a hundred of the people starve, the harvest ends
/// the term, and neither the population nor the running totals change.
pub proof fn lemma_collapse_halts(game: Game, draws: HarvestDraws)
    requires
        collapses(game.city.population, game.acres_buy_or_sell),
    ensures
        reaped(game, draws).1 == Ok::<CityEvent, Rejection>(CityEvent::Exit),
        reaped(game, draws).0.city.population == game.city.population,
        reaped(game, draws).0.population_starved_per_yr == game.population_starved_per_yr,
        reaped(game, draws).0.people_died_total == game.people_died_total,
        reaped(game, draws).0.city.people_starved
            == starved(game.city.population, game.acres_buy_or_sell),
{
}

/// A directive that is turned down leaves the term as it was, and every
/// phase that is handled leads to a later phase of the year, never back.
pub proof fn lemma_phases_move_forward(
    game: Game,
    phase: CityEvent,
    input: u16,
    draws: HarvestDraws,
)
    requires
        phase_order(phase) < 5,
    ensures
        match stepped(game, phase, input, draws).1 {
            Ok(next) => phase_order(next) > phase_order(phase),
            Err(_) => stepped(game, phase, input, draws).0 == game,
        },
{
}

/// The land of the city changes by buying and selling alone: no other
/// phase, nor the opening of a year, touches it.
pub proof fn lemma_only_trade_changes_land(
    game: Game,
    phase: CityEvent,
    input: u16,
    draws: HarvestDraws,
    price_draw: u16,
)
    requires
        phase != CityEvent::BuyAcres,
        phase != CityEvent::SellAcres,
    ensures
        stepped(game, phase, input, draws).0.city.acres_owned == game.city.acres_owned,
        year_opened(game, price_draw).city.acres_owned == game.city.acres_owned,
{
}

/// The granary shrinks by buying, feeding, planting and the rats alone, and
/// grows by selling and the harvest alone; the opening of a year leaves it.
pub proof fn lemma_granary_movements(game: Game, input: u16, draws: HarvestDraws, price_draw: u16)
    requires
        step_fits(game, CityEvent::BuyAcres, input, draws),
        step_fits(game, CityEvent::SellAcres, input, draws),
        step_fits(game, CityEvent::HarvestBounty, input, draws),
    ensures
        bought(game, input).0.city.bushels_preserved <= game.city.bushels_preserved,
        sold(game, input).0.city.bushels_preserved >= game.city.bushels_preserved,
        fed(game, input).0.city.bushels_preserved <= game.city.bushels_preserved,
        planted(game, input).0.city.bushels_preserved <= game.city.bushels_preserved,
        reaped(game, draws).0.city.bushels_preserved == game.city.bushels_preserved
            + game.city.acres_planted_with_seed * draws.bushels_per_acre
            - rat_loss(game.city.bushels_preserved, draws.rats),
        0 <= rat_loss(game.city.bushels_preserved, draws.rats) <= game.city.bushels_preserved,
        year_opened(game, price_draw).city.bushels_preserved == game.city.bushels_preserved,
{
    lemma_land_value_bounds(game.city, input);
    lemma_rat_loss_bounds(game.city.bushels_preserved, draws.rats);
    assert(0 <= game.city.acres_planted_with_seed * draws.bushels_per_acre) by (nonlinear_arith);
}

proof fn lemma_land_value_bounds(city: City, acres: u16)
    ensures
        0 <= land_value(city, acres),
{
    assert(0 <= city.bushels_per_acre * acres) by (nonlinear_arith);
}

proof fn lemma_rat_loss_bounds(stored: u16, draw: u16)
    ensures
        0 <= rat_loss(stored, draw) <= stored,
{
    if draw != 0 {
        let s = stored as int;
        let d = draw as int;
        assert(0 <= s / d <= s) by (nonlinear_arith)
            requires
                0 <= s,
                1 <= d,
        ;
    }
}

} // verus!
