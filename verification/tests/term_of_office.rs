use hamurabi::city::{
    check_plague, check_report_fits, get_new_city, update_report_summary, City, CityEvent,
    PlayerScore, Rejection,
};
use hamurabi::game::{
    check_step_fits, game_open_year, game_open_year_with, game_start, game_step,
    game_try_open_year, game_try_step, phase_demand, Demand, Game, YearOpening, TERM_YEARS,
};
use hamurabi::harvest::HarvestDraws;
use hamurabi::market::{open_market, set_land_price};
use hamurabi::score::game_result;

fn draws() -> HarvestDraws {
    HarvestDraws { bushels_per_acre: 3, rats: 2, arrivals: 4, signal: 0 }
}

fn rated(acres_owned: u16, population: u16, average: u16) -> PlayerScore {
    game_result(&City { acres_owned, population, ..get_new_city() }, average, 0)
}

#[test]
fn plague_halves_the_people_on_a_zero_signal() {
    let mut city = get_new_city();
    assert_eq!(check_plague(0, &mut city), CityEvent::Plague);
    assert_eq!(city, City { population: 47, ..get_new_city() });
}

#[test]
fn plague_spares_the_people_otherwise() {
    let mut city = get_new_city();
    assert_eq!(check_plague(1, &mut city), CityEvent::Nothing);
    assert_eq!(city, get_new_city());
    assert_eq!(check_plague(65535, &mut city), CityEvent::Nothing);
    assert_eq!(city, get_new_city());
}

#[test]
fn report_advances_the_year_and_counts_the_arrivals() {
    let mut city = get_new_city();
    assert!(check_report_fits(&city));
    assert_eq!(update_report_summary(&mut city, &1), CityEvent::Nothing);
    assert_eq!(city, City { year: 2, population: 100, ..get_new_city() });
}

#[test]
fn report_applies_the_plague_after_the_arrivals() {
    let mut city = get_new_city();
    assert_eq!(update_report_summary(&mut city, &0), CityEvent::Plague);
    assert_eq!(city, City { year: 2, population: 50, ..get_new_city() });
}

#[test]
fn report_that_would_not_fit_the_ledger_is_told_apart() {
    assert!(!check_report_fits(&City { year: 65535, ..get_new_city() }));
    assert!(!check_report_fits(&City { population: 65531, ..get_new_city() }));
    assert!(check_report_fits(&City { population: 65530, ..get_new_city() }));
}

#[test]
fn rating_takes_the_first_tier_that_applies() {
    assert_eq!(rated(1500, 100, 34), PlayerScore::Worse);
}

#[test]
fn rating_worst_tier() {
    assert_eq!(rated(699, 100, 0), PlayerScore::Worse);
    assert_eq!(rated(1500, 100, 34), PlayerScore::Worse);
    assert_eq!(rated(0, 1, 0), PlayerScore::Worse);
}

#[test]
fn rating_bad_tier() {
    assert_eq!(rated(700, 100, 33), PlayerScore::Bad);
    assert_eq!(rated(1500, 100, 11), PlayerScore::Bad);
    assert_eq!(rated(899, 100, 0), PlayerScore::Bad);
}

#[test]
fn rating_fair_tier() {
    assert_eq!(rated(900, 100, 10), PlayerScore::Fair);
    assert_eq!(rated(1500, 100, 4), PlayerScore::Fair);
    assert_eq!(rated(999, 100, 0), PlayerScore::Fair);
}

#[test]
fn rating_good_tier() {
    assert_eq!(rated(1000, 100, 3), PlayerScore::Good);
    assert_eq!(rated(1000, 100, 0), PlayerScore::Good);
    assert_eq!(rated(65535, 1, 0), PlayerScore::Good);
}

#[test]
fn rating_ignores_the_total_of_deaths() {
    let city = City { acres_owned: 1000, population: 100, ..get_new_city() };
    assert_eq!(game_result(&city, 0, 0), game_result(&city, 0, 65535));
}

#[test]
fn term_begins_with_the_starting_city() {
    let game = game_start();
    assert_eq!(
        game,
        Game {
            city: get_new_city(),
            acres_buy_or_sell: 1,
            population_starved_per_yr: 0,
            people_died_total: 0,
        }
    );
    assert_eq!(TERM_YEARS, 10);
}

#[test]
fn land_price_is_seventeen_and_the_draw() {
    let mut city = get_new_city();
    set_land_price(&mut city, 0);
    assert_eq!(city, City { bushels_per_acre: 17, ..get_new_city() });
    set_land_price(&mut city, 9);
    assert_eq!(city, City { bushels_per_acre: 26, ..get_new_city() });
}

#[test]
fn market_prices_land_between_17_and_26() {
    for _ in 0..200 {
        let mut city = get_new_city();
        open_market(&mut city);
        assert!(17 <= city.bushels_per_acre && city.bushels_per_acre <= 26);
        assert_eq!(city, City { bushels_per_acre: city.bushels_per_acre, ..get_new_city() });
    }
}

#[test]
fn opening_a_year_reports_and_prices_land() {
    let mut game = game_start();
    let opening = game_open_year_with(&mut game, 3);
    assert_eq!(opening, YearOpening { plague: false, term_over: false });
    assert_eq!(
        game.city,
        City { year: 2, population: 100, bushels_per_acre: 20, ..get_new_city() }
    );
    assert_eq!(game.acres_buy_or_sell, 1);
}

#[test]
fn opening_a_year_draws_a_price_in_range() {
    for _ in 0..200 {
        let mut game = Game { acres_buy_or_sell: 0, ..game_start() };
        let opening = game_open_year(&mut game);
        assert_eq!(opening, YearOpening { plague: true, term_over: false });
        let price = game.city.bushels_per_acre;
        assert!(17 <= price && price <= 26);
        assert_eq!(
            game.city,
            City { year: 2, population: 50, bushels_per_acre: price, ..get_new_city() }
        );
    }
}

#[test]
fn opening_the_year_after_the_tenth_ends_the_term() {
    let mut game = Game { city: City { year: 10, ..get_new_city() }, ..game_start() };
    let opening = game_open_year(&mut game);
    assert_eq!(opening, YearOpening { plague: false, term_over: true });
    assert_eq!(game.city, City { year: 11, population: 100, ..get_new_city() });

    let mut game = Game { city: City { year: 9, ..get_new_city() }, ..game_start() };
    let opening = game_open_year_with(&mut game, 0);
    assert_eq!(opening, YearOpening { plague: false, term_over: false });
    assert_eq!(game.city.year, 10);
    assert_eq!(game.city.bushels_per_acre, 17);
}

#[test]
fn a_year_runs_through_its_phases() {
    let mut game = game_start();
    game_open_year_with(&mut game, 3);

    assert!(check_step_fits(&game, CityEvent::BuyAcres, 10, &draws()));
    assert_eq!(game_step(&mut game, CityEvent::BuyAcres, 10, draws()), Ok(CityEvent::FeedPeople));
    assert_eq!(game.city.acres_owned, 1010);
    assert_eq!(game.city.bushels_preserved, 2600);

    assert_eq!(
        game_step(&mut game, CityEvent::FeedPeople, 2000, draws()),
        Ok(CityEvent::PlantSeeds)
    );
    assert_eq!(game.city.bushels_preserved, 600);
    assert_eq!(game.acres_buy_or_sell, 2000);

    assert_eq!(
        game_step(&mut game, CityEvent::PlantSeeds, 1000, draws()),
        Err(Rejection::People(100))
    );
    assert_eq!(
        game_step(&mut game, CityEvent::PlantSeeds, 999, draws()),
        Ok(CityEvent::HarvestBounty)
    );
    assert_eq!(game.city.bushels_preserved, 101);

    assert!(check_step_fits(&game, CityEvent::HarvestBounty, 0, &draws()));
    assert_eq!(
        game_step(&mut game, CityEvent::HarvestBounty, 0, draws()),
        Ok(CityEvent::Nothing)
    );
    assert_eq!(
        game,
        Game {
            city: City {
                year: 2,
                bushels_preserved: 3048,
                bushels_destroyed: 50,
                bushels_per_acre: 3,
                people_starved: 0,
                people_arrived: 9,
                population: 100,
                acres_owned: 1010,
                acres_planted_with_seed: 999,
            },
            acres_buy_or_sell: 0,
            population_starved_per_yr: 0,
            people_died_total: 0,
        }
    );

    let opening = game_open_year_with(&mut game, 0);
    assert_eq!(opening, YearOpening { plague: true, term_over: false });
    assert_eq!(game.city.population, 54);
    assert_eq!(game.city.year, 3);
}

#[test]
fn buying_nothing_then_selling() {
    let mut game = game_start();
    game_open_year_with(&mut game, 3);
    assert_eq!(game_step(&mut game, CityEvent::BuyAcres, 0, draws()), Ok(CityEvent::SellAcres));
    assert_eq!(game.acres_buy_or_sell, 0);
    assert_eq!(
        game_step(&mut game, CityEvent::SellAcres, 1000, draws()),
        Err(Rejection::Acres(1000))
    );
    assert_eq!(game_step(&mut game, CityEvent::SellAcres, 50, draws()), Ok(CityEvent::FeedPeople));
    assert_eq!(game.city.acres_owned, 950);
    assert_eq!(game.city.bushels_preserved, 3800);
    assert_eq!(game.acres_buy_or_sell, 50);
}

#[test]
fn a_starved_city_ends_the_term_at_harvest() {
    let mut game = game_start();
    game_open_year_with(&mut game, 3);
    assert_eq!(game_step(&mut game, CityEvent::BuyAcres, 1, draws()), Ok(CityEvent::FeedPeople));
    assert_eq!(game_step(&mut game, CityEvent::FeedPeople, 0, draws()), Ok(CityEvent::PlantSeeds));
    assert_eq!(
        game_step(&mut game, CityEvent::PlantSeeds, 0, draws()),
        Ok(CityEvent::HarvestBounty)
    );
    assert_eq!(game_step(&mut game, CityEvent::HarvestBounty, 0, draws()), Ok(CityEvent::Exit));
    assert_eq!(game.city.people_starved, 100);
    assert_eq!(game.city.population, 100);
    assert_eq!(game.population_starved_per_yr, 0);
    assert_eq!(game.people_died_total, 0);
}

#[test]
fn phases_without_a_directive_change_nothing() {
    let mut game = game_start();
    let before = game;
    assert_eq!(game_step(&mut game, CityEvent::Nothing, 5, draws()), Ok(CityEvent::Nothing));
    assert_eq!(game_step(&mut game, CityEvent::Exit, 5, draws()), Ok(CityEvent::Exit));
    assert_eq!(game_step(&mut game, CityEvent::Plague, 5, draws()), Ok(CityEvent::Plague));
    assert_eq!(game, before);
    assert!(check_step_fits(&game, CityEvent::Exit, 5, &draws()));
}

#[test]
fn each_phase_says_what_it_waits_for() {
    assert_eq!(phase_demand(CityEvent::BuyAcres), Demand::Directive);
    assert_eq!(phase_demand(CityEvent::SellAcres), Demand::Directive);
    assert_eq!(phase_demand(CityEvent::FeedPeople), Demand::Directive);
    assert_eq!(phase_demand(CityEvent::PlantSeeds), Demand::Directive);
    assert_eq!(phase_demand(CityEvent::HarvestBounty), Demand::Draws);
    assert_eq!(phase_demand(CityEvent::Exit), Demand::TermEnded);
    assert_eq!(phase_demand(CityEvent::Nothing), Demand::YearDone);
    assert_eq!(phase_demand(CityEvent::Plague), Demand::YearDone);
}

#[test]
fn a_step_beyond_the_ledger_is_not_taken() {
    let crowded = Game {
        city: City { acres_owned: 65000, bushels_preserved: 60000, bushels_per_acre: 20, ..get_new_city() },
        ..game_start()
    };
    let mut game = crowded;
    assert_eq!(game_try_step(&mut game, CityEvent::BuyAcres, 1000, draws()), None);
    assert_eq!(game, crowded);
    assert_eq!(game_try_step(&mut game, CityEvent::SellAcres, 1000, draws()), None);
    assert_eq!(game, crowded);
    assert_eq!(
        game_try_step(&mut game, CityEvent::BuyAcres, 4000, draws()),
        Some(Err(Rejection::Bushels(60000)))
    );
    assert_eq!(game, crowded);
    assert_eq!(
        game_try_step(&mut game, CityEvent::BuyAcres, 500, draws()),
        Some(Ok(CityEvent::FeedPeople))
    );
    assert_eq!(game.city.acres_owned, 65500);
    assert_eq!(game.city.bushels_preserved, 50000);
}

#[test]
fn a_harvest_without_people_is_not_resolved() {
    let empty = Game { city: City { population: 0, ..get_new_city() }, ..game_start() };
    let mut game = empty;
    assert_eq!(game_try_step(&mut game, CityEvent::HarvestBounty, 0, draws()), None);
    assert_eq!(game, empty);
}

#[test]
fn a_year_beyond_the_ledger_is_not_opened() {
    let late = Game { city: City { year: 65535, ..get_new_city() }, ..game_start() };
    let mut game = late;
    assert_eq!(game_try_open_year(&mut game), None);
    assert_eq!(game, late);

    let mut game = game_start();
    assert_eq!(
        game_try_open_year(&mut game),
        Some(YearOpening { plague: false, term_over: false })
    );
    assert_eq!(game.city.year, 2);
    assert!(17 <= game.city.bushels_per_acre && game.city.bushels_per_acre <= 26);
}
