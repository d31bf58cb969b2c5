use hamurabi::city::{get_new_city, City, CityEvent, Rejection};
use hamurabi::land::{buy_acres, check_buy_fits, check_sell_fits, sell_acres};

fn priced_city(price: u16) -> City {
    City { bushels_per_acre: price, ..get_new_city() }
}

#[test]
fn starting_city_owns_a_thousand_acres() {
    let city = get_new_city();
    assert_eq!(city.year, 1);
    assert_eq!(city.bushels_preserved, 2800);
    assert_eq!(city.bushels_destroyed, 200);
    assert_eq!(city.bushels_per_acre, 3);
    assert_eq!(city.people_starved, 0);
    assert_eq!(city.people_arrived, 5);
    assert_eq!(city.population, 95);
    assert_eq!(city.acres_owned, 1000);
    assert_eq!(city.acres_planted_with_seed, 0);
}

#[test]
fn buying_pays_the_price_for_each_acre() {
    let mut city = priced_city(20);
    let mut signal: u16 = 1;
    assert!(check_buy_fits(&city, 10));
    let next = buy_acres(&mut city, &mut signal, 10);
    assert_eq!(next, Ok(CityEvent::FeedPeople));
    assert_eq!(city.acres_owned, 1010);
    assert_eq!(city.bushels_preserved, 2600);
    assert_eq!(signal, 10);
}

#[test]
fn buying_with_the_last_bushel_is_accepted() {
    let mut city = priced_city(20);
    let mut signal: u16 = 1;
    let next = buy_acres(&mut city, &mut signal, 140);
    assert_eq!(next, Ok(CityEvent::FeedPeople));
    assert_eq!(city.acres_owned, 1140);
    assert_eq!(city.bushels_preserved, 0);
}

#[test]
fn buying_beyond_the_granary_is_turned_down() {
    let mut city = priced_city(20);
    let before = city;
    let mut signal: u16 = 7;
    let next = buy_acres(&mut city, &mut signal, 141);
    assert_eq!(next, Err(Rejection::Bushels(2800)));
    assert_eq!(city, before);
    assert_eq!(signal, 7);
}

#[test]
fn buying_a_price_that_exceeds_sixteen_bits_is_turned_down() {
    let mut city = priced_city(26);
    let before = city;
    let mut signal: u16 = 7;
    assert!(check_buy_fits(&city, 60000));
    let next = buy_acres(&mut city, &mut signal, 60000);
    assert_eq!(next, Err(Rejection::Bushels(2800)));
    assert_eq!(city, before);
}

#[test]
fn buying_nothing_leads_to_selling() {
    let mut city = priced_city(20);
    let before = city;
    let mut signal: u16 = 7;
    let next = buy_acres(&mut city, &mut signal, 0);
    assert_eq!(next, Ok(CityEvent::SellAcres));
    assert_eq!(city, before);
    assert_eq!(signal, 0);
}

#[test]
fn selling_pays_the_price_for_each_acre() {
    let mut city = priced_city(20);
    let mut signal: u16 = 0;
    assert!(check_sell_fits(&city, 100));
    let next = sell_acres(&mut city, &mut signal, 100);
    assert_eq!(next, Ok(CityEvent::FeedPeople));
    assert_eq!(city.acres_owned, 900);
    assert_eq!(city.bushels_preserved, 4800);
    assert_eq!(signal, 100);
}

#[test]
fn selling_nothing_is_accepted() {
    let mut city = priced_city(20);
    let before = city;
    let mut signal: u16 = 5;
    let next = sell_acres(&mut city, &mut signal, 0);
    assert_eq!(next, Ok(CityEvent::FeedPeople));
    assert_eq!(city, before);
    assert_eq!(signal, 0);
}

#[test]
fn selling_all_the_land_is_turned_down() {
    let mut city = priced_city(20);
    let before = city;
    let mut signal: u16 = 0;
    let next = sell_acres(&mut city, &mut signal, 1000);
    assert_eq!(next, Err(Rejection::Acres(1000)));
    assert_eq!(city, before);
    assert_eq!(signal, 0);
}

#[test]
fn selling_more_than_owned_is_turned_down() {
    let mut city = priced_city(20);
    let before = city;
    let mut signal: u16 = 0;
    let next = sell_acres(&mut city, &mut signal, 1001);
    assert_eq!(next, Err(Rejection::Acres(1000)));
    assert_eq!(city, before);
}

#[test]
fn selling_all_but_one_acre_is_accepted() {
    let mut city = priced_city(20);
    let mut signal: u16 = 0;
    let next = sell_acres(&mut city, &mut signal, 999);
    assert_eq!(next, Ok(CityEvent::FeedPeople));
    assert_eq!(city.acres_owned, 1);
    assert_eq!(city.bushels_preserved, 2800 + 999 * 20);
}

#[test]
fn buying_then_selling_the_same_acres_restores_the_ledger() {
    let mut city = priced_city(23);
    let before = city;
    let mut signal: u16 = 1;
    assert_eq!(buy_acres(&mut city, &mut signal, 57), Ok(CityEvent::FeedPeople));
    assert_eq!(city.acres_owned, 1057);
    assert_eq!(city.bushels_preserved, 2800 - 57 * 23);
    assert_eq!(sell_acres(&mut city, &mut signal, 57), Ok(CityEvent::FeedPeople));
    assert_eq!(city, before);
}

#[test]
fn selling_then_buying_the_same_acres_restores_the_ledger() {
    let mut city = priced_city(19);
    let before = city;
    let mut signal: u16 = 1;
    assert_eq!(sell_acres(&mut city, &mut signal, 300), Ok(CityEvent::FeedPeople));
    assert_eq!(buy_acres(&mut city, &mut signal, 300), Ok(CityEvent::FeedPeople));
    assert_eq!(city, before);
}

#[test]
fn trades_that_would_not_fit_the_ledger_are_told_apart() {
    let crowded = City { acres_owned: 65000, bushels_preserved: 60000, ..priced_city(20) };
    assert!(!check_buy_fits(&crowded, 1000));
    assert!(check_buy_fits(&crowded, 535));
    assert!(!check_sell_fits(&crowded, 1000));
    assert!(check_sell_fits(&crowded, 276));
    assert!(!check_sell_fits(&crowded, 277));
    assert!(check_sell_fits(&crowded, 65000));
}
