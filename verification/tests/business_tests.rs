use scooter_rentals::business::Business;
use scooter_rentals::business::ManagementError;
use scooter_rentals::business::Receipt;
use scooter_rentals::business::table_factor;
use scooter_rentals::weather::Temperature;
use scooter_rentals::weather::Weather;
use scooter_rentals::weather::WeatherType;

#[test]
fn buy_some_scooters() {
    let mut business = Business::new("New Scoots, Inc.".to_string());
    if business.buy_scooters(2, 4000).is_ok() {
        assert_eq!(business.cash(), 2000)
    } else {
        panic!("Buy was not ok")
    }
}

#[test]
fn buy_scooters_grows_fleet() {
    let mut business = Business::new("New Scoots, Inc.".to_string());
    assert_eq!(business.cash(), 10000);
    assert_eq!(business.working_scooters(), 10);
    assert_eq!(business.broken_scooters(), 0);
    assert_eq!(business.scooter_parts(), 0);
    assert_eq!(business.advertisements(), 0);
    assert!(business.buy_scooters(2, 4000).is_ok());
    assert_eq!(business.cash(), 2000);
    assert_eq!(business.working_scooters(), 12);
}

#[test]
fn cashflow_problems() {
    let mut business = Business::new("New Scoots, Inc.".to_string());
    assert_eq!(
        business.buy_scooters(10, 4000),
        Err(ManagementError::NotEnoughMoney)
    );
    // The rejected purchase left the ledger untouched.
    assert_eq!(business.cash(), 10000);
    assert_eq!(business.working_scooters(), 10);
    assert_eq!(business.name(), "New Scoots, Inc.".to_string());
}

#[test]
fn buy_negative_cost() {
    let mut business = Business::new("New Scoots, Inc.".to_string());
    assert_eq!(
        business.buy_scooters(10, -4000),
        Err(ManagementError::InvalidParameter)
    );
    assert_eq!(business.cash(), 10000);
}

#[test]
fn sell_working_scooters() {
    let mut business = Business::new("New Scoots, Inc.".to_string());
    if business.sell_working_scooters(1, 1000).is_ok() {
        assert_eq!(business.cash(), 11000)
    } else {
        panic!("Sell was not ok")
    }
}

#[test]
fn sell_shrinks_fleet() {
    let mut business = Business::new("New Scoots, Inc.".to_string());
    assert!(business.sell_working_scooters(1, 1000).is_ok());
    assert_eq!(business.cash(), 11000);
    assert_eq!(business.working_scooters(), 9);
}

#[test]
fn not_enough_to_sell() {
    let mut business = Business::new("New Scoots, Inc.".to_string());
    assert_eq!(
        business.sell_working_scooters(20, 4000),
        Err(ManagementError::InsufficientWorkingScooters)
    );
    assert_eq!(business.working_scooters(), 10);
}

#[test]
fn negative_cost() {
    let mut business = Business::new("New Scoots, Inc.".to_string());
    assert_eq!(
        business.sell_working_scooters(10, -4000),
        Err(ManagementError::InvalidParameter)
    );
}

#[test]
fn buy_parts_and_repair() {
    let mut business = Business::new("Fixit".to_string())
        .with_broken_scooters(3)
        .with_working_scooters(7);
    assert!(business.buy_scooter_parts(4, 1000).is_ok());
    assert_eq!(business.cash(), 6000);
    assert_eq!(business.scooter_parts(), 4);
    assert!(business.repair_scooters(2).is_ok());
    assert_eq!(business.working_scooters(), 9);
    assert_eq!(business.broken_scooters(), 1);
    assert_eq!(business.scooter_parts(), 2);
    // The total fleet size never changes across a repair.
    assert_eq!(business.working_scooters() + business.broken_scooters(), 10);
}

#[test]
fn repair_without_parts() {
    let mut business = Business::new("Fixit".to_string()).with_broken_scooters(3);
    assert_eq!(
        business.repair_scooters(1),
        Err(ManagementError::InsufficientParts)
    );
    assert_eq!(business.broken_scooters(), 3);
}

#[test]
fn repair_without_broken_scooters() {
    let mut business = Business::new("Fixit".to_string()).with_scooter_parts(5);
    assert_eq!(
        business.repair_scooters(2),
        Err(ManagementError::InsufficientBrokenScooters)
    );
    assert_eq!(business.scooter_parts(), 5);
}

#[test]
fn buy_parts_negative_cost() {
    let mut business = Business::new("Fixit".to_string());
    assert_eq!(
        business.buy_scooter_parts(1, -100),
        Err(ManagementError::InvalidParameter)
    );
}

#[test]
fn buy_parts_too_expensive() {
    let mut business = Business::new("Fixit".to_string());
    assert_eq!(
        business.buy_scooter_parts(5, 2500),
        Err(ManagementError::NotEnoughMoney)
    );
    assert_eq!(business.scooter_parts(), 0);
    assert_eq!(business.cash(), 10000);
}

#[test]
fn advertisements_replace_rather_than_accumulate() {
    let mut business = Business::new("Ads".to_string());
    assert!(business.buy_advertisements(3, 500).is_ok());
    assert_eq!(business.advertisements(), 3);
    assert_eq!(business.cash(), 8500);
    assert!(business.buy_advertisements(2, 500).is_ok());
    assert_eq!(business.advertisements(), 2);
    assert_eq!(business.cash(), 7500);
}

#[test]
fn advertisements_too_expensive() {
    let mut business = Business::new("Ads".to_string());
    assert_eq!(
        business.buy_advertisements(30, 500),
        Err(ManagementError::NotEnoughMoney)
    );
    assert_eq!(business.advertisements(), 0);
    assert_eq!(business.cash(), 10000);
}

#[test]
fn new_day_resets_advertisements() {
    let mut business = Business::new("Ads".to_string());
    assert!(business.buy_advertisements(7, 500).is_ok());
    assert_eq!(business.advertisements(), 7);
    let cash_before = business.cash();
    business.new_day();
    assert_eq!(business.advertisements(), 0);
    assert_eq!(business.cash(), cash_before);
    assert_eq!(business.working_scooters(), 10);
}

#[test]
fn normal_rental() {
    let mut business = Business::new("New Scoots, Inc.".to_string());
    let mut weather = Weather::new();
    weather.new_day();
    let temp = weather.get_temperature();
    let wt = weather.get_current();
    println!("{:?}", business.rent_scooters(1500, temp, wt).unwrap());
}

#[test]
fn rental_rejects_negative_price() {
    let mut business = Business::new("Rentals".to_string());
    let receipt = business.rent_scooters(-100, Temperature::Warm, WeatherType::Sunny);
    assert!(matches!(receipt, Err(ManagementError::InvalidParameter)));
    assert_eq!(business.cash(), 10000);
    assert_eq!(business.working_scooters(), 10);
}

#[test]
fn rental_accounting_is_exact() {
    let mut business = Business::new("Rentals".to_string());
    let receipt = business
        .rent_scooters(1500, Temperature::Warm, WeatherType::Sunny)
        .unwrap();
    let rented = receipt.profit() / 1500;
    assert_eq!(receipt.profit(), rented * 1500);
    assert!(rented <= 10);
    assert!(i64::from(receipt.broken_scooters()) <= rented);
    assert_eq!(business.cash(), 10000 + receipt.profit());
    assert_eq!(
        business.working_scooters(),
        10 - receipt.broken_scooters()
    );
    assert_eq!(business.broken_scooters(), receipt.broken_scooters());
    assert_eq!(business.working_scooters() + business.broken_scooters(), 10);
}

#[test]
fn rental_at_price_of_zero_rents_everything() {
    // A price of zero makes the price ratio unbounded: with any positive
    // demand the whole working fleet goes out, for no profit.
    let mut business = Business::new("Free rides".to_string());
    let receipt = business
        .rent_scooters(0, Temperature::Warm, WeatherType::Sunny)
        .unwrap();
    assert_eq!(receipt.profit(), 0);
    assert_eq!(business.cash(), 10000);
    assert_eq!(business.working_scooters() + business.broken_scooters(), 10);
}

#[test]
fn receipt_reports_its_fields() {
    let mut business = Business::new("Rentals".to_string()).with_working_scooters(0);
    let receipt: Receipt = business
        .rent_scooters(1500, Temperature::Cold, WeatherType::Stormy)
        .unwrap();
    assert_eq!(receipt.profit(), 0);
    assert_eq!(receipt.broken_scooters(), 0);
}

#[test]
fn combined_modifier_stays_clamped() {
    let business = Business::new("Mods".to_string()).with_num_adverts(50);
    let temperatures = [
        Temperature::Scorching,
        Temperature::Hot,
        Temperature::Warm,
        Temperature::Cool,
        Temperature::Cold,
        Temperature::Freezing,
    ];
    let weathers = [
        WeatherType::Sunny,
        WeatherType::Cloudy,
        WeatherType::Rainy,
        WeatherType::Stormy,
    ];
    for t in temperatures {
        for w in weathers {
            for noise in [-100i64, -1, 0, 99] {
                let m = business.combined_modifier_with_noise(t, w, 100, noise);
                assert!(m <= 1000);
            }
        }
    }
}

#[test]
fn combined_modifier_exact_values() {
    let business = Business::new("Mods".to_string());
    // Fresh ledger at the optimal price in ideal weather: the base of one
    // is scaled by a factor of one and only the noise moves it.
    assert_eq!(
        business.combined_modifier_with_noise(Temperature::Warm, WeatherType::Sunny, 1500, 0),
        1000
    );
    assert_eq!(
        business.combined_modifier_with_noise(Temperature::Warm, WeatherType::Sunny, 1500, -100),
        900
    );
    // A zero table factor floors the modifier whatever the rest says.
    assert_eq!(
        business.combined_modifier_with_noise(
            Temperature::Scorching,
            WeatherType::Stormy,
            1500,
            -100
        ),
        0
    );
    // Cold and stormy at a high price: base 1000 - 1000 = 0.
    assert_eq!(
        business.combined_modifier_with_noise(Temperature::Cold, WeatherType::Stormy, 9900, 0),
        0
    );
}

#[test]
fn demand_table_has_no_snowy_entry() {
    let temperatures = [
        Temperature::Scorching,
        Temperature::Hot,
        Temperature::Warm,
        Temperature::Cool,
        Temperature::Cold,
        Temperature::Freezing,
    ];
    for t in temperatures {
        assert!(table_factor(t, WeatherType::Snowy).is_none());
    }
    let weathers = [
        WeatherType::Sunny,
        WeatherType::Cloudy,
        WeatherType::Rainy,
        WeatherType::Stormy,
        WeatherType::Snowy,
    ];
    let mut defined = 0;
    for t in temperatures {
        for w in weathers {
            if table_factor(t, w).is_some() {
                defined += 1;
            }
        }
    }
    assert_eq!(defined, 24);
}

#[test]
fn demand_table_exact_factors() {
    assert_eq!(
        table_factor(Temperature::Warm, WeatherType::Sunny),
        Some(100)
    );
    assert_eq!(
        table_factor(Temperature::Scorching, WeatherType::Sunny),
        Some(5)
    );
    assert_eq!(
        table_factor(Temperature::Freezing, WeatherType::Stormy),
        Some(0)
    );
    assert_eq!(
        table_factor(Temperature::Cool, WeatherType::Cloudy),
        Some(90)
    );
}
