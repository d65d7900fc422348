use scooter_rentals::weather::ForecastTime;
use scooter_rentals::weather::Season;
use scooter_rentals::weather::Temperature;
use scooter_rentals::weather::Weather;
use scooter_rentals::weather::WeatherType;

#[test]
fn choose_weather() {
    ()
}

#[test]
fn default_state() {
    let weather = Weather::new();
    assert_eq!(weather.get_current(), WeatherType::Sunny);
    assert_eq!(weather.get_forecast(), WeatherType::Sunny);
    assert_eq!(weather.get_temperature(), Temperature::Warm);
    assert_eq!(weather.get_season(), Season::Spring);
    assert_eq!(weather.get_days_of_season(), 0);
}

#[test]
fn describe_today_default() {
    let weather = Weather::new();
    let sentence = weather.describe(ForecastTime::Today);
    assert_eq!(sentence, "It is a warm sunny spring day, today.");
    assert!(sentence.contains("warm"));
    assert!(sentence.contains("sunny"));
    assert!(sentence.contains("spring"));
    assert!(sentence.contains("today"));
}

#[test]
fn describe_tomorrow_uses_forecast() {
    let weather = Weather::new()
        .with_curent_weather("rainy")
        .with_forecast("stormy")
        .with_temperature("cold")
        .with_season("fall");
    assert_eq!(
        weather.describe(ForecastTime::Tomorrow),
        "It might be a cold stormy fall day, tomorrow."
    );
    assert_eq!(
        weather.describe(ForecastTime::Today),
        "It is a cold rainy fall day, today."
    );
}

#[test]
fn weather_type_names() {
    assert_eq!(WeatherType::Sunny.describe(), "sunny");
    assert_eq!(WeatherType::Cloudy.describe(), "cloudy");
    assert_eq!(WeatherType::Rainy.describe(), "rainy");
    assert_eq!(WeatherType::Stormy.describe(), "stormy");
    assert_eq!(WeatherType::Snowy.describe(), "snowy");
    assert_eq!(WeatherType::from_str("stormy"), WeatherType::Stormy);
    assert_eq!(WeatherType::from_str("blizzard"), WeatherType::Sunny);
}

#[test]
fn temperature_names() {
    assert_eq!(Temperature::Scorching.describe(), "scorching");
    assert_eq!(Temperature::Freezing.describe(), "freezing");
    assert_eq!(Temperature::from_str("cool"), Temperature::Cool);
    assert_eq!(Temperature::from_str("mild"), Temperature::Warm);
}

#[test]
fn season_names() {
    assert_eq!(Season::Spring.describe(), "spring");
    assert_eq!(Season::Winter.describe(), "winter");
    assert_eq!(Season::from_str("fall"), Season::Fall);
    assert_eq!(Season::from_str("monsoon"), Season::Spring);
}

#[test]
fn forecast_time_names() {
    assert_eq!(ForecastTime::Today.describe(), "today");
    assert_eq!(ForecastTime::Tomorrow.describe(), "tomorrow");
}

#[test]
fn new_day_counts_up_within_a_season() {
    let mut weather = Weather::new().with_days_of_season(3);
    weather.new_day();
    assert_eq!(weather.get_days_of_season(), 4);
    assert_eq!(weather.get_season(), Season::Spring);
}

#[test]
fn new_day_rolls_the_season_over() {
    // Six days per season: advancing on day six starts the next season
    // and resets the counter to one.
    let mut weather = Weather::new().with_days_of_season(6);
    weather.new_day();
    assert_eq!(weather.get_days_of_season(), 1);
    assert_eq!(weather.get_season(), Season::Summer);

    let mut winter = Weather::new().with_season("winter").with_days_of_season(6);
    winter.new_day();
    assert_eq!(winter.get_days_of_season(), 1);
    assert_eq!(winter.get_season(), Season::Spring);
}

#[test]
fn new_day_draws_temperature_from_the_season() {
    let mut weather = Weather::new().with_season("winter").with_days_of_season(1);
    weather.new_day();
    let t = weather.get_temperature();
    assert!(
        t == Temperature::Cool || t == Temperature::Cold || t == Temperature::Freezing,
        "temperature {:?} is not a winter band",
        t
    );
}

#[test]
fn snow_only_falls_in_winter() {
    // Over many draws, spring weather never comes up snowy while the
    // forecast always stays within the season's possibilities.
    for _ in 0..200 {
        let mut spring = Weather::new().with_days_of_season(1);
        spring.new_day();
        assert_ne!(spring.get_forecast(), WeatherType::Snowy);
        let mut winter = Weather::new().with_season("winter").with_days_of_season(1);
        winter.new_day();
        assert_ne!(winter.get_forecast(), WeatherType::Rainy);
    }
}

#[test]
fn builders_set_single_fields() {
    let weather = Weather::new()
        .with_curent_weather("cloudy")
        .with_forecast("rainy")
        .with_temperature("hot")
        .with_season("summer")
        .with_days_of_season(2);
    assert_eq!(weather.get_current(), WeatherType::Cloudy);
    assert_eq!(weather.get_forecast(), WeatherType::Rainy);
    assert_eq!(weather.get_temperature(), Temperature::Hot);
    assert_eq!(weather.get_season(), Season::Summer);
    assert_eq!(weather.get_days_of_season(), 2);
}
