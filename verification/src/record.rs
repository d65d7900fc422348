//! The flat record a saved game round-trips through: every field of the
//! ledger and the weather as a primitive value, with enums encoded by
//! their canonical names.
use vstd::prelude::*;

use crate::business::Business;
use crate::weather::season_name;
use crate::weather::season_of_name;
use crate::weather::temperature_name;
use crate::weather::temperature_of_name;
use crate::weather::weather_name;
use crate::weather::weather_of_name;
use crate::weather::Season;
use crate::weather::Temperature;
use crate::weather::Weather;
use crate::weather::WeatherType;

verus! {

/// The persisted form of a game: day number, ledger fields and weather
/// fields, all primitive. Cash is in cents; the weather enums are their
/// canonical names.
pub struct SaveRecord {
    pub day_num: u32,
    pub name: String,
    pub cash: i64,
    pub scooters_working: u32,
    pub scooters_broken: u32,
    pub scooter_parts: u32,
    pub num_advertisements: u32,
    pub current: String,
    pub forecast: String,
    pub temperature: String,
    pub season: String,
    pub days_of_season: u8,
}

impl SaveRecord {
    pub fn new(
        day_num: u32,
        name: String,
        cash: i64,
        scooters_working: u32,
        scooters_broken: u32,
        scooter_parts: u32,
        num_advertisements: u32,
        current: String,
        forecast: String,
        temperature: String,
        season: String,
        days_of_season: u8,
    ) -> (r: Self)
        ensures
            r.day_num == day_num,
            r.name == name,
            r.cash == cash,
            r.scooters_working == scooters_working,
            r.scooters_broken == scooters_broken,
            r.scooter_parts == scooter_parts,
            r.num_advertisements == num_advertisements,
            r.current == current,
            r.forecast == forecast,
            r.temperature == temperature,
            r.season == season,
            r.days_of_season == days_of_season,
    {
        SaveRecord {
            day_num,
            name,
            cash,
            scooters_working,
            scooters_broken,
            scooter_parts,
            num_advertisements,
            current,
            forecast,
            temperature,
            season,
            days_of_season,
        }
    }
}

/// Flatten a day number, a ledger and a weather state into the persisted
/// record, encoding each enum by its canonical name.
pub fn encode_state(day_num: u32, business: &Business, weather: &Weather) -> (r: SaveRecord)
    ensures
        r.day_num == day_num,
        r.name == business.name,
        r.cash == business.cash,
        r.scooters_working == business.scooters_working,
        r.scooters_broken == business.scooters_broken,
        r.scooter_parts == business.scooter_parts,
        r.num_advertisements == business.num_advertisements,
        r.current@ == weather_name(weather.current),
        r.forecast@ == weather_name(weather.forecast),
        r.temperature@ == temperature_name(weather.temperature),
        r.season@ == season_name(weather.season),
        r.days_of_season == weather.days_of_season,
{
    SaveRecord::new(
        day_num,
        business.name(),
        business.cash(),
        business.working_scooters(),
        business.broken_scooters(),
        business.scooter_parts(),
        business.advertisements(),
        weather.get_current().describe(),
        weather.get_forecast().describe(),
        weather.get_temperature().describe(),
        weather.get_season().describe(),
        weather.get_days_of_season(),
    )
}

/// Rebuild the ledger from a persisted record; every field is restored
/// as it was saved.
pub fn decode_business(record: &SaveRecord) -> (b: Business)
    ensures
        b.name == record.name,
        b.cash == record.cash,
        b.scooters_working == record.scooters_working,
        b.scooters_broken == record.scooters_broken,
        b.scooter_parts == record.scooter_parts,
        b.num_advertisements == record.num_advertisements,
{
    Business::new(record.name.clone()).with_cash(record.cash).with_working_scooters(
        record.scooters_working,
    ).with_broken_scooters(record.scooters_broken).with_scooter_parts(
        record.scooter_parts,
    ).with_num_adverts(record.num_advertisements)
}

/// Rebuild the weather from a persisted record; unrecognized names fall
/// back to each enum's default variant rather than failing.
pub fn decode_weather(record: &SaveRecord) -> (w: Weather)
    ensures
        w.current == weather_of_name(record.current@),
        w.forecast == weather_of_name(record.forecast@),
        w.temperature == temperature_of_name(record.temperature@),
        w.season == season_of_name(record.season@),
        w.days_of_season == record.days_of_season,
{
    Weather::new().with_curent_weather(record.current.as_str()).with_forecast(
        record.forecast.as_str(),
    ).with_season(record.season.as_str()).with_temperature(
        record.temperature.as_str(),
    ).with_days_of_season(record.days_of_season)
}

/// The canonical names decode back to the variants they encode: the
/// enum-to-string mappings of the persisted record are lossless.
pub proof fn lemma_enum_names_round_trip(w: WeatherType, t: Temperature, s: Season)
    ensures
        weather_of_name(weather_name(w)) == w,
        temperature_of_name(temperature_name(t)) == t,
        season_of_name(season_name(s)) == s,
{
    broadcast use vstd::string::group_string_axioms;

    reveal_strlit("sunny");
    reveal_strlit("cloudy");
    reveal_strlit("rainy");
    reveal_strlit("stormy");
    reveal_strlit("snowy");
    reveal_strlit("scorching");
    reveal_strlit("hot");
    reveal_strlit("warm");
    reveal_strlit("cool");
    reveal_strlit("cold");
    reveal_strlit("freezing");
    reveal_strlit("spring");
    reveal_strlit("summer");
    reveal_strlit("fall");
    reveal_strlit("winter");
    assert("sunny"@.len() == 5);
    assert("cloudy"@.len() == 6);
    assert("rainy"@.len() == 5);
    assert("stormy"@.len() == 6);
    assert("snowy"@.len() == 5);
    assert("sunny"@[0] == 's');
    assert("rainy"@[0] == 'r');
    assert("cloudy"@[0] == 'c');
    assert("stormy"@[0] == 's');
    assert("snowy"@[1] == 'n');
    assert("sunny"@[1] == 'u');
    assert("scorching"@.len() == 9);
    assert("hot"@.len() == 3);
    assert("warm"@.len() == 4);
    assert("cool"@.len() == 4);
    assert("cold"@.len() == 4);
    assert("freezing"@.len() == 8);
    assert("warm"@[0] == 'w');
    assert("cool"@[0] == 'c');
    assert("cool"@[2] == 'o');
    assert("cold"@[2] == 'l');
    assert("spring"@.len() == 6);
    assert("summer"@.len() == 6);
    assert("fall"@.len() == 4);
    assert("winter"@.len() == 6);
    assert("spring"@[1] == 'p');
    assert("summer"@[1] == 'u');
    assert("winter"@[0] == 'w');
    assert("spring"@[0] == 's');
    assert("summer"@[0] == 's');
}

/// Round trip for a whole weather state: decoding the names that
/// encoding produced restores every enum field, and the numeric fields
/// are carried verbatim.
pub proof fn lemma_weather_record_round_trip(w: Weather)
    ensures
        weather_of_name(weather_name(w.current)) == w.current,
        weather_of_name(weather_name(w.forecast)) == w.forecast,
        temperature_of_name(temperature_name(w.temperature)) == w.temperature,
        season_of_name(season_name(w.season)) == w.season,
{
    lemma_enum_names_round_trip(w.current, w.temperature, w.season);
    lemma_enum_names_round_trip(w.forecast, w.temperature, w.season);
}

} // verus!
