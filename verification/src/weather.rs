//! Season, weather and temperature: the state machine that advances one
//! in-game day at a time and renders human-readable descriptions.
//!
//! Each enum has a canonical lower-case name used by the persisted record;
//! decoding an unrecognized name falls back to a default variant rather
//! than failing.
use vstd::prelude::*;
use vstd::string::StringExecFns;

use crate::rng::rand_range;
use crate::str_eq;
use crate::DAYS_PER_SEASON;
use crate::FORECAST_ACCURACY_MILLIS;

verus! {

#[derive(PartialEq, Eq, Structural, Debug, Clone, Copy)]
pub enum WeatherType {
    Sunny,
    Cloudy,
    Rainy,
    Stormy,
    Snowy,
}

/// The canonical name each weather category is encoded as.
pub open spec fn weather_name(w: WeatherType) -> Seq<char> {
    match w {
        WeatherType::Sunny => "sunny"@,
        WeatherType::Cloudy => "cloudy"@,
        WeatherType::Rainy => "rainy"@,
        WeatherType::Stormy => "stormy"@,
        WeatherType::Snowy => "snowy"@,
    }
}

/// The weather category a name decodes to; unrecognized names fall back
/// to `Sunny`.
pub open spec fn weather_of_name(s: Seq<char>) -> WeatherType {
    if s == "sunny"@ {
        WeatherType::Sunny
    } else if s == "cloudy"@ {
        WeatherType::Cloudy
    } else if s == "rainy"@ {
        WeatherType::Rainy
    } else if s == "stormy"@ {
        WeatherType::Stormy
    } else if s == "snowy"@ {
        WeatherType::Snowy
    } else {
        WeatherType::Sunny
    }
}

impl WeatherType {
    pub fn describe(&self) -> (r: String)
        ensures
            r@ == weather_name(*self),
    {
        match self {
            WeatherType::Sunny => "sunny".to_owned(),
            WeatherType::Cloudy => "cloudy".to_owned(),
            WeatherType::Rainy => "rainy".to_owned(),
            WeatherType::Stormy => "stormy".to_owned(),
            WeatherType::Snowy => "snowy".to_owned(),
        }
    }

    pub fn from_str(desc: &str) -> (w: WeatherType)
        ensures
            w == weather_of_name(desc@),
    {
        if str_eq(desc, "sunny") {
            WeatherType::Sunny
        } else if str_eq(desc, "cloudy") {
            WeatherType::Cloudy
        } else if str_eq(desc, "rainy") {
            WeatherType::Rainy
        } else if str_eq(desc, "stormy") {
            WeatherType::Stormy
        } else if str_eq(desc, "snowy") {
            WeatherType::Snowy
        } else {
            WeatherType::Sunny
        }
    }
}

#[derive(PartialEq, Eq, Structural, Debug, Copy, Clone, Ord, PartialOrd)]
pub enum Temperature {
    Scorching,
    Hot,
    Warm,
    Cool,
    Cold,
    Freezing,
}

/// The canonical name each temperature band is encoded as.
pub open spec fn temperature_name(t: Temperature) -> Seq<char> {
    match t {
        Temperature::Scorching => "scorching"@,
        Temperature::Hot => "hot"@,
        Temperature::Warm => "warm"@,
        Temperature::Cool => "cool"@,
        Temperature::Cold => "cold"@,
        Temperature::Freezing => "freezing"@,
    }
}

/// The temperature band a name decodes to; unrecognized names fall back
/// to `Warm`.
pub open spec fn temperature_of_name(s: Seq<char>) -> Temperature {
    if s == "scorching"@ {
        Temperature::Scorching
    } else if s == "hot"@ {
        Temperature::Hot
    } else if s == "warm"@ {
        Temperature::Warm
    } else if s == "cool"@ {
        Temperature::Cool
    } else if s == "cold"@ {
        Temperature::Cold
    } else if s == "freezing"@ {
        Temperature::Freezing
    } else {
        Temperature::Warm
    }
}

impl Temperature {
    pub fn describe(&self) -> (r: String)
        ensures
            r@ == temperature_name(*self),
    {
        match self {
            Temperature::Scorching => "scorching".to_owned(),
            Temperature::Hot => "hot".to_owned(),
            Temperature::Warm => "warm".to_owned(),
            Temperature::Cool => "cool".to_owned(),
            Temperature::Cold => "cold".to_owned(),
            Temperature::Freezing => "freezing".to_owned(),
        }
    }

    pub fn from_str(temperature: &str) -> (t: Temperature)
        ensures
            t == temperature_of_name(temperature@),
    {
        if str_eq(temperature, "scorching") {
            Temperature::Scorching
        } else if str_eq(temperature, "hot") {
            Temperature::Hot
        } else if str_eq(temperature, "warm") {
            Temperature::Warm
        } else if str_eq(temperature, "cool") {
            Temperature::Cool
        } else if str_eq(temperature, "cold") {
            Temperature::Cold
        } else if str_eq(temperature, "freezing") {
            Temperature::Freezing
        } else {
            Temperature::Warm
        }
    }
}

pub enum ForecastTime {
    Today,
    Tomorrow,
}

/// The name of the day a description speaks of.
pub open spec fn forecast_time_name(ft: ForecastTime) -> Seq<char> {
    match ft {
        ForecastTime::Today => "today"@,
        ForecastTime::Tomorrow => "tomorrow"@,
    }
}

impl ForecastTime {
    pub fn describe(&self) -> (r: String)
        ensures
            r@ == forecast_time_name(*self),
    {
        match self {
            ForecastTime::Today => "today".to_owned(),
            ForecastTime::Tomorrow => "tomorrow".to_owned(),
        }
    }
}

#[derive(PartialEq, Eq, Structural, Debug, Copy, Clone, Ord, PartialOrd)]
pub enum Season {
    Spring,
    Summer,
    Fall,
    Winter,
}

/// The canonical name each season is encoded as.
pub open spec fn season_name(s: Season) -> Seq<char> {
    match s {
        Season::Spring => "spring"@,
        Season::Summer => "summer"@,
        Season::Fall => "fall"@,
        Season::Winter => "winter"@,
    }
}

/// The season a name decodes to; unrecognized names fall back to `Spring`.
pub open spec fn season_of_name(s: Seq<char>) -> Season {
    if s == "spring"@ {
        Season::Spring
    } else if s == "summer"@ {
        Season::Summer
    } else if s == "fall"@ {
        Season::Fall
    } else if s == "winter"@ {
        Season::Winter
    } else {
        Season::Spring
    }
}

/// The season that follows `s` in the fixed yearly cycle.
pub open spec fn next_season(s: Season) -> Season {
    match s {
        Season::Spring => Season::Summer,
        Season::Summer => Season::Fall,
        Season::Fall => Season::Winter,
        Season::Winter => Season::Spring,
    }
}

/// The three temperature bands a season can produce.
pub open spec fn season_temperatures(s: Season) -> Seq<Temperature> {
    match s {
        Season::Spring => seq![Temperature::Cool, Temperature::Warm, Temperature::Hot],
        Season::Summer => seq![Temperature::Warm, Temperature::Hot, Temperature::Scorching],
        Season::Fall => seq![Temperature::Warm, Temperature::Cool, Temperature::Cold],
        Season::Winter => seq![Temperature::Cool, Temperature::Cold, Temperature::Freezing],
    }
}

/// Whether a season's weather draw can produce the category `w`: snow
/// falls only in winter, rain in every other season.
pub open spec fn weather_possible(s: Season, w: WeatherType) -> bool {
    ||| w == WeatherType::Sunny
    ||| w == WeatherType::Cloudy
    ||| w == WeatherType::Stormy
    ||| (if s == Season::Winter {
        w == WeatherType::Snowy
    } else {
        w == WeatherType::Rainy
    })
}

impl Season {
    pub fn describe(&self) -> (r: String)
        ensures
            r@ == season_name(*self),
    {
        match self {
            Season::Spring => "spring".to_owned(),
            Season::Summer => "summer".to_owned(),
            Season::Fall => "fall".to_owned(),
            Season::Winter => "winter".to_owned(),
        }
    }

    pub fn from_str(season: &str) -> (s: Season)
        ensures
            s == season_of_name(season@),
    {
        if str_eq(season, "spring") {
            Season::Spring
        } else if str_eq(season, "summer") {
            Season::Summer
        } else if str_eq(season, "fall") {
            Season::Fall
        } else if str_eq(season, "winter") {
            Season::Winter
        } else {
            Season::Spring
        }
    }
}

impl Season {
    /// A uniform draw among the season's three temperature bands.
    fn temperature_choice(&self) -> (t: Temperature)
        ensures
            season_temperatures(*self).contains(t),
    {
        let mut vals: Vec<Temperature> = Vec::new();
        match self {
            Season::Spring => {
                vals.push(Temperature::Cool);
                vals.push(Temperature::Warm);
                vals.push(Temperature::Hot);
            },
            Season::Summer => {
                vals.push(Temperature::Warm);
                vals.push(Temperature::Hot);
                vals.push(Temperature::Scorching);
            },
            Season::Fall => {
                vals.push(Temperature::Warm);
                vals.push(Temperature::Cool);
                vals.push(Temperature::Cold);
            },
            Season::Winter => {
                vals.push(Temperature::Cool);
                vals.push(Temperature::Cold);
                vals.push(Temperature::Freezing);
            },
        }
        proof {
            assert(vals@ =~= season_temperatures(*self));
        }
        let idx: usize = rand_range(0, 3) as usize;
        vals[idx]
    }

    /// A weather draw biased toward fair weather; snow replaces rain in
    /// winter.
    fn weather_choice(&self) -> (w: WeatherType)
        ensures
            weather_possible(*self, w),
    {
        let rnd = rand_range(0, 1000);
        if rnd < 300 {
            WeatherType::Sunny
        } else if rnd < 600 {
            WeatherType::Cloudy
        } else if rnd < 800 {
            if *self == Season::Winter {
                WeatherType::Snowy
            } else {
                WeatherType::Rainy
            }
        } else {
            WeatherType::Stormy
        }
    }
}

/// The full sentence `describe` renders for a weather state.
pub open spec fn spec_describe(w: Weather, ft: ForecastTime) -> Seq<char> {
    "It "@ + (match ft {
        ForecastTime::Today => "is"@,
        ForecastTime::Tomorrow => "might be"@,
    }) + " a "@ + temperature_name(w.temperature) + " "@ + weather_name(
        match ft {
            ForecastTime::Today => w.current,
            ForecastTime::Tomorrow => w.forecast,
        },
    ) + " "@ + season_name(w.season) + " day, "@ + forecast_time_name(ft) + "."@
}

#[derive(Clone, Debug, Copy)]
pub struct Weather {
    /// Today's realized weather category.
    pub current: WeatherType,
    /// Tomorrow's predicted weather category.
    pub forecast: WeatherType,
    /// Today's temperature band.
    pub temperature: Temperature,
    /// The season in progress.
    pub season: Season,
    /// Days elapsed in the current season, 1-indexed once play begins.
    pub days_of_season: u8,
}

impl Weather {
    pub fn new() -> (w: Weather)
        ensures
            w.current == WeatherType::Sunny,
            w.forecast == WeatherType::Sunny,
            w.temperature == Temperature::Warm,
            w.season == Season::Spring,
            w.days_of_season == 0,
    {
        Weather {
            current: WeatherType::Sunny,
            forecast: WeatherType::Sunny,
            temperature: Temperature::Warm,
            season: Season::Spring,
            days_of_season: 0,
        }
    }

    pub fn with_curent_weather(self, current: &str) -> (w: Self)
        ensures
            w == (Weather { current: weather_of_name(current@), ..self }),
    {
        Weather { current: WeatherType::from_str(current), ..self }
    }

    pub fn with_forecast(self, forecast: &str) -> (w: Self)
        ensures
            w == (Weather { forecast: weather_of_name(forecast@), ..self }),
    {
        Weather { forecast: WeatherType::from_str(forecast), ..self }
    }

    pub fn with_temperature(self, temperature: &str) -> (w: Self)
        ensures
            w == (Weather { temperature: temperature_of_name(temperature@), ..self }),
    {
        Weather { temperature: Temperature::from_str(temperature), ..self }
    }

    pub fn with_season(self, season: &str) -> (w: Self)
        ensures
            w == (Weather { season: season_of_name(season@), ..self }),
    {
        Weather { season: Season::from_str(season), ..self }
    }

    pub fn with_days_of_season(self, days: u8) -> (w: Self)
        ensures
            w == (Weather { days_of_season: days, ..self }),
    {
        Weather { days_of_season: days, ..self }
    }

    pub fn get_temperature(self) -> (t: Temperature)
        ensures
            t == self.temperature,
    {
        self.temperature
    }

    pub fn get_current(self) -> (w: WeatherType)
        ensures
            w == self.current,
    {
        self.current
    }

    pub fn get_forecast(self) -> (w: WeatherType)
        ensures
            w == self.forecast,
    {
        self.forecast
    }

    pub fn get_season(self) -> (s: Season)
        ensures
            s == self.season,
    {
        self.season
    }

    pub fn get_days_of_season(self) -> (d: u8)
        ensures
            d == self.days_of_season,
    {
        self.days_of_season
    }

    /// Advance the weather by one day: the forecast becomes today's
    /// weather unless the accuracy roll fails (a fresh draw supersedes
    /// it), the temperature is redrawn from the season's bands, a new
    /// forecast is drawn, and the season rolls over after its fixed
    /// number of days.
    pub fn new_day(&mut self)
        requires
            old(self).days_of_season < u8::MAX,
        ensures
            old(self).days_of_season + 1 > DAYS_PER_SEASON ==> final(self).days_of_season == 1
                && final(self).season == next_season(old(self).season),
            old(self).days_of_season + 1 <= DAYS_PER_SEASON ==> final(self).days_of_season == old(
                self,
            ).days_of_season + 1 && final(self).season == old(self).season,
            season_temperatures(old(self).season).contains(final(self).temperature),
            final(self).current == old(self).forecast || weather_possible(
                old(self).season,
                final(self).current,
            ),
            weather_possible(old(self).season, final(self).forecast),
    {
        if rand_range(0, 1000) > FORECAST_ACCURACY_MILLIS {
            // The forecast made yesterday turned out wrong: replace it
            // before it becomes today's weather.
            self.new_forecast();
        }
        self.current = self.forecast;
        self.temperature = self.season.temperature_choice();
        self.new_forecast();
        self.days_of_season = self.days_of_season + 1;
        if self.days_of_season > DAYS_PER_SEASON {
            self.days_of_season = 1;
            self.season = match self.season {
                Season::Spring => Season::Summer,
                Season::Summer => Season::Fall,
                Season::Fall => Season::Winter,
                Season::Winter => Season::Spring,
            };
        }
    }

    /// Render a sentence describing today's weather or tomorrow's
    /// forecast; no state changes.
    pub fn describe(&self, forecast_time: ForecastTime) -> (r: String)
        ensures
            r@ == spec_describe(*self, forecast_time),
    {
        let mut s = String::new();
        s.append("It ");
        match forecast_time {
            ForecastTime::Today => s.append("is"),
            ForecastTime::Tomorrow => s.append("might be"),
        }
        s.append(" a ");
        let temperature_desc = self.temperature.describe();
        s.append(temperature_desc.as_str());
        s.append(" ");
        let weather_desc = match forecast_time {
            ForecastTime::Today => self.current.describe(),
            ForecastTime::Tomorrow => self.forecast.describe(),
        };
        s.append(weather_desc.as_str());
        s.append(" ");
        let season_desc = self.season.describe();
        s.append(season_desc.as_str());
        s.append(" day, ");
        let time_desc = forecast_time.describe();
        s.append(time_desc.as_str());
        s.append(".");
        s
    }

    fn new_forecast(&mut self)
        ensures
            weather_possible(old(self).season, final(self).forecast),
            final(self).current == old(self).current,
            final(self).temperature == old(self).temperature,
            final(self).season == old(self).season,
            final(self).days_of_season == old(self).days_of_season,
    {
        self.forecast = self.season.weather_choice()
    }
}

} // verus!
