//! A turn-based scooter-rental business simulation.
//!
//! The engine has two parts: a business ledger (cash, fleet counts, spare
//! parts, advertisements) and a weather system (season, current weather,
//! forecast, temperature) whose daily state drives rental demand.
//!
//! Money is held in cents (hundredths of a currency unit) as `i64`.
//! Demand modifiers are held in thousandths (a modifier of `1000` means a
//! factor of one); the lookup table of weather factors is in hundredths.
use vstd::prelude::*;

pub mod business;
pub mod cli;
pub mod record;
mod rng;
pub mod weather;

verus! {

/// Probability, in thousandths, that a rented scooter breaks during the day.
pub const CHANCE_SCOOTER_BREAKS_MILLIS: i64 = 50;

/// Days each season lasts before the next one begins.
pub const DAYS_PER_SEASON: u8 = 6;

/// Probability, in thousandths, that yesterday's forecast holds today.
pub const FORECAST_ACCURACY_MILLIS: i64 = 700;

/// Rental price, in cents, at which demand is neither boosted nor suppressed.
pub const OPTIMAL_RENTAL_PRICE_CENTS: i64 = 1500;

/// Demand added per advertisement, in thousandths of the fleet.
pub const ADVERT_EFFECT_MILLIS: i64 = 100;

/// Cash a new business starts with, in cents.
pub const STARTING_CASH_CENTS: i64 = 10000;

/// Working scooters a new business starts with.
pub const STARTING_SCOOTERS: u32 = 10;

/// Whether prompts remind the player to press return.
pub const USE_ANY_KEY_LABEL: bool = true;

/// Character-for-character comparison of two string slices.
pub fn str_eq(a: &str, b: &str) -> (r: bool)
    ensures
        r == (a@ == b@),
{
    let a_owned: String = a.to_owned();
    let b_owned: String = b.to_owned();
    a_owned == b_owned
}

} // verus!
