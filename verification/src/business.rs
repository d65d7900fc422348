//! The business ledger: cash, fleet counts, spare parts and advertising,
//! with validated mutating operations and the stochastic daily rental.
//!
//! Every operation validates first and mutates only on success; on a
//! rejected input the ledger is returned unchanged. Money is in cents,
//! demand modifiers in thousandths.
use vstd::prelude::*;

use vstd::arithmetic::div_mod::lemma_div_pos_is_pos;
use vstd::arithmetic::mul::lemma_mul_inequality;
use vstd::arithmetic::mul::lemma_mul_nonnegative;

use crate::rng::rand_range;
use crate::weather::Temperature;
use crate::weather::WeatherType;
use crate::ADVERT_EFFECT_MILLIS;
use crate::CHANCE_SCOOTER_BREAKS_MILLIS;
use crate::OPTIMAL_RENTAL_PRICE_CENTS;
use crate::STARTING_CASH_CENTS;
use crate::STARTING_SCOOTERS;

verus! {

#[derive(PartialEq, Eq, Structural, Debug)]
pub enum ManagementError {
    InsufficientWorkingScooters,
    InsufficientBrokenScooters,
    InsufficientParts,
    NotEnoughMoney,
    InvalidParameter,
}

/// Clamp `v` into the closed interval `[lo, hi]`.
pub open spec fn clamp_int(v: int, lo: int, hi: int) -> int {
    if v < lo {
        lo
    } else if v > hi {
        hi
    } else {
        v
    }
}

/// The fixed demand factor, in hundredths, for a temperature and weather
/// pair. Snowy weather has no entry for any temperature: the table is
/// deliberately partial, and the weather generator never produces such a
/// pairing on a rental day.
pub open spec fn table_factor_spec(t: Temperature, w: WeatherType) -> Option<u32> {
    match (t, w) {
        (Temperature::Scorching, WeatherType::Cloudy) => Some(25u32),
        (Temperature::Scorching, WeatherType::Sunny) => Some(5u32),
        (Temperature::Scorching, WeatherType::Rainy) => Some(10u32),
        (Temperature::Scorching, WeatherType::Stormy) => Some(0u32),
        (Temperature::Hot, WeatherType::Cloudy) => Some(60u32),
        (Temperature::Hot, WeatherType::Sunny) => Some(50u32),
        (Temperature::Hot, WeatherType::Rainy) => Some(10u32),
        (Temperature::Hot, WeatherType::Stormy) => Some(5u32),
        (Temperature::Warm, WeatherType::Cloudy) => Some(90u32),
        (Temperature::Warm, WeatherType::Sunny) => Some(100u32),
        (Temperature::Warm, WeatherType::Rainy) => Some(20u32),
        (Temperature::Warm, WeatherType::Stormy) => Some(5u32),
        (Temperature::Cool, WeatherType::Cloudy) => Some(90u32),
        (Temperature::Cool, WeatherType::Sunny) => Some(100u32),
        (Temperature::Cool, WeatherType::Rainy) => Some(20u32),
        (Temperature::Cool, WeatherType::Stormy) => Some(5u32),
        (Temperature::Cold, WeatherType::Cloudy) => Some(50u32),
        (Temperature::Cold, WeatherType::Sunny) => Some(60u32),
        (Temperature::Cold, WeatherType::Rainy) => Some(10u32),
        (Temperature::Cold, WeatherType::Stormy) => Some(5u32),
        (Temperature::Freezing, WeatherType::Cloudy) => Some(10u32),
        (Temperature::Freezing, WeatherType::Sunny) => Some(25u32),
        (Temperature::Freezing, WeatherType::Rainy) => Some(5u32),
        (Temperature::Freezing, WeatherType::Stormy) => Some(0u32),
        (_, _) => None,
    }
}

/// Whether the demand table defines a factor for the pair.
pub open spec fn pair_defined(t: Temperature, w: WeatherType) -> bool {
    table_factor_spec(t, w) is Some
}

/// Demand added by advertising, in thousandths: each advertisement adds a
/// fixed share, saturating at the working fleet size.
pub open spec fn spec_advert_effect(ads: u32, working: u32) -> int {
    ADVERT_EFFECT_MILLIS * (if ads < working {
        ads as int
    } else {
        working as int
    })
}

/// Demand shift from the price's distance to the optimal price, in
/// thousandths, capped at plus or minus one.
pub open spec fn spec_cost_effect(cost_per: int) -> int {
    clamp_int(OPTIMAL_RENTAL_PRICE_CENTS - cost_per, -1000, 1000)
}

/// The combined demand modifier, in thousandths: advertising and pricing
/// raise or lower a base of one, the table factor for the weather pair
/// scales it, uniform noise shifts it, and the result is clamped into
/// `[0, 1]`.
pub open spec fn spec_combined_modifier(
    ads: u32,
    working: u32,
    cost_per: int,
    t: Temperature,
    w: WeatherType,
    noise_millis: int,
) -> int {
    let base = 1000 + spec_advert_effect(ads, working) + spec_cost_effect(cost_per);
    let factor = match table_factor_spec(t, w) {
        Some(f) => f as int,
        None => 0,
    };
    clamp_int(base * factor / 100 + noise_millis, 0, 1000)
}

/// How many scooters get rented: the working fleet scaled by the combined
/// modifier and by the ratio of the optimal price to the asked price,
/// rounded down and clamped to the fleet size. A price of zero makes the
/// ratio unbounded, so any positive demand rents the whole fleet.
pub open spec fn spec_rented_count(working: u32, combined_millis: int, cost_per: int) -> int {
    if cost_per == 0 {
        if combined_millis > 0 {
            working as int
        } else {
            0
        }
    } else {
        let raw = working as int * combined_millis * OPTIMAL_RENTAL_PRICE_CENTS / 1000 / cost_per;
        if raw < working as int {
            raw
        } else {
            working as int
        }
    }
}

/// The combined modifier is clamped into `[0, 1]` for every advertising
/// level, fleet size, price, weather pair and noise value.
pub proof fn lemma_combined_modifier_clamped(
    ads: u32,
    working: u32,
    cost_per: int,
    t: Temperature,
    w: WeatherType,
    noise_millis: int,
)
    ensures
        0 <= spec_combined_modifier(ads, working, cost_per, t, w, noise_millis) <= 1000,
{
}

/// For a non-negative price and demand, the rented count lies between
/// zero and the working fleet size.
pub proof fn lemma_rented_count_in_range(working: u32, combined_millis: int, cost_per: int)
    requires
        0 <= combined_millis,
        0 <= cost_per,
    ensures
        0 <= spec_rented_count(working, combined_millis, cost_per) <= working,
{
    if cost_per != 0 {
        lemma_mul_nonnegative(working as int, combined_millis);
        lemma_mul_nonnegative(working as int * combined_millis, OPTIMAL_RENTAL_PRICE_CENTS as int);
        lemma_div_pos_is_pos(working as int * combined_millis * OPTIMAL_RENTAL_PRICE_CENTS, 1000);
        lemma_div_pos_is_pos(
            working as int * combined_millis * OPTIMAL_RENTAL_PRICE_CENTS / 1000,
            cost_per,
        );
    }
}

/// The exec lookup for the demand table; `None` marks the pairs the table
/// leaves undefined.
pub fn table_factor(temperature: Temperature, weather: WeatherType) -> (r: Option<u32>)
    ensures
        r == table_factor_spec(temperature, weather),
{
    match (temperature, weather) {
        (Temperature::Scorching, WeatherType::Cloudy) => Some(25),
        (Temperature::Scorching, WeatherType::Sunny) => Some(5),
        (Temperature::Scorching, WeatherType::Rainy) => Some(10),
        (Temperature::Scorching, WeatherType::Stormy) => Some(0),
        (Temperature::Hot, WeatherType::Cloudy) => Some(60),
        (Temperature::Hot, WeatherType::Sunny) => Some(50),
        (Temperature::Hot, WeatherType::Rainy) => Some(10),
        (Temperature::Hot, WeatherType::Stormy) => Some(5),
        (Temperature::Warm, WeatherType::Cloudy) => Some(90),
        (Temperature::Warm, WeatherType::Sunny) => Some(100),
        (Temperature::Warm, WeatherType::Rainy) => Some(20),
        (Temperature::Warm, WeatherType::Stormy) => Some(5),
        (Temperature::Cool, WeatherType::Cloudy) => Some(90),
        (Temperature::Cool, WeatherType::Sunny) => Some(100),
        (Temperature::Cool, WeatherType::Rainy) => Some(20),
        (Temperature::Cool, WeatherType::Stormy) => Some(5),
        (Temperature::Cold, WeatherType::Cloudy) => Some(50),
        (Temperature::Cold, WeatherType::Sunny) => Some(60),
        (Temperature::Cold, WeatherType::Rainy) => Some(10),
        (Temperature::Cold, WeatherType::Stormy) => Some(5),
        (Temperature::Freezing, WeatherType::Cloudy) => Some(10),
        (Temperature::Freezing, WeatherType::Sunny) => Some(25),
        (Temperature::Freezing, WeatherType::Rainy) => Some(5),
        (Temperature::Freezing, WeatherType::Stormy) => Some(0),
        (_, _) => None,
    }
}

/// How many scooters get rented, computed exactly as `spec_rented_count`
/// says.
fn rented_count(working: u32, combined_millis: u32, cost_per: i64) -> (r: u32)
    requires
        combined_millis <= 1000,
        0 <= cost_per,
    ensures
        r == spec_rented_count(working, combined_millis as int, cost_per as int),
        r <= working,
{
    if cost_per == 0 {
        if combined_millis > 0 {
            working
        } else {
            0
        }
    } else {
        let w64 = working as u64;
        let c64 = combined_millis as u64;
        proof {
            assert(w64 * c64 <= 0xffff_ffffu64 * 1000) by (nonlinear_arith)
                requires
                    w64 <= 0xffff_ffffu64,
                    c64 <= 1000,
            ;
            assert((w64 * c64) * 1500 <= (0xffff_ffffu64 * 1000) * 1500) by (nonlinear_arith)
                requires
                    w64 * c64 <= 0xffff_ffffu64 * 1000,
            ;
            lemma_mul_nonnegative(w64 as int, c64 as int);
            lemma_mul_nonnegative(w64 as int * c64 as int, 1500);
            lemma_div_pos_is_pos(w64 as int * c64 as int * 1500, 1000);
        }
        let scaled: u64 = w64 * c64 * (OPTIMAL_RENTAL_PRICE_CENTS as u64) / 1000;
        let rented64: u64 = scaled / (cost_per as u64);
        if rented64 < w64 {
            rented64 as u32
        } else {
            working
        }
    }
}

/// A single business's books: the fleet, the parts shelf, the cash box
/// and the advertisements bought for tomorrow.
#[derive(Debug, Clone)]
pub struct Business {
    /// The business's name, immutable after creation.
    pub name: String,
    /// Cash on hand, in cents.
    pub cash: i64,
    /// Scooters ready to rent.
    pub scooters_working: u32,
    /// Scooters waiting for repair.
    pub scooters_broken: u32,
    /// Spare parts, one consumed per repair.
    pub scooter_parts: u32,
    /// Advertisements active for the next rental day.
    pub num_advertisements: u32,
}

impl Business {
    pub fn name(&self) -> (n: String)
        ensures
            n == self.name,
    {
        self.name.clone()
    }

    pub fn cash(&self) -> (c: i64)
        ensures
            c == self.cash,
    {
        self.cash
    }

    pub fn working_scooters(&self) -> (n: u32)
        ensures
            n == self.scooters_working,
    {
        self.scooters_working
    }

    pub fn broken_scooters(&self) -> (n: u32)
        ensures
            n == self.scooters_broken,
    {
        self.scooters_broken
    }

    pub fn scooter_parts(&self) -> (n: u32)
        ensures
            n == self.scooter_parts,
    {
        self.scooter_parts
    }

    pub fn advertisements(&self) -> (n: u32)
        ensures
            n == self.num_advertisements,
    {
        self.num_advertisements
    }

    pub fn new(name: String) -> (b: Self)
        ensures
            b.name == name,
            b.cash == STARTING_CASH_CENTS,
            b.scooters_working == STARTING_SCOOTERS,
            b.scooters_broken == 0,
            b.scooter_parts == 0,
            b.num_advertisements == 0,
    {
        Self {
            name,
            cash: STARTING_CASH_CENTS,
            scooters_working: STARTING_SCOOTERS,
            scooters_broken: 0,
            scooter_parts: 0,
            num_advertisements: 0,
        }
    }

    pub fn with_cash(self, cash: i64) -> (b: Self)
        ensures
            b == (Business { cash, ..self }),
    {
        Business { cash, ..self }
    }

    pub fn with_working_scooters(self, num: u32) -> (b: Self)
        ensures
            b == (Business { scooters_working: num, ..self }),
    {
        Business { scooters_working: num, ..self }
    }

    pub fn with_broken_scooters(self, num: u32) -> (b: Self)
        ensures
            b == (Business { scooters_broken: num, ..self }),
    {
        Business { scooters_broken: num, ..self }
    }

    pub fn with_scooter_parts(self, num: u32) -> (b: Self)
        ensures
            b == (Business { scooter_parts: num, ..self }),
    {
        Business { scooter_parts: num, ..self }
    }

    pub fn with_num_adverts(self, num: u32) -> (b: Self)
        ensures
            b == (Business { num_advertisements: num, ..self }),
    {
        Business { num_advertisements: num, ..self }
    }

    /// Buy `num` scooters at `cost_per` cents each: a negative price is
    /// rejected, a total above the cash on hand is rejected, and on a
    /// rejection the ledger is unchanged.
    pub fn buy_scooters(&mut self, num: u32, cost_per: i64) -> (r: Result<(), ManagementError>)
        requires
            num * cost_per <= i64::MAX,
            (0 <= cost_per && num * cost_per <= old(self).cash) ==> old(self).scooters_working
                + num <= u32::MAX,
        ensures
            cost_per < 0 ==> r == Err::<(), ManagementError>(ManagementError::InvalidParameter),
            (0 <= cost_per && num * cost_per > old(self).cash) ==> r == Err::<(), ManagementError>(ManagementError::NotEnoughMoney),
            r is Err ==> *final(self) == *old(self),
            (0 <= cost_per && num * cost_per <= old(self).cash) ==> r is Ok && *final(self) == (
            Business {
                scooters_working: (old(self).scooters_working + num) as u32,
                cash: (old(self).cash - num * cost_per) as i64,
                ..*old(self)
            }),
    {
        if cost_per < 0 {
            return Err(ManagementError::InvalidParameter);
        }
        proof {
            lemma_mul_nonnegative(num as int, cost_per as int);
        }
        let cost = (num as i64) * cost_per;
        if cost > self.cash {
            return Err(ManagementError::NotEnoughMoney);
        }
        self.scooters_working = self.scooters_working + num;
        self.cash = self.cash - cost;
        Ok(())
    }

    /// Sell `num` working scooters at `cost_per` cents each: a negative
    /// price is rejected, selling more than the working fleet is
    /// rejected, and on a rejection the ledger is unchanged.
    pub fn sell_working_scooters(&mut self, num: u32, cost_per: i64) -> (r: Result<
        (),
        ManagementError,
    >)
        requires
            num * cost_per <= i64::MAX,
            old(self).cash + num * cost_per <= i64::MAX,
        ensures
            cost_per < 0 ==> r == Err::<(), ManagementError>(ManagementError::InvalidParameter),
            (0 <= cost_per && num > old(self).scooters_working) ==> r == Err::<(), ManagementError>(ManagementError::InsufficientWorkingScooters),
            r is Err ==> *final(self) == *old(self),
            (0 <= cost_per && num <= old(self).scooters_working) ==> r is Ok && *final(self) == (
            Business {
                scooters_working: (old(self).scooters_working - num) as u32,
                cash: (old(self).cash + num * cost_per) as i64,
                ..*old(self)
            }),
    {
        if cost_per < 0 {
            return Err(ManagementError::InvalidParameter);
        }
        if num > self.scooters_working {
            return Err(ManagementError::InsufficientWorkingScooters);
        }
        proof {
            lemma_mul_nonnegative(num as int, cost_per as int);
        }
        let cost = (num as i64) * cost_per;
        self.scooters_working = self.scooters_working - num;
        self.cash = self.cash + cost;
        Ok(())
    }

    /// Repair `num` broken scooters, consuming one part each: rejected
    /// when parts or broken scooters run short, and the total fleet size
    /// never changes.
    pub fn repair_scooters(&mut self, num: u32) -> (r: Result<(), ManagementError>)
        requires
            (num <= old(self).scooter_parts && num <= old(self).scooters_broken) ==> old(
                self,
            ).scooters_working + num <= u32::MAX,
        ensures
            num > old(self).scooter_parts ==> r == Err::<(), ManagementError>(
                ManagementError::InsufficientParts,
            ),
            (num <= old(self).scooter_parts && num > old(self).scooters_broken) ==> r == Err::<(), ManagementError>(ManagementError::InsufficientBrokenScooters),
            r is Err ==> *final(self) == *old(self),
            (num <= old(self).scooter_parts && num <= old(self).scooters_broken) ==> r is Ok
                && *final(self) == (Business {
                scooters_working: (old(self).scooters_working + num) as u32,
                scooters_broken: (old(self).scooters_broken - num) as u32,
                scooter_parts: (old(self).scooter_parts - num) as u32,
                ..*old(self)
            }),
            final(self).scooters_working + final(self).scooters_broken == old(
                self,
            ).scooters_working + old(self).scooters_broken,
    {
        if num > self.scooter_parts {
            return Err(ManagementError::InsufficientParts);
        }
        if num > self.scooters_broken {
            return Err(ManagementError::InsufficientBrokenScooters);
        }
        self.scooters_broken = self.scooters_broken - num;
        self.scooters_working = self.scooters_working + num;
        self.scooter_parts = self.scooter_parts - num;
        Ok(())
    }

    /// Buy `num` scooter parts at `cost_per` cents each, with the same
    /// validation as buying scooters.
    pub fn buy_scooter_parts(&mut self, num: u32, cost_per: i64) -> (r: Result<
        (),
        ManagementError,
    >)
        requires
            num * cost_per <= i64::MAX,
            (0 <= cost_per && num * cost_per <= old(self).cash) ==> old(self).scooter_parts + num
                <= u32::MAX,
        ensures
            cost_per < 0 ==> r == Err::<(), ManagementError>(ManagementError::InvalidParameter),
            (0 <= cost_per && num * cost_per > old(self).cash) ==> r == Err::<(), ManagementError>(ManagementError::NotEnoughMoney),
            r is Err ==> *final(self) == *old(self),
            (0 <= cost_per && num * cost_per <= old(self).cash) ==> r is Ok && *final(self) == (
            Business {
                scooter_parts: (old(self).scooter_parts + num) as u32,
                cash: (old(self).cash - num * cost_per) as i64,
                ..*old(self)
            }),
    {
        if cost_per < 0 {
            return Err(ManagementError::InvalidParameter);
        }
        proof {
            lemma_mul_nonnegative(num as int, cost_per as int);
        }
        let cost = (num as i64) * cost_per;
        if cost > self.cash {
            return Err(ManagementError::NotEnoughMoney);
        }
        self.cash = self.cash - cost;
        self.scooter_parts = self.scooter_parts + num;
        Ok(())
    }

    /// Start a new day: the advertisements bought yesterday expire, and
    /// nothing else changes.
    pub fn new_day(&mut self)
        ensures
            *final(self) == (Business { num_advertisements: 0, ..*old(self) }),
    {
        self.num_advertisements = 0;
    }

    /// Buy advertisements for tomorrow at `cost` cents each. Unlike the
    /// other purchases this sets the advertisement count rather than
    /// adding to it, and a negative price is not rejected.
    pub fn buy_advertisements(&mut self, num: u32, cost: i64) -> (r: Result<(), ManagementError>)
        requires
            i64::MIN <= num * cost <= i64::MAX,
            num * cost <= old(self).cash ==> i64::MIN <= old(self).cash - num * cost <= i64::MAX,
        ensures
            num * cost > old(self).cash ==> r == Err::<(), ManagementError>(
                ManagementError::NotEnoughMoney,
            ) && *final(self) == *old(self),
            num * cost <= old(self).cash ==> r is Ok && *final(self) == (Business {
                num_advertisements: num,
                cash: (old(self).cash - num * cost) as i64,
                ..*old(self)
            }),
    {
        let total = (num as i64) * cost;
        if total > self.cash {
            return Err(ManagementError::NotEnoughMoney);
        }
        self.num_advertisements = num;
        self.cash = self.cash - total;
        Ok(())
    }

    /// The combined demand modifier for a given noise value, exactly as
    /// `spec_combined_modifier` says; the caller supplies the noise so
    /// the computation is checked for every value in the noise range.
    pub fn combined_modifier_with_noise(
        &self,
        temperature: Temperature,
        current_weather: WeatherType,
        cost_per: i64,
        noise_millis: i64,
    ) -> (r: u32)
        requires
            pair_defined(temperature, current_weather),
            0 <= cost_per,
            -100 <= noise_millis < 100,
        ensures
            r == spec_combined_modifier(
                self.num_advertisements,
                self.scooters_working,
                cost_per as int,
                temperature,
                current_weather,
                noise_millis as int,
            ),
            r <= 1000,
    {
        let saturated: u32 = if self.num_advertisements < self.scooters_working {
            self.num_advertisements
        } else {
            self.scooters_working
        };
        let advert_effect: i64 = ADVERT_EFFECT_MILLIS * (saturated as i64);
        let diff: i64 = OPTIMAL_RENTAL_PRICE_CENTS - cost_per;
        let cost_effect: i64 = if diff < -1000 {
            -1000
        } else if diff > 1000 {
            1000
        } else {
            diff
        };
        let base: i64 = 1000 + advert_effect + cost_effect;
        let factor: u32 = match table_factor(temperature, current_weather) {
            Some(f) => f,
            None => 0,
        };
        proof {
            assert(factor <= 100);
            assert((base as u64) * (factor as u64) <= 429496731500u64 * 100) by (nonlinear_arith)
                requires
                    base as u64 <= 429496731500u64,
                    factor as u64 <= 100,
            ;
            lemma_div_pos_is_pos(base as int * factor as int, 100);
        }
        let scaled: u64 = (base as u64) * (factor as u64) / 100;
        let val: i64 = (scaled as i64) + noise_millis;
        let clamped: i64 = if val < 0 {
            0
        } else if val > 1000 {
            1000
        } else {
            val
        };
        clamped as u32
    }

    /// The combined demand modifier with a freshly drawn noise value.
    fn combined_modifier(
        &self,
        temperature: Temperature,
        current_weather: WeatherType,
        cost_per: i64,
    ) -> (r: u32)
        requires
            pair_defined(temperature, current_weather),
            0 <= cost_per,
        ensures
            exists|noise: int|
                -100 <= noise < 100 && r == #[trigger] spec_combined_modifier(
                    self.num_advertisements,
                    self.scooters_working,
                    cost_per as int,
                    temperature,
                    current_weather,
                    noise,
                ),
            r <= 1000,
    {
        let noise_millis = rand_range(-100, 100);
        let r = self.combined_modifier_with_noise(
            temperature,
            current_weather,
            cost_per,
            noise_millis,
        );
        proof {
            assert(-100 <= (noise_millis as int) < 100);
            assert(r == spec_combined_modifier(
                self.num_advertisements,
                self.scooters_working,
                cost_per as int,
                temperature,
                current_weather,
                noise_millis as int,
            ));
        }
        r
    }

    /// Run one day of rentals at `cost_per` cents per scooter. A negative
    /// price is rejected with the ledger unchanged. Otherwise demand is
    /// the combined modifier (with a fresh noise draw) scaled by the
    /// price ratio, the profit of the rented scooters is added to the
    /// cash box, each rented scooter breaks independently with a fixed
    /// chance, and the receipt reports the profit and the breakage.
    pub fn rent_scooters(
        &mut self,
        cost_per: i64,
        temperature: Temperature,
        weather: WeatherType,
    ) -> (r: Result<Receipt, ManagementError>)
        requires
            0 <= cost_per ==> pair_defined(temperature, weather),
            old(self).scooters_working * cost_per <= i64::MAX,
            old(self).cash + old(self).scooters_working * cost_per <= i64::MAX,
            old(self).scooters_working + old(self).scooters_broken <= u32::MAX,
        ensures
            cost_per < 0 ==> r == Err::<Receipt, ManagementError>(ManagementError::InvalidParameter)
                && *final(self) == *old(self),
            0 <= cost_per ==> r is Ok,
            r matches Ok(receipt) ==> {
                &&& exists|noise: int|
                    {
                        let rented = spec_rented_count(
                            old(self).scooters_working,
                            #[trigger] spec_combined_modifier(
                                old(self).num_advertisements,
                                old(self).scooters_working,
                                cost_per as int,
                                temperature,
                                weather,
                                noise,
                            ),
                            cost_per as int,
                        );
                        -100 <= noise < 100 && receipt.profit == rented * cost_per
                            && receipt.broken_scooters <= rented
                    }
                &&& 0 <= receipt.profit
                &&& receipt.broken_scooters <= old(self).scooters_working
                &&& final(self).cash == old(self).cash + receipt.profit
                &&& final(self).scooters_working == old(self).scooters_working
                    - receipt.broken_scooters
                &&& final(self).scooters_broken == old(self).scooters_broken
                    + receipt.broken_scooters
                &&& final(self).scooter_parts == old(self).scooter_parts
                &&& final(self).num_advertisements == old(self).num_advertisements
                &&& final(self).name == old(self).name
            },
    {
        let num = self.scooters_working;
        if cost_per < 0 {
            return Err(ManagementError::InvalidParameter);
        }
        let combined = self.combined_modifier(temperature, weather, cost_per);
        let ghost noise = choose|noise: int|
            -100 <= noise < 100 && combined == spec_combined_modifier(
                self.num_advertisements,
                self.scooters_working,
                cost_per as int,
                temperature,
                weather,
                noise,
            );
        let rented: u32 = rented_count(num, combined, cost_per);
        proof {
            lemma_mul_nonnegative(rented as int, cost_per as int);
            lemma_mul_inequality(rented as int, num as int, cost_per as int);
        }
        let profit: i64 = (rented as i64) * cost_per;
        self.cash = self.cash + profit;
        let mut broken_scooters: u32 = 0;
        let mut i: u32 = 0;
        while i < rented
            invariant
                broken_scooters <= i <= rented,
            decreases rented - i,
        {
            if rand_range(0, 1000) < CHANCE_SCOOTER_BREAKS_MILLIS {
                broken_scooters = broken_scooters + 1;
            }
            i = i + 1;
        }
        self.scooters_working = self.scooters_working - broken_scooters;
        self.scooters_broken = self.scooters_broken + broken_scooters;
        Ok(Receipt::new(profit, broken_scooters))
    }
}

/// What one rental day yielded: the profit earned and how many scooters
/// broke.
#[derive(Debug)]
pub struct Receipt {
    /// Profit earned over the day, in cents.
    pub profit: i64,
    /// Scooters that broke during their rental.
    pub broken_scooters: u32,
}

impl Receipt {
    pub(crate) fn new(profit: i64, broken_scooters: u32) -> (r: Self)
        ensures
            r.profit == profit,
            r.broken_scooters == broken_scooters,
    {
        Self { profit, broken_scooters }
    }

    pub fn profit(&self) -> (p: i64)
        ensures
            p == self.profit,
    {
        self.profit
    }

    pub fn broken_scooters(&self) -> (b: u32)
        ensures
            b == self.broken_scooters,
    {
        self.broken_scooters
    }
}

} // verus!
