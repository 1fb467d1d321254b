//! Engine configuration.
//!
//! An immutable record of the penalty and tax parameters, built once and
//! passed by reference into every calculation. The documented defaults
//! are a 100-per-day penalty rate capped at 1000 with 5% interest, one
//! tax threshold at 10000 with rates of 10% and 20%, and a 2% surcharge
//! above a tax of 5000.

use vstd::prelude::*;

use crate::decimal::Decimal;

verus! {

/// The penalty and tax parameters the engine calculates with.
#[derive(Debug, Clone)]
pub struct EngineConfig {
    pub default_rate_per_day: Decimal,
    pub default_cap: Decimal,
    pub default_interest_rate: Decimal,
    pub default_thresholds: Vec<Decimal>,
    pub default_rates: Vec<Decimal>,
    pub default_surcharge_threshold: Decimal,
    pub default_surcharge_rate: Decimal,
}

impl EngineConfig {
    /// Every parameter lies within the engine's ranges: amounts within the
    /// amount range, rates within the rate range, and bracket tables of
    /// bounded length.
    pub open spec fn wf(self) -> bool {
        self.default_rate_per_day.amount_in_range() && self.default_cap.amount_in_range()
            && self.default_interest_rate.rate_in_range() && self.default_thresholds@.len() <= 1000
            && (forall|i: int|
            0 <= i < self.default_thresholds@.len() ==> (
            #[trigger] self.default_thresholds@[i]).amount_in_range())
            && self.default_rates@.len() <= 1001 && (forall|i: int|
            0 <= i < self.default_rates@.len() ==> (
            #[trigger] self.default_rates@[i]).rate_in_range())
            && self.default_surcharge_threshold.amount_in_range()
            && self.default_surcharge_rate.rate_in_range()
    }

    /// The documented default configuration.
    pub fn defaults() -> (r: EngineConfig)
        ensures
            r.wf(),
            r.default_rate_per_day.units == 1_000_000,
            r.default_cap.units == 10_000_000,
            r.default_interest_rate.units == 500,
            r.default_thresholds@ == seq![Decimal { units: 100_000_000 as i128 }],
            r.default_rates@ == seq![
                Decimal { units: 1000 as i128 },
                Decimal { units: 2000 as i128 },
            ],
            r.default_surcharge_threshold.units == 50_000_000,
            r.default_surcharge_rate.units == 200,
    {
        let mut thresholds: Vec<Decimal> = Vec::new();
        thresholds.push(Decimal::from_units(100_000_000));
        let mut rates: Vec<Decimal> = Vec::new();
        rates.push(Decimal::from_units(1000));
        rates.push(Decimal::from_units(2000));
        proof {
            assert(thresholds@ =~= seq![Decimal { units: 100_000_000 as i128 }]);
            assert(rates@ =~= seq![
                Decimal { units: 1000 as i128 },
                Decimal { units: 2000 as i128 },
            ]);
        }
        EngineConfig {
            default_rate_per_day: Decimal::from_units(1_000_000),
            default_cap: Decimal::from_units(10_000_000),
            default_interest_rate: Decimal::from_units(500),
            default_thresholds: thresholds,
            default_rates: rates,
            default_surcharge_threshold: Decimal::from_units(50_000_000),
            default_surcharge_rate: Decimal::from_units(200),
        }
    }
}

} // verus!
