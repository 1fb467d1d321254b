//! The calculation engine.
//!
//! Each tool method takes its parameters as the caller-supplied text,
//! parses them through the typed parsers, runs the calculator against the
//! injected configuration, and either returns the structured response or
//! the transport-level error text: the parse error labeled with the
//! parameter name, or the collected validation errors labeled with their
//! category.

use vstd::prelude::*;

use crate::config::EngineConfig;
use crate::decimal::Decimal;
use crate::housing::CheckHousingGrantResponse;
use crate::housing::check_housing_grant_internal;
use crate::housing::spec_housing_eligible;
use crate::housing::spec_housing_errors;
use crate::housing::spec_housing_explanation;
use crate::housing::spec_housing_reqs;
use crate::parse::parse_bool_from_string;
use crate::parse::parse_decimal_from_string;
use crate::parse::parse_i32_from_string;
use crate::parse::spec_parse_bool;
use crate::parse::spec_parse_i32;
use crate::parse::spec_parse_number;
use crate::penalty::CalcPenaltyResponse;
use crate::penalty::calc_penalty_internal;
use crate::penalty::spec_penalty_errors;
use crate::penalty::spec_penalty_explanation;
use crate::penalty::spec_penalty_final;
use crate::penalty::spec_penalty_warnings;
use crate::tax::CalcTaxResponse;
use crate::tax::calc_tax_internal;
use crate::tax::spec_tax_errors;
use crate::tax::spec_tax_explanation;
use crate::tax::spec_tax_final;
use crate::tax::spec_tax_warnings;
use crate::tax::spec_units_of;
use crate::text::concat2;
use crate::text::push_chars_of;
use crate::text::push_joined;
use crate::text::spec_join_comma;
use crate::text::string_of;
use crate::voting::CheckVotingResponse;
use crate::voting::check_voting_internal;
use crate::voting::spec_voting_errors;
use crate::voting::spec_voting_explanation;
use crate::voting::spec_voting_passes;
use crate::voting::spec_voting_warnings;
use crate::waterfall::DistributeWaterfallResponse;
use crate::waterfall::distribute_waterfall_internal;
use crate::waterfall::spec_equity_payment;
use crate::waterfall::spec_junior_payment;
use crate::waterfall::spec_senior_payment;
use crate::waterfall::spec_waterfall_errors;
use crate::waterfall::spec_waterfall_explanation;
use crate::waterfall::spec_waterfall_warnings;

verus! {

/// Parameters of a penalty calculation, as the caller supplied them.
#[derive(Debug, Clone, PartialEq)]
pub struct CalcPenaltyParams {
    pub days_late: String,
}

/// Parameters of a tax calculation, as the caller supplied them.
#[derive(Debug, Clone, PartialEq)]
pub struct CalcTaxParams {
    pub income: String,
}

/// Parameters of a voting check, as the caller supplied them.
#[derive(Debug, Clone, PartialEq)]
pub struct CheckVotingParams {
    pub eligible_voters: String,
    pub turnout: String,
    pub yes_votes: String,
    pub proposal_type: String,
}

/// Parameters of a waterfall distribution, as the caller supplied them.
#[derive(Debug, Clone, PartialEq)]
pub struct DistributeWaterfallParams {
    pub cash_available: String,
    pub senior_debt: String,
    pub junior_debt: String,
}

/// Parameters of a housing-grant check, as the caller supplied them.
#[derive(Debug, Clone, PartialEq)]
pub struct CheckHousingGrantParams {
    pub ami: String,
    pub household_size: String,
    pub income: String,
    pub has_other_subsidy: String,
}

/// The calculation engine: the five calculators bound to one immutable
/// configuration.
#[derive(Debug, Clone)]
pub struct CompatibilityEngine {
    pub config: EngineConfig,
}

impl CompatibilityEngine {
    /// The configuration is within the engine's ranges.
    pub open spec fn wf(self) -> bool {
        self.config.wf()
    }

    /// An engine over the documented default configuration.
    pub fn new() -> (r: CompatibilityEngine)
        ensures
            r.wf(),
            r.config.default_rate_per_day.units == 1_000_000,
            r.config.default_cap.units == 10_000_000,
            r.config.default_interest_rate.units == 500,
            r.config.default_thresholds@ == seq![Decimal { units: 100_000_000 as i128 }],
            r.config.default_rates@ == seq![
                Decimal { units: 1000 as i128 },
                Decimal { units: 2000 as i128 },
            ],
            r.config.default_surcharge_threshold.units == 50_000_000,
            r.config.default_surcharge_rate.units == 200,
    {
        CompatibilityEngine { config: EngineConfig::defaults() }
    }

    /// An engine over the given configuration.
    pub fn with_config(config: EngineConfig) -> (r: CompatibilityEngine)
        ensures
            r.config == config,
    {
        CompatibilityEngine { config }
    }

    /// Runs the penalty calculation on caller text: parse errors and
    /// validation errors become the labeled transport error text.
    pub fn calc_penalty(&self, params: &CalcPenaltyParams) -> (r: Result<
        CalcPenaltyResponse,
        String,
    >)
        requires
            self.wf(),
        ensures
            ({
                let rp = self.config.default_rate_per_day@;
                let cp = self.config.default_cap@;
                let ir = self.config.default_interest_rate@;
                match spec_parse_number(params.days_late@) {
                    Err(pe) => r matches Err(m) && m@ == "Invalid days_late parameter: "@ + pe,
                    Ok(d) => {
                        let errs = spec_penalty_errors(d, rp, cp, ir);
                        if errs.len() > 0 {
                            r matches Err(m) && m@ == "Calculation errors: "@ + spec_join_comma(
                                errs,
                            )
                        } else {
                            r matches Ok(resp) && resp.penalty.units == spec_penalty_final(
                                d,
                                rp,
                                cp,
                                ir,
                            ) && resp.explanation@ == spec_penalty_explanation(d, rp, cp, ir)
                                && resp.errors@.len() == 0 && resp.warnings.deep_view()
                                == spec_penalty_warnings(d, rp, cp, ir)
                        }
                    },
                }
            }),
    {
        let days_late = match parse_decimal_from_string(params.days_late.as_str()) {
            Ok(v) => v,
            Err(pe) => {
                return Err(concat2("Invalid days_late parameter: ", pe.as_str()));
            },
        };
        let result = calc_penalty_internal(
            days_late,
            self.config.default_rate_per_day,
            self.config.default_cap,
            self.config.default_interest_rate,
        );
        if result.errors.len() > 0 {
            let mut m: Vec<char> = Vec::new();
            push_chars_of(&mut m, "Calculation errors: ");
            push_joined(&mut m, &result.errors);
            return Err(string_of(&m));
        }
        Ok(result)
    }

    /// Runs the tax calculation on caller text: parse errors and
    /// validation errors become the labeled transport error text.
    pub fn calc_tax(&self, params: &CalcTaxParams) -> (r: Result<CalcTaxResponse, String>)
        requires
            self.wf(),
        ensures
            ({
                let thr = spec_units_of(self.config.default_thresholds@);
                let rts = spec_units_of(self.config.default_rates@);
                let sthr = self.config.default_surcharge_threshold@;
                let srate = self.config.default_surcharge_rate@;
                match spec_parse_number(params.income@) {
                    Err(pe) => r matches Err(m) && m@ == "Invalid income parameter: "@ + pe,
                    Ok(inc) => {
                        let errs = spec_tax_errors(inc, thr, rts, sthr, srate);
                        if errs.len() > 0 {
                            r matches Err(m) && m@ == "Calculation errors: "@ + spec_join_comma(
                                errs,
                            )
                        } else {
                            r matches Ok(resp) && resp.tax.units == spec_tax_final(
                                inc,
                                thr,
                                rts,
                                sthr,
                                srate,
                            ) && resp.explanation@ == spec_tax_explanation(
                                inc,
                                thr,
                                rts,
                                sthr,
                                srate,
                            ) && resp.errors@.len() == 0 && resp.warnings.deep_view()
                                == spec_tax_warnings(srate)
                        }
                    },
                }
            }),
    {
        let income = match parse_decimal_from_string(params.income.as_str()) {
            Ok(v) => v,
            Err(pe) => {
                return Err(concat2("Invalid income parameter: ", pe.as_str()));
            },
        };
        let result = calc_tax_internal(
            income,
            &self.config.default_thresholds,
            &self.config.default_rates,
            self.config.default_surcharge_threshold,
            self.config.default_surcharge_rate,
        );
        if result.errors.len() > 0 {
            let mut m: Vec<char> = Vec::new();
            push_chars_of(&mut m, "Calculation errors: ");
            push_joined(&mut m, &result.errors);
            return Err(string_of(&m));
        }
        Ok(result)
    }

    /// Runs the voting check on caller text: parse errors and validation
    /// errors become the labeled transport error text.
    pub fn check_voting(&self, params: &CheckVotingParams) -> (r: Result<
        CheckVotingResponse,
        String,
    >)
        ensures
            ({
                match spec_parse_i32(params.eligible_voters@) {
                    Err(pe) => r matches Err(m) && m@ == "Invalid eligible_voters parameter: "@
                        + pe,
                    Ok(ev) => match spec_parse_i32(params.turnout@) {
                        Err(pe) => r matches Err(m) && m@ == "Invalid turnout parameter: "@ + pe,
                        Ok(tn) => match spec_parse_i32(params.yes_votes@) {
                            Err(pe) => r matches Err(m) && m@ == "Invalid yes_votes parameter: "@
                                + pe,
                            Ok(yv) => {
                                let errs = spec_voting_errors(ev, tn, yv, params.proposal_type@);
                                if errs.len() > 0 {
                                    r matches Err(m) && m@ == "Validation errors: "@
                                        + spec_join_comma(errs)
                                } else {
                                    r matches Ok(resp) && resp.passes == spec_voting_passes(
                                        ev,
                                        tn,
                                        yv,
                                        params.proposal_type@,
                                    ) && resp.explanation@ == spec_voting_explanation(
                                        ev,
                                        tn,
                                        yv,
                                        params.proposal_type@,
                                    ) && resp.errors@.len() == 0 && resp.warnings.deep_view()
                                        == spec_voting_warnings(ev, tn, yv)
                                }
                            },
                        },
                    },
                }
            }),
    {
        let eligible_voters = match parse_i32_from_string(params.eligible_voters.as_str()) {
            Ok(v) => v,
            Err(pe) => {
                return Err(concat2("Invalid eligible_voters parameter: ", pe.as_str()));
            },
        };
        let turnout = match parse_i32_from_string(params.turnout.as_str()) {
            Ok(v) => v,
            Err(pe) => {
                return Err(concat2("Invalid turnout parameter: ", pe.as_str()));
            },
        };
        let yes_votes = match parse_i32_from_string(params.yes_votes.as_str()) {
            Ok(v) => v,
            Err(pe) => {
                return Err(concat2("Invalid yes_votes parameter: ", pe.as_str()));
            },
        };
        let result = check_voting_internal(
            eligible_voters,
            turnout,
            yes_votes,
            params.proposal_type.as_str(),
        );
        if result.errors.len() > 0 {
            let mut m: Vec<char> = Vec::new();
            push_chars_of(&mut m, "Validation errors: ");
            push_joined(&mut m, &result.errors);
            return Err(string_of(&m));
        }
        Ok(result)
    }

    /// Runs the waterfall distribution on caller text: parse errors and
    /// validation errors become the labeled transport error text.
    pub fn distribute_waterfall(&self, params: &DistributeWaterfallParams) -> (r: Result<
        DistributeWaterfallResponse,
        String,
    >)
        ensures
            ({
                match spec_parse_number(params.cash_available@) {
                    Err(pe) => r matches Err(m) && m@ == "Invalid cash_available parameter: "@
                        + pe,
                    Ok(cash) => match spec_parse_number(params.senior_debt@) {
                        Err(pe) => r matches Err(m) && m@ == "Invalid senior_debt parameter: "@
                            + pe,
                        Ok(sen) => match spec_parse_number(params.junior_debt@) {
                            Err(pe) => r matches Err(m) && m@
                                == "Invalid junior_debt parameter: "@ + pe,
                            Ok(jun) => {
                                let errs = spec_waterfall_errors(cash, sen, jun);
                                if errs.len() > 0 {
                                    r matches Err(m) && m@ == "Validation errors: "@
                                        + spec_join_comma(errs)
                                } else {
                                    r matches Ok(resp) && resp.distribution.senior.units
                                        == spec_senior_payment(cash, sen)
                                        && resp.distribution.junior.units == spec_junior_payment(
                                        cash,
                                        sen,
                                        jun,
                                    ) && resp.distribution.equity.units == spec_equity_payment(
                                        cash,
                                        sen,
                                        jun,
                                    ) && resp.explanation@ == spec_waterfall_explanation(
                                        cash,
                                        sen,
                                        jun,
                                    ) && resp.errors@.len() == 0 && resp.warnings.deep_view()
                                        == spec_waterfall_warnings(cash, sen, jun)
                                }
                            },
                        },
                    },
                }
            }),
    {
        let cash_available = match parse_decimal_from_string(params.cash_available.as_str()) {
            Ok(v) => v,
            Err(pe) => {
                return Err(concat2("Invalid cash_available parameter: ", pe.as_str()));
            },
        };
        let senior_debt = match parse_decimal_from_string(params.senior_debt.as_str()) {
            Ok(v) => v,
            Err(pe) => {
                return Err(concat2("Invalid senior_debt parameter: ", pe.as_str()));
            },
        };
        let junior_debt = match parse_decimal_from_string(params.junior_debt.as_str()) {
            Ok(v) => v,
            Err(pe) => {
                return Err(concat2("Invalid junior_debt parameter: ", pe.as_str()));
            },
        };
        let result = distribute_waterfall_internal(cash_available, senior_debt, junior_debt);
        if result.errors.len() > 0 {
            let mut m: Vec<char> = Vec::new();
            push_chars_of(&mut m, "Validation errors: ");
            push_joined(&mut m, &result.errors);
            return Err(string_of(&m));
        }
        Ok(result)
    }

    /// Runs the housing-grant check on caller text: parse errors and
    /// validation errors become the labeled transport error text.
    pub fn check_housing_grant(&self, params: &CheckHousingGrantParams) -> (r: Result<
        CheckHousingGrantResponse,
        String,
    >)
        ensures
            ({
                match spec_parse_number(params.ami@) {
                    Err(pe) => r matches Err(m) && m@ == "Invalid ami parameter: "@ + pe,
                    Ok(ami) => match spec_parse_i32(params.household_size@) {
                        Err(pe) => r matches Err(m) && m@ == "Invalid household_size parameter: "@
                            + pe,
                        Ok(size) => match spec_parse_number(params.income@) {
                            Err(pe) => r matches Err(m) && m@ == "Invalid income parameter: "@
                                + pe,
                            Ok(inc) => match spec_parse_bool(params.has_other_subsidy@) {
                                Err(pe) => r matches Err(m) && m@
                                    == "Invalid has_other_subsidy parameter: "@ + pe,
                                Ok(sub) => {
                                    let errs = spec_housing_errors(ami, size, inc);
                                    if errs.len() > 0 {
                                        r matches Err(m) && m@ == "Validation errors: "@
                                            + spec_join_comma(errs)
                                    } else {
                                        r matches Ok(resp) && resp.eligible
                                            == spec_housing_eligible(ami, size, inc, sub)
                                            && resp.explanation@ == spec_housing_explanation(
                                            ami,
                                            size,
                                            inc,
                                            sub,
                                        ) && resp.errors@.len() == 0
                                            && resp.additional_requirements.deep_view()
                                            == spec_housing_reqs(ami, size, inc, sub)
                                    }
                                },
                            },
                        },
                    },
                }
            }),
    {
        let ami = match parse_decimal_from_string(params.ami.as_str()) {
            Ok(v) => v,
            Err(pe) => {
                return Err(concat2("Invalid ami parameter: ", pe.as_str()));
            },
        };
        let household_size = match parse_i32_from_string(params.household_size.as_str()) {
            Ok(v) => v,
            Err(pe) => {
                return Err(concat2("Invalid household_size parameter: ", pe.as_str()));
            },
        };
        let income = match parse_decimal_from_string(params.income.as_str()) {
            Ok(v) => v,
            Err(pe) => {
                return Err(concat2("Invalid income parameter: ", pe.as_str()));
            },
        };
        let has_other_subsidy = match parse_bool_from_string(params.has_other_subsidy.as_str()) {
            Ok(v) => v,
            Err(pe) => {
                return Err(concat2("Invalid has_other_subsidy parameter: ", pe.as_str()));
            },
        };
        let result = check_housing_grant_internal(ami, household_size, income, has_other_subsidy);
        if result.errors.len() > 0 {
            let mut m: Vec<char> = Vec::new();
            push_chars_of(&mut m, "Validation errors: ");
            push_joined(&mut m, &result.errors);
            return Err(string_of(&m));
        }
        Ok(result)
    }
}

} // verus!
