//! Late-payment penalty calculation.
//!
//! `penalty = min(days_late × rate_per_day, cap)`, then interest
//! `penalty × interest_rate` is added. Negative inputs are rejected with
//! one error per violated constraint and a zeroed result.

use vstd::prelude::*;

use crate::decimal::Decimal;
use crate::decimal::spec_mul_units;
use crate::render::push_fixed2;
use crate::render::push_rate_percent;
use crate::render::push_shortest;
use crate::render::spec_fixed2;
use crate::render::spec_rate_percent;
use crate::render::spec_shortest;
use crate::text::push_chars_of;
use crate::text::string_of;

verus! {

/// Result of a penalty calculation: the final amount, the step-by-step
/// explanation, and any validation errors and warnings.
#[derive(Debug, Clone, PartialEq)]
pub struct CalcPenaltyResponse {
    pub penalty: Decimal,
    pub explanation: String,
    pub errors: Vec<String>,
    pub warnings: Vec<String>,
}

/// Validation errors for the penalty inputs, in check order.
pub open spec fn spec_penalty_errors(d: int, rp: int, c: int, ir: int) -> Seq<Seq<char>> {
    (if d < 0 {
        seq!["Days late cannot be negative"@]
    } else {
        Seq::<Seq<char>>::empty()
    }) + (if rp < 0 {
        seq!["Rate per day cannot be negative"@]
    } else {
        Seq::<Seq<char>>::empty()
    }) + (if c < 0 {
        seq!["Cap cannot be negative"@]
    } else {
        Seq::<Seq<char>>::empty()
    }) + (if ir < 0 {
        seq!["Interest rate cannot be negative"@]
    } else {
        Seq::<Seq<char>>::empty()
    })
}

/// The uncapped base penalty, in units.
pub open spec fn spec_penalty_base(d: int, rp: int) -> int {
    spec_mul_units(d, rp)
}

/// The base penalty bounded by the cap, in units.
pub open spec fn spec_penalty_capped(d: int, rp: int, c: int) -> int {
    if spec_penalty_base(d, rp) <= c {
        spec_penalty_base(d, rp)
    } else {
        c
    }
}

/// The interest charged on the capped penalty, in units.
pub open spec fn spec_penalty_interest(d: int, rp: int, c: int, ir: int) -> int {
    spec_mul_units(spec_penalty_capped(d, rp, c), ir)
}

/// The final penalty: capped penalty plus interest, in units.
pub open spec fn spec_penalty_final(d: int, rp: int, c: int, ir: int) -> int {
    spec_penalty_capped(d, rp, c) + spec_penalty_interest(d, rp, c, ir)
}

/// Warnings for a successful penalty calculation: the cap binding, and a
/// high interest rate (over 10%).
pub open spec fn spec_penalty_warnings(d: int, rp: int, c: int, ir: int) -> Seq<Seq<char>> {
    (if spec_penalty_base(d, rp) > c {
        seq![
            "Base penalty "@ + spec_fixed2(spec_penalty_base(d, rp)) + " exceeded cap of "@
                + spec_fixed2(c),
        ]
    } else {
        Seq::<Seq<char>>::empty()
    }) + (if ir > 1000 {
        seq!["High interest rate: "@ + spec_rate_percent(ir) + "%"@]
    } else {
        Seq::<Seq<char>>::empty()
    })
}

/// Step-by-step explanation of a successful penalty calculation.
pub open spec fn spec_penalty_explanation(d: int, rp: int, c: int, ir: int) -> Seq<char> {
    let base = spec_penalty_base(d, rp);
    let pen = spec_penalty_capped(d, rp, c);
    let inter = spec_penalty_interest(d, rp, c, ir);
    let fin = spec_penalty_final(d, rp, c, ir);
    "Base penalty: "@ + spec_shortest(d) + " days × "@ + spec_shortest(rp) + " = "@ + spec_fixed2(
        base,
    ) + ". "@ + (if base > c {
        "Applied cap: "@ + spec_fixed2(base) + " capped at "@ + spec_fixed2(c)
    } else {
        "No cap applied ("@ + spec_fixed2(base) + " ≤ "@ + spec_fixed2(c) + ")"@
    }) + ". "@ + "Interest: "@ + spec_fixed2(pen) + " × "@ + spec_rate_percent(ir) + "% = "@
        + spec_fixed2(inter) + ". "@ + "Final penalty: "@ + spec_fixed2(pen) + " + "@
        + spec_fixed2(inter) + " = "@ + spec_fixed2(fin)
}

/// Law: a negative input to the penalty calculation always yields the
/// matching validation error; the calculator's contract then forces a
/// zeroed penalty and the generic failure explanation.
pub proof fn lemma_penalty_negative_rejected(d: int, rp: int, c: int, ir: int)
    ensures
        d < 0 ==> spec_penalty_errors(d, rp, c, ir).contains("Days late cannot be negative"@),
        rp < 0 ==> spec_penalty_errors(d, rp, c, ir).contains("Rate per day cannot be negative"@),
        c < 0 ==> spec_penalty_errors(d, rp, c, ir).contains("Cap cannot be negative"@),
        ir < 0 ==> spec_penalty_errors(d, rp, c, ir).contains(
            "Interest rate cannot be negative"@,
        ),
        (d < 0 || rp < 0 || c < 0 || ir < 0) ==> spec_penalty_errors(d, rp, c, ir).len() > 0,
{
    let s = spec_penalty_errors(d, rp, c, ir);
    if d < 0 {
        assert(s.contains("Days late cannot be negative"@)) by {
            assert(s[0] == "Days late cannot be negative"@);
        }
    }
    if rp < 0 {
        let i = if d < 0 {
            1int
        } else {
            0int
        };
        assert(s.contains("Rate per day cannot be negative"@)) by {
            assert(s[i] == "Rate per day cannot be negative"@);
        }
    }
    if c < 0 {
        let i = (if d < 0 {
            1int
        } else {
            0int
        }) + (if rp < 0 {
            1int
        } else {
            0int
        });
        assert(s.contains("Cap cannot be negative"@)) by {
            assert(s[i] == "Cap cannot be negative"@);
        }
    }
    if ir < 0 {
        let i = (if d < 0 {
            1int
        } else {
            0int
        }) + (if rp < 0 {
            1int
        } else {
            0int
        }) + (if c < 0 {
            1int
        } else {
            0int
        });
        assert(s.contains("Interest rate cannot be negative"@)) by {
            assert(s[i] == "Interest rate cannot be negative"@);
        }
    }
}

/// Calculates the late-payment penalty: base `days_late × rate_per_day`,
/// bounded by `cap`, plus `interest_rate` interest on the bounded amount.
/// Any negative input yields the matching errors and a zeroed result.
#[verifier::loop_isolation(false)]
#[verifier::rlimit(100)]
pub fn calc_penalty_internal(
    days_late: Decimal,
    rate_per_day: Decimal,
    cap: Decimal,
    interest_rate: Decimal,
) -> (r: CalcPenaltyResponse)
    requires
        days_late.amount_in_range(),
        rate_per_day.amount_in_range(),
        cap.amount_in_range(),
        interest_rate.rate_in_range(),
    ensures
        r.errors.deep_view() == spec_penalty_errors(
            days_late@,
            rate_per_day@,
            cap@,
            interest_rate@,
        ),
        spec_penalty_errors(days_late@, rate_per_day@, cap@, interest_rate@).len() > 0 ==> (
        r.penalty.units == 0 && r.explanation@ == "Calculation failed due to invalid inputs"@
            && r.warnings@.len() == 0),
        spec_penalty_errors(days_late@, rate_per_day@, cap@, interest_rate@).len() == 0 ==> (
        r.penalty.units == spec_penalty_final(days_late@, rate_per_day@, cap@, interest_rate@)
            && r.explanation@ == spec_penalty_explanation(
            days_late@,
            rate_per_day@,
            cap@,
            interest_rate@,
        ) && r.warnings.deep_view() == spec_penalty_warnings(
            days_late@,
            rate_per_day@,
            cap@,
            interest_rate@,
        )),
{
    let mut errors: Vec<String> = Vec::new();
    let mut warnings: Vec<String> = Vec::new();
    if days_late.is_negative() {
        errors.push(String::from_str("Days late cannot be negative"));
    }
    if rate_per_day.is_negative() {
        errors.push(String::from_str("Rate per day cannot be negative"));
    }
    if cap.is_negative() {
        errors.push(String::from_str("Cap cannot be negative"));
    }
    if interest_rate.is_negative() {
        errors.push(String::from_str("Interest rate cannot be negative"));
    }
    proof {
        assert(errors.deep_view() =~= spec_penalty_errors(
            days_late@,
            rate_per_day@,
            cap@,
            interest_rate@,
        ));
    }
    if errors.len() > 0 {
        return CalcPenaltyResponse {
            penalty: Decimal::zero(),
            explanation: String::from_str("Calculation failed due to invalid inputs"),
            errors,
            warnings,
        };
    }
    proof {
        assert(days_late.units * rate_per_day.units <= i128::MAX) by (nonlinear_arith)
            requires
                0 <= days_late.units <= 10_000_000_000_000_000_000i128,
                0 <= rate_per_day.units <= 10_000_000_000_000_000_000i128,
        ;
    }
    let base = days_late.mul(rate_per_day);
    let penalty = base.min_of(cap);
    proof {
        assert(penalty.units * interest_rate.units <= i128::MAX) by (nonlinear_arith)
            requires
                0 <= penalty.units <= 10_000_000_000_000_000_000i128,
                0 <= interest_rate.units <= 100_000_000i128,
        ;
    }
    let interest = penalty.mul(interest_rate);
    let final_penalty = penalty.add(interest);
    let mut e: Vec<char> = Vec::new();
    push_chars_of(&mut e, "Base penalty: ");
    push_shortest(&mut e, days_late);
    push_chars_of(&mut e, " days × ");
    push_shortest(&mut e, rate_per_day);
    push_chars_of(&mut e, " = ");
    push_fixed2(&mut e, base);
    push_chars_of(&mut e, ". ");
    if base.gt(cap) {
        push_chars_of(&mut e, "Applied cap: ");
        push_fixed2(&mut e, base);
        push_chars_of(&mut e, " capped at ");
        push_fixed2(&mut e, cap);
        let mut w: Vec<char> = Vec::new();
        push_chars_of(&mut w, "Base penalty ");
        push_fixed2(&mut w, base);
        push_chars_of(&mut w, " exceeded cap of ");
        push_fixed2(&mut w, cap);
        warnings.push(string_of(&w));
    } else {
        push_chars_of(&mut e, "No cap applied (");
        push_fixed2(&mut e, base);
        push_chars_of(&mut e, " ≤ ");
        push_fixed2(&mut e, cap);
        push_chars_of(&mut e, ")");
    }
    push_chars_of(&mut e, ". ");
    push_chars_of(&mut e, "Interest: ");
    push_fixed2(&mut e, penalty);
    push_chars_of(&mut e, " × ");
    push_rate_percent(&mut e, interest_rate);
    push_chars_of(&mut e, "% = ");
    push_fixed2(&mut e, interest);
    push_chars_of(&mut e, ". ");
    push_chars_of(&mut e, "Final penalty: ");
    push_fixed2(&mut e, penalty);
    push_chars_of(&mut e, " + ");
    push_fixed2(&mut e, interest);
    push_chars_of(&mut e, " = ");
    push_fixed2(&mut e, final_penalty);
    if interest_rate.units > 1000 {
        let mut w: Vec<char> = Vec::new();
        push_chars_of(&mut w, "High interest rate: ");
        push_rate_percent(&mut w, interest_rate);
        push_chars_of(&mut w, "%");
        warnings.push(string_of(&w));
    }
    proof {
        assert(e@ =~= spec_penalty_explanation(days_late@, rate_per_day@, cap@, interest_rate@));
        assert(warnings.deep_view() =~= spec_penalty_warnings(
            days_late@,
            rate_per_day@,
            cap@,
            interest_rate@,
        ));
    }
    CalcPenaltyResponse {
        penalty: final_penalty,
        explanation: string_of(&e),
        errors,
        warnings,
    }
}

} // verus!
