//! Cash waterfall distribution.
//!
//! Available cash pays senior debt first, then junior debt, and whatever
//! remains goes to equity. Underpaid tranches and an overall shortfall
//! produce warnings.

use vstd::prelude::*;

use crate::decimal::Decimal;
use crate::render::push_fixed2;
use crate::render::spec_fixed2;
use crate::text::push_chars_of;
use crate::text::string_of;

verus! {

/// The three allocations of a waterfall distribution.
#[derive(Debug, Clone, Copy, PartialEq, Eq, Structural)]
pub struct DistributeWaterfallResult {
    pub senior: Decimal,
    pub junior: Decimal,
    pub equity: Decimal,
}

/// Result of a waterfall distribution: the allocations, the step-by-step
/// explanation, and any validation errors and warnings.
#[derive(Debug, Clone, PartialEq)]
pub struct DistributeWaterfallResponse {
    pub distribution: DistributeWaterfallResult,
    pub explanation: String,
    pub errors: Vec<String>,
    pub warnings: Vec<String>,
}

/// Validation errors for the waterfall inputs, in check order.
pub open spec fn spec_waterfall_errors(cash: int, sen: int, jun: int) -> Seq<Seq<char>> {
    (if cash < 0 {
        seq!["Cash available cannot be negative"@]
    } else {
        Seq::<Seq<char>>::empty()
    }) + (if sen < 0 {
        seq!["Senior debt cannot be negative"@]
    } else {
        Seq::<Seq<char>>::empty()
    }) + (if jun < 0 {
        seq!["Junior debt cannot be negative"@]
    } else {
        Seq::<Seq<char>>::empty()
    })
}

/// The payment to senior debt, in units.
pub open spec fn spec_senior_payment(cash: int, sen: int) -> int {
    if cash <= sen {
        cash
    } else {
        sen
    }
}

/// Cash left after the senior payment, in units.
pub open spec fn spec_after_senior(cash: int, sen: int) -> int {
    cash - spec_senior_payment(cash, sen)
}

/// The payment to junior debt, in units.
pub open spec fn spec_junior_payment(cash: int, sen: int, jun: int) -> int {
    if spec_after_senior(cash, sen) <= jun {
        spec_after_senior(cash, sen)
    } else {
        jun
    }
}

/// The residual equity distribution, in units.
pub open spec fn spec_equity_payment(cash: int, sen: int, jun: int) -> int {
    spec_after_senior(cash, sen) - spec_junior_payment(cash, sen, jun)
}

/// Explanation line for the senior tranche, given its payment `sp`.
pub open spec fn spec_senior_line(sp: int, sen: int) -> Seq<char> {
    if sen > 0 {
        if sp == sen {
            "Senior debt: "@ + spec_fixed2(sen) + " fully paid"@
        } else {
            "Senior debt: "@ + spec_fixed2(sp) + " partially paid ("@ + spec_fixed2(sp) + " of "@
                + spec_fixed2(sen) + ")"@
        }
    } else {
        "No senior debt to pay"@
    }
}

/// Warning entries for the senior tranche.
pub open spec fn spec_senior_warns(sp: int, sen: int) -> Seq<Seq<char>> {
    if sen > 0 && sp != sen {
        seq!["Senior debt underpaid by "@ + spec_fixed2(sen - sp)]
    } else {
        Seq::<Seq<char>>::empty()
    }
}

/// Explanation line for the junior tranche, given its payment `jp`.
pub open spec fn spec_junior_line(jp: int, jun: int) -> Seq<char> {
    if jun > 0 {
        if jp == jun {
            "Junior debt: "@ + spec_fixed2(jun) + " fully paid"@
        } else if jp > 0 {
            "Junior debt: "@ + spec_fixed2(jp) + " partially paid ("@ + spec_fixed2(jp) + " of "@
                + spec_fixed2(jun) + ")"@
        } else {
            "Junior debt: no funds available"@
        }
    } else {
        "No junior debt to pay"@
    }
}

/// Warning entries for the junior tranche.
pub open spec fn spec_junior_warns(jp: int, jun: int) -> Seq<Seq<char>> {
    if jun > 0 && jp != jun {
        if jp > 0 {
            seq!["Junior debt underpaid by "@ + spec_fixed2(jun - jp)]
        } else {
            seq!["Junior debt unpaid ("@ + spec_fixed2(jun) + ")"@]
        }
    } else {
        Seq::<Seq<char>>::empty()
    }
}

/// Explanation line for the equity residual.
pub open spec fn spec_equity_line(eq: int) -> Seq<char> {
    if eq > 0 {
        "Equity distribution: "@ + spec_fixed2(eq)
    } else {
        "No funds available for equity"@
    }
}

/// Warning entry for an overall shortfall.
pub open spec fn spec_shortfall_warns(cash: int, sen: int, jun: int) -> Seq<Seq<char>> {
    if cash < sen + jun {
        seq![
            "Insufficient cash: "@ + spec_fixed2(cash) + " available vs "@ + spec_fixed2(sen + jun)
                + " total debt"@,
        ]
    } else {
        Seq::<Seq<char>>::empty()
    }
}

/// Warnings for a successful distribution, in order of the stages.
pub open spec fn spec_waterfall_warnings(cash: int, sen: int, jun: int) -> Seq<Seq<char>> {
    spec_senior_warns(spec_senior_payment(cash, sen), sen) + spec_junior_warns(
        spec_junior_payment(cash, sen, jun),
        jun,
    ) + spec_shortfall_warns(cash, sen, jun)
}

/// Step-by-step explanation of a successful distribution.
pub open spec fn spec_waterfall_explanation(cash: int, sen: int, jun: int) -> Seq<char> {
    "Starting cash: "@ + spec_fixed2(cash) + ". "@ + spec_senior_line(
        spec_senior_payment(cash, sen),
        sen,
    ) + ". "@ + "Remaining after senior: "@ + spec_fixed2(spec_after_senior(cash, sen)) + ". "@
        + spec_junior_line(spec_junior_payment(cash, sen, jun), jun) + ". "@
        + "Remaining for equity: "@ + spec_fixed2(spec_equity_payment(cash, sen, jun)) + ". "@
        + spec_equity_line(spec_equity_payment(cash, sen, jun))
}

/// Law: a successful waterfall conserves cash — the three allocations sum
/// exactly to the cash available, each allocation is non-negative, and no
/// tranche receives more than it is owed.
pub proof fn lemma_waterfall_conservation(cash: int, sen: int, jun: int)
    requires
        cash >= 0,
        sen >= 0,
        jun >= 0,
    ensures
        spec_senior_payment(cash, sen) + spec_junior_payment(cash, sen, jun) + spec_equity_payment(
            cash,
            sen,
            jun,
        ) == cash,
        0 <= spec_senior_payment(cash, sen) <= sen,
        0 <= spec_junior_payment(cash, sen, jun) <= jun,
        0 <= spec_equity_payment(cash, sen, jun),
{
}

/// Law: a negative input to the waterfall distribution always yields the
/// matching validation error; the calculator's contract then forces a
/// zeroed distribution.
pub proof fn lemma_waterfall_negative_rejected(cash: int, sen: int, jun: int)
    ensures
        cash < 0 ==> spec_waterfall_errors(cash, sen, jun).contains("Cash available cannot be negative"@),
        sen < 0 ==> spec_waterfall_errors(cash, sen, jun).contains("Senior debt cannot be negative"@),
        jun < 0 ==> spec_waterfall_errors(cash, sen, jun).contains("Junior debt cannot be negative"@),
        (cash < 0 || sen < 0 || jun < 0) ==> spec_waterfall_errors(cash, sen, jun).len() > 0,
{
    let s = spec_waterfall_errors(cash, sen, jun);
    if cash < 0 {
        let i = 0int;
        assert(s.contains("Cash available cannot be negative"@)) by {
            assert(s[i] == "Cash available cannot be negative"@);
        }
    }
    if sen < 0 {
        let i = (if cash < 0 {
            1int
        } else {
            0int
        });
        assert(s.contains("Senior debt cannot be negative"@)) by {
            assert(s[i] == "Senior debt cannot be negative"@);
        }
    }
    if jun < 0 {
        let i = (if cash < 0 {
            1int
        } else {
            0int
        }) + (if sen < 0 {
            1int
        } else {
            0int
        });
        assert(s.contains("Junior debt cannot be negative"@)) by {
            assert(s[i] == "Junior debt cannot be negative"@);
        }
    }
}

/// Appends the senior tranche line to the explanation, and its warning if
/// the tranche is underpaid.
fn senior_segment(e: &mut Vec<char>, warnings: &mut Vec<String>, sp: Decimal, sen: Decimal)
    requires
        0 <= sp.units <= sen.units || sen.units <= 0,
        -AMOUNT_BOUND <= sp.units <= AMOUNT_BOUND,
        -AMOUNT_BOUND <= sen.units <= AMOUNT_BOUND,
    ensures
        final(e)@ == old(e)@ + spec_senior_line(sp@, sen@),
        final(warnings).deep_view() == old(warnings).deep_view() + spec_senior_warns(sp@, sen@),
{
    if sen.units > 0 {
        if sp.units == sen.units {
            push_chars_of(e, "Senior debt: ");
            push_fixed2(e, sen);
            push_chars_of(e, " fully paid");
        } else {
            push_chars_of(e, "Senior debt: ");
            push_fixed2(e, sp);
            push_chars_of(e, " partially paid (");
            push_fixed2(e, sp);
            push_chars_of(e, " of ");
            push_fixed2(e, sen);
            push_chars_of(e, ")");
            let mut w: Vec<char> = Vec::new();
            push_chars_of(&mut w, "Senior debt underpaid by ");
            push_fixed2(&mut w, sen.sub(sp));
            warnings.push(string_of(&w));
        }
    } else {
        push_chars_of(e, "No senior debt to pay");
    }
    proof {
        assert(e@ =~= old(e)@ + spec_senior_line(sp@, sen@));
        assert(warnings.deep_view() =~= old(warnings).deep_view() + spec_senior_warns(sp@, sen@));
    }
}

/// Appends the junior tranche line to the explanation, and its warning if
/// the tranche is underpaid or unpaid.
fn junior_segment(e: &mut Vec<char>, warnings: &mut Vec<String>, jp: Decimal, jun: Decimal)
    requires
        0 <= jp.units <= jun.units || jun.units <= 0,
        -AMOUNT_BOUND <= jp.units <= AMOUNT_BOUND,
        -AMOUNT_BOUND <= jun.units <= AMOUNT_BOUND,
    ensures
        final(e)@ == old(e)@ + spec_junior_line(jp@, jun@),
        final(warnings).deep_view() == old(warnings).deep_view() + spec_junior_warns(jp@, jun@),
{
    if jun.units > 0 {
        if jp.units == jun.units {
            push_chars_of(e, "Junior debt: ");
            push_fixed2(e, jun);
            push_chars_of(e, " fully paid");
        } else if jp.units > 0 {
            push_chars_of(e, "Junior debt: ");
            push_fixed2(e, jp);
            push_chars_of(e, " partially paid (");
            push_fixed2(e, jp);
            push_chars_of(e, " of ");
            push_fixed2(e, jun);
            push_chars_of(e, ")");
            let mut w: Vec<char> = Vec::new();
            push_chars_of(&mut w, "Junior debt underpaid by ");
            push_fixed2(&mut w, jun.sub(jp));
            warnings.push(string_of(&w));
        } else {
            push_chars_of(e, "Junior debt: no funds available");
            let mut w: Vec<char> = Vec::new();
            push_chars_of(&mut w, "Junior debt unpaid (");
            push_fixed2(&mut w, jun);
            push_chars_of(&mut w, ")");
            warnings.push(string_of(&w));
        }
    } else {
        push_chars_of(e, "No junior debt to pay");
    }
    proof {
        assert(e@ =~= old(e)@ + spec_junior_line(jp@, jun@));
        assert(warnings.deep_view() =~= old(warnings).deep_view() + spec_junior_warns(jp@, jun@));
    }
}

/// Magnitude bound used by the explanation helpers.
pub const AMOUNT_BOUND: i128 = 100_000_000_000_000_000_000_000_000_000_000;

/// Distributes cash down the waterfall: senior debt first, junior debt
/// second, equity last. Any negative input yields the matching errors and
/// a zeroed distribution.
#[verifier::loop_isolation(false)]
#[verifier::rlimit(100)]
pub fn distribute_waterfall_internal(
    cash_available: Decimal,
    senior_debt: Decimal,
    junior_debt: Decimal,
) -> (r: DistributeWaterfallResponse)
    requires
        cash_available.amount_in_range(),
        senior_debt.amount_in_range(),
        junior_debt.amount_in_range(),
    ensures
        r.errors.deep_view() == spec_waterfall_errors(cash_available@, senior_debt@, junior_debt@),
        spec_waterfall_errors(cash_available@, senior_debt@, junior_debt@).len() > 0 ==> (
        r.distribution.senior.units == 0 && r.distribution.junior.units == 0
            && r.distribution.equity.units == 0 && r.explanation@
            == "Waterfall distribution failed due to invalid inputs"@ && r.warnings@.len() == 0),
        spec_waterfall_errors(cash_available@, senior_debt@, junior_debt@).len() == 0 ==> (
        r.distribution.senior.units == spec_senior_payment(cash_available@, senior_debt@)
            && r.distribution.junior.units == spec_junior_payment(
            cash_available@,
            senior_debt@,
            junior_debt@,
        ) && r.distribution.equity.units == spec_equity_payment(
            cash_available@,
            senior_debt@,
            junior_debt@,
        ) && r.explanation@ == spec_waterfall_explanation(
            cash_available@,
            senior_debt@,
            junior_debt@,
        ) && r.warnings.deep_view() == spec_waterfall_warnings(
            cash_available@,
            senior_debt@,
            junior_debt@,
        )),
{
    let mut errors: Vec<String> = Vec::new();
    let mut warnings: Vec<String> = Vec::new();
    if cash_available.is_negative() {
        errors.push(String::from_str("Cash available cannot be negative"));
    }
    if senior_debt.is_negative() {
        errors.push(String::from_str("Senior debt cannot be negative"));
    }
    if junior_debt.is_negative() {
        errors.push(String::from_str("Junior debt cannot be negative"));
    }
    proof {
        assert(errors.deep_view() =~= spec_waterfall_errors(
            cash_available@,
            senior_debt@,
            junior_debt@,
        ));
    }
    if errors.len() > 0 {
        return DistributeWaterfallResponse {
            distribution: DistributeWaterfallResult {
                senior: Decimal::zero(),
                junior: Decimal::zero(),
                equity: Decimal::zero(),
            },
            explanation: String::from_str("Waterfall distribution failed due to invalid inputs"),
            errors,
            warnings,
        };
    }
    let senior_payment = cash_available.min_of(senior_debt);
    let rem1 = cash_available.sub(senior_payment);
    let junior_payment = rem1.min_of(junior_debt);
    let equity = rem1.sub(junior_payment);
    let mut e: Vec<char> = Vec::new();
    push_chars_of(&mut e, "Starting cash: ");
    push_fixed2(&mut e, cash_available);
    push_chars_of(&mut e, ". ");
    senior_segment(&mut e, &mut warnings, senior_payment, senior_debt);
    push_chars_of(&mut e, ". ");
    push_chars_of(&mut e, "Remaining after senior: ");
    push_fixed2(&mut e, rem1);
    push_chars_of(&mut e, ". ");
    junior_segment(&mut e, &mut warnings, junior_payment, junior_debt);
    push_chars_of(&mut e, ". ");
    push_chars_of(&mut e, "Remaining for equity: ");
    push_fixed2(&mut e, equity);
    push_chars_of(&mut e, ". ");
    if equity.units > 0 {
        push_chars_of(&mut e, "Equity distribution: ");
        push_fixed2(&mut e, equity);
    } else {
        push_chars_of(&mut e, "No funds available for equity");
    }
    let total = senior_debt.add(junior_debt);
    if cash_available.units < total.units {
        let mut w: Vec<char> = Vec::new();
        push_chars_of(&mut w, "Insufficient cash: ");
        push_fixed2(&mut w, cash_available);
        push_chars_of(&mut w, " available vs ");
        push_fixed2(&mut w, total);
        push_chars_of(&mut w, " total debt");
        warnings.push(string_of(&w));
    }
    proof {
        assert(e@ =~= spec_waterfall_explanation(cash_available@, senior_debt@, junior_debt@));
        assert(warnings.deep_view() =~= spec_waterfall_warnings(
            cash_available@,
            senior_debt@,
            junior_debt@,
        ));
    }
    DistributeWaterfallResponse {
        distribution: DistributeWaterfallResult {
            senior: senior_payment,
            junior: junior_payment,
            equity,
        },
        explanation: string_of(&e),
        errors,
        warnings,
    }
}

} // verus!
