//! Housing-grant eligibility.
//!
//! The income threshold is 60% of the area median income, raised by 10%
//! for households larger than four. A household holding another subsidy is
//! ineligible regardless of income; otherwise eligibility is
//! `income ≤ threshold`. Standing documentation requirements are always
//! appended, with extra notes for large households and near-threshold
//! incomes.

use vstd::prelude::*;

use crate::decimal::Decimal;
use crate::decimal::spec_mul_units;
use crate::render::push_fixed2;
use crate::render::push_int;
use crate::render::spec_fixed2;
use crate::render::spec_int_digits;
use crate::text::push_chars_of;
use crate::text::string_of;

verus! {

/// Result of a housing-grant check: the verdict, the step-by-step
/// explanation, any validation errors, and the additional requirements.
#[derive(Debug, Clone, PartialEq)]
pub struct CheckHousingGrantResponse {
    pub eligible: bool,
    pub explanation: String,
    pub errors: Vec<String>,
    pub additional_requirements: Vec<String>,
}

/// Validation errors for the housing-grant inputs, in check order.
pub open spec fn spec_housing_errors(ami: int, size: int, income: int) -> Seq<Seq<char>> {
    (if ami <= 0 {
        seq!["Area Median Income (AMI) must be positive"@]
    } else {
        Seq::<Seq<char>>::empty()
    }) + (if size <= 0 {
        seq!["Household size must be positive"@]
    } else {
        Seq::<Seq<char>>::empty()
    }) + (if income < 0 {
        seq!["Income cannot be negative"@]
    } else {
        Seq::<Seq<char>>::empty()
    })
}

/// The base income threshold: 60% of the area median income, in units.
pub open spec fn spec_housing_base(ami: int) -> int {
    spec_mul_units(ami, 6000)
}

/// The applicable threshold after the large-household adjustment, in units.
pub open spec fn spec_housing_threshold(ami: int, size: int) -> int {
    if size > 4 {
        spec_mul_units(spec_housing_base(ami), 11000)
    } else {
        spec_housing_base(ami)
    }
}

/// The eligibility verdict for valid inputs.
pub open spec fn spec_housing_eligible(ami: int, size: int, income: int, subsidy: bool) -> bool {
    !subsidy && income <= spec_housing_threshold(ami, size)
}

/// The additional requirements appended to a successful check.
pub open spec fn spec_housing_reqs(ami: int, size: int, income: int, subsidy: bool) -> Seq<
    Seq<char>,
> {
    if subsidy {
        seq!["Must not have any other housing subsidies or assistance"@]
    } else {
        seq![
            "Must provide proof of income documentation"@,
            "Must be a first-time homebuyer or meet other program criteria"@,
        ] + (if size > 4 {
            seq!["Large household size may require additional documentation"@]
        } else {
            Seq::<Seq<char>>::empty()
        }) + (if income > spec_mul_units(spec_housing_threshold(ami, size), 9000) {
            seq!["Income is close to threshold - verify all deductions are included"@]
        } else {
            Seq::<Seq<char>>::empty()
        })
    }
}

/// The opening lines of the explanation: the four inputs, echoed.
pub open spec fn spec_housing_header(ami: int, size: int, income: int, subsidy: bool) -> Seq<
    char,
> {
    "Area Median Income (AMI): "@ + spec_fixed2(ami) + ". "@ + "Household size: "@
        + spec_int_digits(size) + ". "@ + "Household income: "@ + spec_fixed2(income) + ". "@
        + "Has other subsidy: "@ + (if subsidy {
        "Yes"@
    } else {
        "No"@
    }) + ". "@
}

/// Step-by-step explanation of a successful check.
pub open spec fn spec_housing_explanation(ami: int, size: int, income: int, subsidy: bool) -> Seq<
    char,
> {
    spec_housing_header(ami, size, income, subsidy) + (if subsidy {
        "Subsidy check: FAILED (already has another subsidy)"@ + ". "@
            + "Result: NOT ELIGIBLE"@
    } else {
        spec_housing_tail(ami, size, income)
    })
}

/// The threshold-derivation lines of the explanation.
pub open spec fn spec_housing_threshold_lines(ami: int, size: int) -> Seq<char> {
    let base = spec_housing_base(ami);
    let thr = spec_housing_threshold(ami, size);
    "Subsidy check: PASSED (no other subsidies)"@ + ". "@
        + "Base income threshold: 60% of AMI = "@ + spec_fixed2(base) + ". "@ + (if size > 4 {
        "Household size adjustment: "@ + spec_int_digits(size)
            + " > 4, threshold increased by 10% to "@ + spec_fixed2(thr)
    } else {
        "No household size adjustment needed ("@ + spec_int_digits(size) + " ≤ 4)"@
    }) + ". "@
}

/// The verdict lines of the explanation.
pub open spec fn spec_housing_verdict_lines(ami: int, size: int, income: int) -> Seq<char> {
    let thr = spec_housing_threshold(ami, size);
    let elig = income <= thr;
    "Income eligibility: "@ + spec_fixed2(income) + (if elig {
        " ≤ "@
    } else {
        " > "@
    }) + spec_fixed2(thr) + (if elig {
        " - PASSED"@
    } else {
        " - FAILED"@
    }) + ". "@ + "Final result: "@ + (if elig {
        "ELIGIBLE"@
    } else {
        "NOT ELIGIBLE"@
    })
}

/// The explanation lines after the subsidy check, for a household without
/// another subsidy.
pub open spec fn spec_housing_tail(ami: int, size: int, income: int) -> Seq<char> {
    spec_housing_threshold_lines(ami, size) + spec_housing_verdict_lines(ami, size, income)
}

/// Law: a non-positive area median income or household size, or a negative
/// income, always yields the matching validation error; the calculator's
/// contract then forces an ineligible result.
pub proof fn lemma_housing_invalid_rejected(ami: int, size: int, income: int)
    ensures
        ami <= 0 ==> spec_housing_errors(ami, size, income).contains("Area Median Income (AMI) must be positive"@),
        size <= 0 ==> spec_housing_errors(ami, size, income).contains("Household size must be positive"@),
        income < 0 ==> spec_housing_errors(ami, size, income).contains("Income cannot be negative"@),
        (ami <= 0 || size <= 0 || income < 0) ==> spec_housing_errors(ami, size, income).len() > 0,
{
    let s = spec_housing_errors(ami, size, income);
    if ami <= 0 {
        let i = 0int;
        assert(s.contains("Area Median Income (AMI) must be positive"@)) by {
            assert(s[i] == "Area Median Income (AMI) must be positive"@);
        }
    }
    if size <= 0 {
        let i = (if ami <= 0 {
            1int
        } else {
            0int
        });
        assert(s.contains("Household size must be positive"@)) by {
            assert(s[i] == "Household size must be positive"@);
        }
    }
    if income < 0 {
        let i = (if ami <= 0 {
            1int
        } else {
            0int
        }) + (if size <= 0 {
            1int
        } else {
            0int
        });
        assert(s.contains("Income cannot be negative"@)) by {
            assert(s[i] == "Income cannot be negative"@);
        }
    }
}

/// Builds the opening lines of the explanation.
fn housing_header(ami: Decimal, size: i32, income: Decimal, subsidy: bool) -> (e: Vec<char>)
    requires
        ami.amount_in_range(),
        income.amount_in_range(),
    ensures
        e@ == spec_housing_header(ami@, size as int, income@, subsidy),
{
    let mut e: Vec<char> = Vec::new();
    push_chars_of(&mut e, "Area Median Income (AMI): ");
    push_fixed2(&mut e, ami);
    push_chars_of(&mut e, ". ");
    push_chars_of(&mut e, "Household size: ");
    push_int(&mut e, size as i128);
    push_chars_of(&mut e, ". ");
    push_chars_of(&mut e, "Household income: ");
    push_fixed2(&mut e, income);
    push_chars_of(&mut e, ". ");
    push_chars_of(&mut e, "Has other subsidy: ");
    if subsidy {
        push_chars_of(&mut e, "Yes");
    } else {
        push_chars_of(&mut e, "No");
    }
    push_chars_of(&mut e, ". ");
    proof {
        assert(e@ =~= spec_housing_header(ami@, size as int, income@, subsidy));
    }
    e
}

/// Checks housing-grant eligibility. Invalid inputs yield the matching
/// errors and an ineligible, zeroed result; another subsidy is immediately
/// disqualifying; otherwise income is held against the adjusted threshold.
#[verifier::loop_isolation(false)]
#[verifier::rlimit(100)]
pub fn check_housing_grant_internal(
    ami: Decimal,
    household_size: i32,
    income: Decimal,
    has_other_subsidy: bool,
) -> (r: CheckHousingGrantResponse)
    requires
        ami.amount_in_range(),
        income.amount_in_range(),
    ensures
        r.errors.deep_view() == spec_housing_errors(ami@, household_size as int, income@),
        spec_housing_errors(ami@, household_size as int, income@).len() > 0 ==> (!r.eligible
            && r.explanation@ == "Housing grant eligibility check failed due to invalid inputs"@
            && r.additional_requirements@.len() == 0),
        spec_housing_errors(ami@, household_size as int, income@).len() == 0 ==> (r.eligible
            == spec_housing_eligible(ami@, household_size as int, income@, has_other_subsidy)
            && r.explanation@ == spec_housing_explanation(
            ami@,
            household_size as int,
            income@,
            has_other_subsidy,
        ) && r.additional_requirements.deep_view() == spec_housing_reqs(
            ami@,
            household_size as int,
            income@,
            has_other_subsidy,
        )),
{
    let mut errors: Vec<String> = Vec::new();
    let mut additional_requirements: Vec<String> = Vec::new();
    if ami.is_non_positive() {
        errors.push(String::from_str("Area Median Income (AMI) must be positive"));
    }
    if household_size <= 0 {
        errors.push(String::from_str("Household size must be positive"));
    }
    if income.is_negative() {
        errors.push(String::from_str("Income cannot be negative"));
    }
    proof {
        assert(errors.deep_view() =~= spec_housing_errors(ami@, household_size as int, income@));
    }
    if errors.len() > 0 {
        return CheckHousingGrantResponse {
            eligible: false,
            explanation: String::from_str(
                "Housing grant eligibility check failed due to invalid inputs",
            ),
            errors,
            additional_requirements,
        };
    }
    let mut e = housing_header(ami, household_size, income, has_other_subsidy);
    if has_other_subsidy {
        push_chars_of(&mut e, "Subsidy check: FAILED (already has another subsidy)");
        push_chars_of(&mut e, ". ");
        push_chars_of(&mut e, "Result: NOT ELIGIBLE");
        additional_requirements.push(
            String::from_str("Must not have any other housing subsidies or assistance"),
        );
        proof {
            assert(e@ =~= spec_housing_explanation(
                ami@,
                household_size as int,
                income@,
                has_other_subsidy,
            ));
            assert(additional_requirements.deep_view() =~= spec_housing_reqs(
                ami@,
                household_size as int,
                income@,
                has_other_subsidy,
            ));
        }
        return CheckHousingGrantResponse {
            eligible: false,
            explanation: string_of(&e),
            errors,
            additional_requirements,
        };
    }
    let eligible = housing_tail(&mut e, &mut additional_requirements, ami, household_size, income);
    proof {
        assert(e@ =~= spec_housing_explanation(
            ami@,
            household_size as int,
            income@,
            has_other_subsidy,
        ));
    }
    CheckHousingGrantResponse {
        eligible,
        explanation: string_of(&e),
        errors,
        additional_requirements,
    }
}

/// Appends the threshold computation and verdict lines, and the standing
/// requirements, for a household without another subsidy.
#[verifier::rlimit(100)]
fn housing_tail(
    e: &mut Vec<char>,
    reqs: &mut Vec<String>,
    ami: Decimal,
    household_size: i32,
    income: Decimal,
) -> (eligible: bool)
    requires
        ami.amount_in_range(),
        income.amount_in_range(),
        0 <= ami.units,
        0 <= income.units,
    ensures
        eligible == (income@ <= spec_housing_threshold(ami@, household_size as int)),
        final(e)@ == old(e)@ + spec_housing_tail(ami@, household_size as int, income@),
        final(reqs).deep_view() == old(reqs).deep_view() + spec_housing_reqs(
            ami@,
            household_size as int,
            income@,
            false,
        ),
{
    push_chars_of(e, "Subsidy check: PASSED (no other subsidies)");
    push_chars_of(e, ". ");
    let base = ami.mul(Decimal::from_units(6000));
    push_chars_of(e, "Base income threshold: 60% of AMI = ");
    push_fixed2(e, base);
    push_chars_of(e, ". ");
    let threshold = if household_size > 4 {
        let adjusted = base.mul(Decimal::from_units(11000));
        push_chars_of(e, "Household size adjustment: ");
        push_int(e, household_size as i128);
        push_chars_of(e, " > 4, threshold increased by 10% to ");
        push_fixed2(e, adjusted);
        adjusted
    } else {
        push_chars_of(e, "No household size adjustment needed (");
        push_int(e, household_size as i128);
        push_chars_of(e, " ≤ 4)");
        base
    };
    push_chars_of(e, ". ");
    proof {
        assert(e@ =~= old(e)@ + spec_housing_threshold_lines(ami@, household_size as int));
    }
    let eligible = verdict_segment(e, ami, household_size, income, threshold);
    push_standing_reqs(reqs, ami, household_size, income, threshold);
    eligible
}

/// Appends the verdict lines, returning the eligibility result.
#[verifier::rlimit(100)]
fn verdict_segment(
    e: &mut Vec<char>,
    ami: Decimal,
    household_size: i32,
    income: Decimal,
    threshold: Decimal,
) -> (eligible: bool)
    requires
        income.amount_in_range(),
        0 <= threshold.units <= 10_000_000_000_000_000_000i128,
        threshold@ == spec_housing_threshold(ami@, household_size as int),
    ensures
        eligible == (income@ <= spec_housing_threshold(ami@, household_size as int)),
        final(e)@ == old(e)@ + spec_housing_verdict_lines(ami@, household_size as int, income@),
{
    let eligible = income.le(threshold);
    push_chars_of(e, "Income eligibility: ");
    push_fixed2(e, income);
    if eligible {
        push_chars_of(e, " ≤ ");
    } else {
        push_chars_of(e, " > ");
    }
    push_fixed2(e, threshold);
    if eligible {
        push_chars_of(e, " - PASSED");
    } else {
        push_chars_of(e, " - FAILED");
    }
    push_chars_of(e, ". ");
    push_chars_of(e, "Final result: ");
    if eligible {
        push_chars_of(e, "ELIGIBLE");
    } else {
        push_chars_of(e, "NOT ELIGIBLE");
    }
    proof {
        assert(e@ =~= old(e)@ + spec_housing_verdict_lines(
            ami@,
            household_size as int,
            income@,
        ));
    }
    eligible
}

/// Appends the standing documentation requirements and the conditional
/// large-household and near-threshold notes.
#[verifier::rlimit(100)]
fn push_standing_reqs(
    reqs: &mut Vec<String>,
    ami: Decimal,
    household_size: i32,
    income: Decimal,
    threshold: Decimal,
)
    requires
        ami.amount_in_range(),
        income.amount_in_range(),
        0 <= threshold.units <= 10_000_000_000_000_000_000i128,
        threshold@ == spec_housing_threshold(ami@, household_size as int),
    ensures
        final(reqs).deep_view() == old(reqs).deep_view() + spec_housing_reqs(
            ami@,
            household_size as int,
            income@,
            false,
        ),
{
    reqs.push(String::from_str("Must provide proof of income documentation"));
    reqs.push(String::from_str("Must be a first-time homebuyer or meet other program criteria"));
    if household_size > 4 {
        reqs.push(String::from_str("Large household size may require additional documentation"));
    }
    let near = threshold.mul(Decimal::from_units(9000));
    if income.gt(near) {
        reqs.push(
            String::from_str("Income is close to threshold - verify all deductions are included"),
        );
    }
    proof {
        assert(reqs.deep_view() =~= old(reqs).deep_view() + spec_housing_reqs(
            ami@,
            household_size as int,
            income@,
            false,
        ));
    }
}

} // verus!
