//! Progressive income tax with surcharge.
//!
//! Income is walked through the configured brackets in order; each bracket
//! taxes the smaller of the remaining income and the bracket width at its
//! rate. Income beyond the last threshold is taxed at the final rate. A
//! subtotal above the surcharge threshold draws a surcharge on the whole
//! amount.

use vstd::prelude::*;

use crate::decimal::Decimal;
use crate::decimal::spec_mul_trunc;
use crate::render::push_digits;
use crate::render::push_fixed0;
use crate::render::push_fixed2;
use crate::render::push_rate_percent;
use crate::render::spec_digits;
use crate::render::spec_fixed0;
use crate::render::spec_fixed2;
use crate::render::spec_rate_percent;
use crate::text::push_chars_of;
use crate::text::string_of;

verus! {

/// Result of a tax calculation: the final amount, the step-by-step
/// explanation, and any validation errors and warnings.
#[derive(Debug, Clone, PartialEq)]
pub struct CalcTaxResponse {
    pub tax: Decimal,
    pub explanation: String,
    pub errors: Vec<String>,
    pub warnings: Vec<String>,
}

/// The units of each element of a decimal sequence.
pub open spec fn spec_units_of(s: Seq<Decimal>) -> Seq<int> {
    s.map_values(|d: Decimal| d.units as int)
}

/// Thresholds in strictly ascending order.
pub open spec fn spec_ascending(thr: Seq<int>) -> bool {
    forall|i: int| 1 <= i < thr.len() ==> thr[i - 1] < #[trigger] thr[i]
}

/// The bracket-configuration error message for the given counts.
pub open spec fn spec_bracket_config_msg(rlen: int, tlen: int) -> Seq<char> {
    "Invalid bracket configuration: "@ + spec_digits(rlen) + " rates for "@ + spec_digits(tlen)
        + " thresholds (should be "@ + spec_digits(tlen + 1) + " rates)"@
}

/// Validation errors for the tax inputs, in check order.
pub open spec fn spec_tax_errors(
    income: int,
    thr: Seq<int>,
    rts: Seq<int>,
    sthr: int,
    srate: int,
) -> Seq<Seq<char>> {
    (if income < 0 {
        seq!["Income cannot be negative"@]
    } else {
        Seq::<Seq<char>>::empty()
    }) + (if rts.len() != thr.len() + 1 {
        seq![spec_bracket_config_msg(rts.len() as int, thr.len() as int)]
    } else {
        Seq::<Seq<char>>::empty()
    }) + (if sthr < 0 {
        seq!["Surcharge threshold cannot be negative"@]
    } else {
        Seq::<Seq<char>>::empty()
    }) + (if srate < 0 {
        seq!["Surcharge rate cannot be negative"@]
    } else {
        Seq::<Seq<char>>::empty()
    }) + (if !spec_ascending(thr) {
        seq!["Tax thresholds must be in ascending order"@]
    } else {
        Seq::<Seq<char>>::empty()
    })
}

/// Law: a negative income or surcharge parameter to the tax calculation
/// always yields the matching validation error; the calculator's contract
/// then forces a zeroed tax.
pub proof fn lemma_tax_negative_rejected(
    income: int,
    thr: Seq<int>,
    rts: Seq<int>,
    sthr: int,
    srate: int,
)
    ensures
        income < 0 ==> spec_tax_errors(income, thr, rts, sthr, srate).contains(
            "Income cannot be negative"@,
        ),
        sthr < 0 ==> spec_tax_errors(income, thr, rts, sthr, srate).contains(
            "Surcharge threshold cannot be negative"@,
        ),
        srate < 0 ==> spec_tax_errors(income, thr, rts, sthr, srate).contains(
            "Surcharge rate cannot be negative"@,
        ),
        (income < 0 || sthr < 0 || srate < 0) ==> spec_tax_errors(
            income,
            thr,
            rts,
            sthr,
            srate,
        ).len() > 0,
{
    let s = spec_tax_errors(income, thr, rts, sthr, srate);
    if income < 0 {
        assert(s.contains("Income cannot be negative"@)) by {
            assert(s[0] == "Income cannot be negative"@);
        }
    }
    if sthr < 0 {
        let i = (if income < 0 {
            1int
        } else {
            0int
        }) + (if rts.len() != thr.len() + 1 {
            1int
        } else {
            0int
        });
        assert(s.contains("Surcharge threshold cannot be negative"@)) by {
            assert(s[i] == "Surcharge threshold cannot be negative"@);
        }
    }
    if srate < 0 {
        let i = (if income < 0 {
            1int
        } else {
            0int
        }) + (if rts.len() != thr.len() + 1 {
            1int
        } else {
            0int
        }) + (if sthr < 0 {
            1int
        } else {
            0int
        });
        assert(s.contains("Surcharge rate cannot be negative"@)) by {
            assert(s[i] == "Surcharge rate cannot be negative"@);
        }
    }
}

/// One bracket's explanation line, ending with the separator.
pub open spec fn spec_bracket_line(
    num: int,
    prev: int,
    cur: int,
    taxable: int,
    rate: int,
    btax: int,
) -> Seq<char> {
    "Bracket "@ + spec_digits(num) + " ("@ + spec_fixed0(prev) + "-"@ + spec_fixed0(cur) + "): "@
        + spec_fixed2(taxable) + " × "@ + spec_rate_percent(rate) + "% = "@ + spec_fixed2(btax)
        + ". "@
}

/// State after walking the first `i` brackets: accumulated tax, remaining
/// income, and the explanation lines emitted, in units. The walk stops
/// early once no income remains.
pub open spec fn spec_bracket_fold(income: int, thr: Seq<int>, rts: Seq<int>, i: nat) -> (
    int,
    int,
    Seq<char>,
)
    decreases i,
{
    if i == 0 {
        (0, income, Seq::<char>::empty())
    } else {
        let prev = spec_bracket_fold(income, thr, rts, (i - 1) as nat);
        if prev.1 <= 0 {
            prev
        } else {
            let prev_thr = if i == 1 {
                0int
            } else {
                thr[i - 2]
            };
            let width = thr[i - 1] - prev_thr;
            let taxable = if prev.1 > width {
                width
            } else {
                prev.1
            };
            let btax = spec_mul_trunc(taxable, rts[i - 1]);
            (
                prev.0 + btax,
                prev.1 - taxable,
                prev.2 + spec_bracket_line(i as int, prev_thr, thr[i - 1], taxable, rts[i - 1], btax),
            )
        }
    }
}

/// Once no income remains, further brackets change nothing.
proof fn lemma_fold_stable(income: int, thr: Seq<int>, rts: Seq<int>, i: nat, j: nat)
    requires
        i <= j,
        spec_bracket_fold(income, thr, rts, i).1 <= 0,
    ensures
        spec_bracket_fold(income, thr, rts, j) == spec_bracket_fold(income, thr, rts, i),
    decreases j,
{
    if i < j {
        lemma_fold_stable(income, thr, rts, i, (j - 1) as nat);
    }
}

/// The line for income above the last threshold, ending with the
/// separator.
pub open spec fn spec_highest_line(thr: Seq<int>, rts: Seq<int>, rem: int) -> Seq<char> {
    let prev = if thr.len() == 0 {
        0int
    } else {
        thr.last()
    };
    "Highest bracket ("@ + spec_fixed0(prev) + "+): "@ + spec_fixed2(rem) + " × "@
        + spec_rate_percent(rts.last()) + "% = "@ + spec_fixed2(spec_mul_trunc(rem, rts.last()))
        + ". "@
}

/// The pre-surcharge tax reached from bracket tax `tax0` and remaining
/// income `rem`, in units.
pub open spec fn spec_sub_from(rts: Seq<int>, tax0: int, rem: int) -> int {
    tax0 + (if rem > 0 {
        spec_mul_trunc(rem, rts.last())
    } else {
        0int
    })
}

/// The final tax reached from bracket tax `tax0` and remaining income
/// `rem`, surcharge included, in units.
pub open spec fn spec_fin_from(rts: Seq<int>, tax0: int, rem: int, sthr: int, srate: int) -> int {
    let sub = spec_sub_from(rts, tax0, rem);
    sub + (if sub > sthr {
        spec_mul_trunc(sub, srate)
    } else {
        0int
    })
}

/// The tax before any surcharge, in units.
pub open spec fn spec_tax_subtotal(income: int, thr: Seq<int>, rts: Seq<int>) -> int {
    let fold = spec_bracket_fold(income, thr, rts, thr.len());
    spec_sub_from(rts, fold.0, fold.1)
}

/// The surcharge drawn when the subtotal exceeds the threshold, in units.
pub open spec fn spec_tax_surcharge(
    income: int,
    thr: Seq<int>,
    rts: Seq<int>,
    sthr: int,
    srate: int,
) -> int {
    let sub = spec_tax_subtotal(income, thr, rts);
    if sub > sthr {
        spec_mul_trunc(sub, srate)
    } else {
        0int
    }
}

/// The final tax, surcharge included, in units.
pub open spec fn spec_tax_final(
    income: int,
    thr: Seq<int>,
    rts: Seq<int>,
    sthr: int,
    srate: int,
) -> int {
    let fold = spec_bracket_fold(income, thr, rts, thr.len());
    spec_fin_from(rts, fold.0, fold.1, sthr, srate)
}

/// Warnings for a successful tax calculation: a high surcharge rate
/// (over 5%).
pub open spec fn spec_tax_warnings(srate: int) -> Seq<Seq<char>> {
    if srate > 500 {
        seq!["High surcharge rate: "@ + spec_rate_percent(srate) + "%"@]
    } else {
        Seq::<Seq<char>>::empty()
    }
}

/// The subtotal and surcharge explanation lines, given the subtotal.
pub open spec fn spec_surcharge_text(sub: int, sthr: int, srate: int) -> Seq<char> {
    "Subtotal tax: "@ + spec_fixed2(sub) + (if sub > sthr {
        ". "@ + "Surcharge applied (tax "@ + spec_fixed2(sub) + " > "@ + spec_fixed2(sthr) + "): "@
            + spec_fixed2(sub) + " × "@ + spec_rate_percent(srate) + "% = "@ + spec_fixed2(
            spec_mul_trunc(sub, srate),
        ) + ". "@ + "Final tax with surcharge: "@ + spec_fixed2(sub + spec_mul_trunc(sub, srate))
    } else {
        ". "@ + "No surcharge (tax "@ + spec_fixed2(sub) + " ≤ "@ + spec_fixed2(sthr) + ")"@
    })
}

/// The explanation lines from the end of the bracket walk onward.
pub open spec fn spec_tax_tail_text(
    thr: Seq<int>,
    rts: Seq<int>,
    tax0: int,
    rem: int,
    sthr: int,
    srate: int,
) -> Seq<char> {
    (if rem > 0 {
        spec_highest_line(thr, rts, rem)
    } else {
        Seq::<char>::empty()
    }) + spec_surcharge_text(spec_sub_from(rts, tax0, rem), sthr, srate)
}

/// Step-by-step explanation of a successful tax calculation.
pub open spec fn spec_tax_explanation(
    income: int,
    thr: Seq<int>,
    rts: Seq<int>,
    sthr: int,
    srate: int,
) -> Seq<char> {
    let fold = spec_bracket_fold(income, thr, rts, thr.len());
    "Starting income: "@ + spec_fixed2(income) + ". "@ + fold.2 + spec_tax_tail_text(
        thr,
        rts,
        fold.0,
        fold.1,
        sthr,
        srate,
    )
}

/// Builds the bracket-configuration error message.
fn bracket_config_msg(rlen: usize, tlen: usize) -> (r: String)
    requires
        tlen < 1_000_000,
    ensures
        r@ == spec_bracket_config_msg(rlen as int, tlen as int),
{
    let mut m: Vec<char> = Vec::new();
    push_chars_of(&mut m, "Invalid bracket configuration: ");
    push_digits(&mut m, rlen as u128);
    push_chars_of(&mut m, " rates for ");
    push_digits(&mut m, tlen as u128);
    push_chars_of(&mut m, " thresholds (should be ");
    push_digits(&mut m, (tlen + 1) as u128);
    push_chars_of(&mut m, " rates)");
    proof {
        assert(m@ =~= spec_bracket_config_msg(rlen as int, tlen as int));
    }
    string_of(&m)
}

/// Appends one bracket's explanation line.
#[verifier::rlimit(100)]
fn push_bracket_line(
    e: &mut Vec<char>,
    num: usize,
    prev: Decimal,
    cur: Decimal,
    taxable: Decimal,
    rate: Decimal,
    btax: Decimal,
)
    requires
        num < 1_000_000,
        i128::MIN + 5000 < prev.units < i128::MAX - 5000,
        i128::MIN + 5000 < cur.units < i128::MAX - 5000,
        i128::MIN + 50 < taxable.units < i128::MAX - 50,
        rate.rate_in_range(),
        i128::MIN + 50 < btax.units < i128::MAX - 50,
    ensures
        final(e)@ == old(e)@ + spec_bracket_line(
            num as int,
            prev@,
            cur@,
            taxable@,
            rate@,
            btax@,
        ),
{
    push_chars_of(e, "Bracket ");
    push_digits(e, num as u128);
    push_chars_of(e, " (");
    push_fixed0(e, prev);
    push_chars_of(e, "-");
    push_fixed0(e, cur);
    push_chars_of(e, "): ");
    push_fixed2(e, taxable);
    push_chars_of(e, " × ");
    push_rate_percent(e, rate);
    push_chars_of(e, "% = ");
    push_fixed2(e, btax);
    push_chars_of(e, ". ");
    proof {
        assert(e@ =~= old(e)@ + spec_bracket_line(
            num as int,
            prev@,
            cur@,
            taxable@,
            rate@,
            btax@,
        ));
    }
}

/// Whether the thresholds are in strictly ascending order.
#[verifier::loop_isolation(false)]
fn thresholds_ascending(thresholds: &Vec<Decimal>) -> (b: bool)
    ensures
        b == spec_ascending(spec_units_of(thresholds@)),
{
    let ghost tseq = spec_units_of(thresholds@);
    let n = thresholds.len();
    let mut k: usize = 1;
    while k < n
        invariant
            1 <= k <= n || n == 0,
            n == thresholds@.len(),
            forall|j: int| 1 <= j < k ==> tseq[j - 1] < #[trigger] tseq[j],
        decreases n - k,
    {
        if thresholds[k].units <= thresholds[k - 1].units {
            proof {
                assert(tseq[k as int] == thresholds@[k as int].units);
                assert(tseq[k - 1] == thresholds@[k - 1].units);
                if spec_ascending(tseq) {
                    assert(tseq[k - 1] < tseq[k as int]);
                }
            }
            return false;
        }
        k = k + 1;
    }
    proof {
        assert forall|j: int| 1 <= j < tseq.len() implies tseq[j - 1] < #[trigger] tseq[j] by {
        }
    }
    true
}

/// Walks the brackets, appending one line per bracket taxed, and returns
/// the accumulated tax and the remaining income.
#[verifier::loop_isolation(false)]
#[verifier::rlimit(100)]
fn bracket_walk(
    e: &mut Vec<char>,
    income: Decimal,
    thresholds: &Vec<Decimal>,
    rates: &Vec<Decimal>,
) -> (r: (Decimal, Decimal))
    requires
        income.amount_in_range(),
        0 <= income.units,
        thresholds@.len() <= 1000,
        forall|i: int|
            0 <= i < thresholds@.len() ==> (#[trigger] thresholds@[i]).amount_in_range(),
        rates@.len() == thresholds@.len() + 1,
        forall|i: int| 0 <= i < rates@.len() ==> (#[trigger] rates@[i]).rate_in_range(),
        spec_ascending(spec_units_of(thresholds@)),
    ensures
        r.0.units == spec_bracket_fold(
            income@,
            spec_units_of(thresholds@),
            spec_units_of(rates@),
            thresholds@.len(),
        ).0,
        r.1.units == spec_bracket_fold(
            income@,
            spec_units_of(thresholds@),
            spec_units_of(rates@),
            thresholds@.len(),
        ).1,
        final(e)@ == old(e)@ + spec_bracket_fold(
            income@,
            spec_units_of(thresholds@),
            spec_units_of(rates@),
            thresholds@.len(),
        ).2,
        0 <= r.1.units <= 30_000_000_000_000_000_000i128,
        -400_000_000_000_000_000_000_000_000i128 <= r.0.units
            <= 400_000_000_000_000_000_000_000_000i128,
{
    let ghost tseq = spec_units_of(thresholds@);
    let ghost rseq = spec_units_of(rates@);
    let ghost prefix = e@;
    let tlen = thresholds.len();
    let mut tax = Decimal::zero();
    let mut remaining = income;
    let mut i: usize = 0;
    while i < tlen
        invariant
            0 <= i <= tlen,
            tax.units == spec_bracket_fold(income@, tseq, rseq, i as nat).0,
            remaining.units == spec_bracket_fold(income@, tseq, rseq, i as nat).1,
            e@ == prefix + spec_bracket_fold(income@, tseq, rseq, i as nat).2,
            0 <= remaining.units <= 30_000_000_000_000_000_000i128,
            -300_000_000_000_000_000_000_000i128 * (i as i128) <= tax.units
                <= 300_000_000_000_000_000_000_000i128 * (i as i128),
        decreases tlen - i,
    {
        if remaining.is_non_positive() {
            proof {
                lemma_fold_stable(income@, tseq, rseq, i as nat, tlen as nat);
                assert((300_000_000_000_000_000_000_000int) * (i as int)
                    <= 400_000_000_000_000_000_000_000_000int) by (nonlinear_arith)
                    requires
                        0 <= i <= 1000,
                ;
            }
            return (tax, remaining);
        }
        let prev_thr = if i == 0 {
            Decimal::zero()
        } else {
            thresholds[i - 1]
        };
        let width = thresholds[i].sub(prev_thr);
        let taxable = if remaining.gt(width) {
            width
        } else {
            remaining
        };
        proof {
            if i >= 1 {
                assert(tseq[i - 1] < tseq[i as int]);
            }
            crate::decimal::lemma_mul_trunc_bound(
                taxable.units as int,
                rates@[i as int].units as int,
                30_000_000_000_000_000_000,
                100_000_000,
            );
            assert((300_000_000_000_000_000_000_000int) * ((i + 1) as int) == (
            300_000_000_000_000_000_000_000int) * (i as int)
                + 300_000_000_000_000_000_000_000int) by (nonlinear_arith);
            assert((300_000_000_000_000_000_000_000int) * (i as int)
                <= 300_000_000_000_000_000_000_000_000int) by (nonlinear_arith)
                requires
                    0 <= i <= 1000,
            ;
        }
        let btax = taxable.mul_trunc(rates[i]);
        let new_tax = tax.add(btax);
        let new_remaining = remaining.sub(taxable);
        push_bracket_line(&mut *e, i + 1, prev_thr, thresholds[i], taxable, rates[i], btax);
        tax = new_tax;
        remaining = new_remaining;
        i = i + 1;
    }
    proof {
        assert((300_000_000_000_000_000_000_000int) * (i as int)
            <= 400_000_000_000_000_000_000_000_000int) by (nonlinear_arith)
            requires
                0 <= i <= 1000,
        ;
    }
    (tax, remaining)
}

/// Appends the highest-bracket line when income remains, returning the
/// pre-surcharge subtotal.
#[verifier::loop_isolation(false)]
#[verifier::rlimit(100)]
fn highest_segment(
    e: &mut Vec<char>,
    tax0: Decimal,
    remaining: Decimal,
    thresholds: &Vec<Decimal>,
    rates: &Vec<Decimal>,
) -> (sub: Decimal)
    requires
        rates@.len() == thresholds@.len() + 1,
        thresholds@.len() <= 1000,
        forall|i: int|
            0 <= i < thresholds@.len() ==> (#[trigger] thresholds@[i]).amount_in_range(),
        forall|i: int| 0 <= i < rates@.len() ==> (#[trigger] rates@[i]).rate_in_range(),
        0 <= remaining.units <= 30_000_000_000_000_000_000i128,
        -400_000_000_000_000_000_000_000_000i128 <= tax0.units
            <= 400_000_000_000_000_000_000_000_000i128,
    ensures
        sub.units == spec_sub_from(spec_units_of(rates@), tax0@, remaining@),
        -500_000_000_000_000_000_000_000_000i128 <= sub.units
            <= 500_000_000_000_000_000_000_000_000i128,
        final(e)@ == old(e)@ + (if remaining@ > 0 {
            spec_highest_line(spec_units_of(thresholds@), spec_units_of(rates@), remaining@)
        } else {
            Seq::<char>::empty()
        }),
{
    let ghost tseq = spec_units_of(thresholds@);
    let ghost rseq = spec_units_of(rates@);
    let tlen = thresholds.len();
    let rlen = rates.len();
    if remaining.units > 0 {
        let last_rate = rates[rlen - 1];
        proof {
            crate::decimal::lemma_mul_trunc_bound(
                remaining.units as int,
                last_rate.units as int,
                30_000_000_000_000_000_000,
                100_000_000,
            );
        }
        let hb = remaining.mul_trunc(last_rate);
        let sub = tax0.add(hb);
        let prev_disp = if tlen == 0 {
            Decimal::zero()
        } else {
            thresholds[tlen - 1]
        };
        push_chars_of(e, "Highest bracket (");
        push_fixed0(e, prev_disp);
        push_chars_of(e, "+): ");
        push_fixed2(e, remaining);
        push_chars_of(e, " × ");
        push_rate_percent(e, last_rate);
        push_chars_of(e, "% = ");
        push_fixed2(e, hb);
        push_chars_of(e, ". ");
        proof {
            assert(e@ =~= old(e)@ + spec_highest_line(tseq, rseq, remaining@));
        }
        sub
    } else {
        proof {
            assert(e@ =~= old(e)@ + Seq::<char>::empty());
        }
        tax0
    }
}

/// Appends the subtotal and surcharge lines, returning the final tax.
#[verifier::loop_isolation(false)]
#[verifier::rlimit(100)]
fn surcharge_segment(
    e: &mut Vec<char>,
    subtotal: Decimal,
    surcharge_threshold: Decimal,
    surcharge_rate: Decimal,
) -> (fin: Decimal)
    requires
        -500_000_000_000_000_000_000_000_000i128 <= subtotal.units
            <= 500_000_000_000_000_000_000_000_000i128,
        surcharge_threshold.amount_in_range(),
        surcharge_rate.rate_in_range(),
    ensures
        fin.units == subtotal@ + (if subtotal@ > surcharge_threshold@ {
            spec_mul_trunc(subtotal@, surcharge_rate@)
        } else {
            0int
        }),
        final(e)@ == old(e)@ + spec_surcharge_text(
            subtotal@,
            surcharge_threshold@,
            surcharge_rate@,
        ),
{
    push_chars_of(e, "Subtotal tax: ");
    push_fixed2(e, subtotal);
    if subtotal.gt(surcharge_threshold) {
        proof {
            crate::decimal::lemma_mul_trunc_bound(
                subtotal.units as int,
                surcharge_rate.units as int,
                500_000_000_000_000_000_000_000_000,
                100_000_000,
            );
        }
        let surcharge = subtotal.mul_trunc(surcharge_rate);
        let final_tax = subtotal.add(surcharge);
        push_chars_of(e, ". ");
        push_chars_of(e, "Surcharge applied (tax ");
        push_fixed2(e, subtotal);
        push_chars_of(e, " > ");
        push_fixed2(e, surcharge_threshold);
        push_chars_of(e, "): ");
        push_fixed2(e, subtotal);
        push_chars_of(e, " × ");
        push_rate_percent(e, surcharge_rate);
        push_chars_of(e, "% = ");
        push_fixed2(e, surcharge);
        push_chars_of(e, ". ");
        push_chars_of(e, "Final tax with surcharge: ");
        push_fixed2(e, final_tax);
        proof {
            assert(e@ =~= old(e)@ + spec_surcharge_text(
                subtotal@,
                surcharge_threshold@,
                surcharge_rate@,
            ));
        }
        final_tax
    } else {
        push_chars_of(e, ". ");
        push_chars_of(e, "No surcharge (tax ");
        push_fixed2(e, subtotal);
        push_chars_of(e, " ≤ ");
        push_fixed2(e, surcharge_threshold);
        push_chars_of(e, ")");
        proof {
            assert(e@ =~= old(e)@ + spec_surcharge_text(
                subtotal@,
                surcharge_threshold@,
                surcharge_rate@,
            ));
        }
        subtotal
    }
}

/// Calculates progressive tax with surcharge. Invalid inputs — negative
/// income, a rate count that does not exceed the threshold count by one,
/// negative surcharge parameters, thresholds out of order — yield the
/// matching errors and a zeroed result.
#[verifier::loop_isolation(false)]
#[verifier::rlimit(100)]
pub fn calc_tax_internal(
    income: Decimal,
    thresholds: &Vec<Decimal>,
    rates: &Vec<Decimal>,
    surcharge_threshold: Decimal,
    surcharge_rate: Decimal,
) -> (r: CalcTaxResponse)
    requires
        income.amount_in_range(),
        thresholds@.len() <= 1000,
        forall|i: int|
            0 <= i < thresholds@.len() ==> (#[trigger] thresholds@[i]).amount_in_range(),
        rates@.len() <= 1001,
        forall|i: int| 0 <= i < rates@.len() ==> (#[trigger] rates@[i]).rate_in_range(),
        surcharge_threshold.amount_in_range(),
        surcharge_rate.rate_in_range(),
    ensures
        r.errors.deep_view() == spec_tax_errors(
            income@,
            spec_units_of(thresholds@),
            spec_units_of(rates@),
            surcharge_threshold@,
            surcharge_rate@,
        ),
        spec_tax_errors(
            income@,
            spec_units_of(thresholds@),
            spec_units_of(rates@),
            surcharge_threshold@,
            surcharge_rate@,
        ).len() > 0 ==> (r.tax.units == 0 && r.explanation@
            == "Tax calculation failed due to invalid inputs"@ && r.warnings@.len() == 0),
        spec_tax_errors(
            income@,
            spec_units_of(thresholds@),
            spec_units_of(rates@),
            surcharge_threshold@,
            surcharge_rate@,
        ).len() == 0 ==> (r.tax.units == spec_tax_final(
            income@,
            spec_units_of(thresholds@),
            spec_units_of(rates@),
            surcharge_threshold@,
            surcharge_rate@,
        ) && r.explanation@ == spec_tax_explanation(
            income@,
            spec_units_of(thresholds@),
            spec_units_of(rates@),
            surcharge_threshold@,
            surcharge_rate@,
        ) && r.warnings.deep_view() == spec_tax_warnings(surcharge_rate@)),
{
    let ghost tseq = spec_units_of(thresholds@);
    let ghost rseq = spec_units_of(rates@);
    let mut errors: Vec<String> = Vec::new();
    let mut warnings: Vec<String> = Vec::new();
    if income.is_negative() {
        errors.push(String::from_str("Income cannot be negative"));
    }
    let tlen = thresholds.len();
    let rlen = rates.len();
    if rlen != tlen + 1 {
        errors.push(bracket_config_msg(rlen, tlen));
    }
    if surcharge_threshold.is_negative() {
        errors.push(String::from_str("Surcharge threshold cannot be negative"));
    }
    if surcharge_rate.is_negative() {
        errors.push(String::from_str("Surcharge rate cannot be negative"));
    }
    if !thresholds_ascending(thresholds) {
        errors.push(String::from_str("Tax thresholds must be in ascending order"));
    }
    proof {
        assert(errors.deep_view() =~= spec_tax_errors(
            income@,
            tseq,
            rseq,
            surcharge_threshold@,
            surcharge_rate@,
        ));
    }
    if errors.len() > 0 {
        return CalcTaxResponse {
            tax: Decimal::zero(),
            explanation: String::from_str("Tax calculation failed due to invalid inputs"),
            errors,
            warnings,
        };
    }
    let mut e: Vec<char> = Vec::new();
    push_chars_of(&mut e, "Starting income: ");
    push_fixed2(&mut e, income);
    push_chars_of(&mut e, ". ");
    proof {
        assert(spec_ascending(tseq));
    }
    let walked = bracket_walk(&mut e, income, thresholds, rates);
    let subtotal = highest_segment(&mut e, walked.0, walked.1, thresholds, rates);
    let final_tax = surcharge_segment(&mut e, subtotal, surcharge_threshold, surcharge_rate);
    if surcharge_rate.units > 500 {
        let mut w: Vec<char> = Vec::new();
        push_chars_of(&mut w, "High surcharge rate: ");
        push_rate_percent(&mut w, surcharge_rate);
        push_chars_of(&mut w, "%");
        warnings.push(string_of(&w));
    }
    proof {
        assert(e@ =~= spec_tax_explanation(
            income@,
            tseq,
            rseq,
            surcharge_threshold@,
            surcharge_rate@,
        ));
        assert(warnings.deep_view() =~= spec_tax_warnings(surcharge_rate@));
    }
    CalcTaxResponse {
        tax: final_tax,
        explanation: string_of(&e),
        errors,
        warnings,
    }
}

} // verus!
