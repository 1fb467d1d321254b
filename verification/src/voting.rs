//! Vote-passage evaluation.
//!
//! A proposal first needs turnout of at least 60% of eligible voters.
//! A general proposal then needs a strict majority of the votes cast; an
//! amendment needs at least two thirds. Ratios are compared exactly, by
//! cross-multiplication.

use vstd::prelude::*;

use crate::render::push_int;
use crate::render::push_ratio_percent;
use crate::render::spec_int_digits;
use crate::render::spec_ratio_percent;
use crate::security::sanitize_chars;
use crate::security::spec_sanitize;
use crate::text::push_chars;
use crate::text::push_chars_of;
use crate::text::str_chars;
use crate::text::string_of;

verus! {

/// Result of a voting check: the verdict, the step-by-step explanation,
/// and any validation errors and warnings.
#[derive(Debug, Clone, PartialEq)]
pub struct CheckVotingResponse {
    pub passes: bool,
    pub explanation: String,
    pub errors: Vec<String>,
    pub warnings: Vec<String>,
}

/// Validation errors for the voting inputs, in check order.
pub open spec fn spec_voting_errors(e: int, t: int, y: int, pt: Seq<char>) -> Seq<Seq<char>> {
    (if e <= 0 {
        seq!["Eligible voters must be positive"@]
    } else {
        Seq::<Seq<char>>::empty()
    }) + (if t < 0 {
        seq!["Turnout cannot be negative"@]
    } else {
        Seq::<Seq<char>>::empty()
    }) + (if y < 0 {
        seq!["Yes votes cannot be negative"@]
    } else {
        Seq::<Seq<char>>::empty()
    }) + (if t > e {
        seq!["Turnout cannot exceed eligible voters"@]
    } else {
        Seq::<Seq<char>>::empty()
    }) + (if y > t {
        seq!["Yes votes cannot exceed turnout"@]
    } else {
        Seq::<Seq<char>>::empty()
    }) + (if !(pt == "general"@ || pt == "amendment"@) {
        seq![
            "Invalid proposal type '"@ + spec_sanitize(pt)
                + "' (must be 'general' or 'amendment')"@,
        ]
    } else {
        Seq::<Seq<char>>::empty()
    })
}

/// The 60% turnout gate: `t / e >= 0.60`, exactly.
pub open spec fn spec_turnout_met(e: int, t: int) -> bool {
    5 * t >= 3 * e
}

/// The passage verdict for valid inputs: the turnout gate, then the
/// type-specific vote-share gate (`> 1/2` general, `>= 2/3` amendment).
pub open spec fn spec_voting_passes(e: int, t: int, y: int, pt: Seq<char>) -> bool {
    spec_turnout_met(e, t) && (if pt == "general"@ {
        2 * y > t
    } else {
        3 * y >= 2 * t
    })
}

/// Warnings for a successful check that passed the turnout gate: low
/// turnout (under 70%), and no yes votes recorded.
pub open spec fn spec_voting_warnings(e: int, t: int, y: int) -> Seq<Seq<char>> {
    if !spec_turnout_met(e, t) {
        Seq::<Seq<char>>::empty()
    } else {
        (if 10 * t < 7 * e {
            seq!["Low turnout (below 70%)"@]
        } else {
            Seq::<Seq<char>>::empty()
        }) + (if t > 0 && y == 0 {
            seq!["No yes votes recorded"@]
        } else {
            Seq::<Seq<char>>::empty()
        })
    }
}

/// The explanation lines after the turnout gate is met.
pub open spec fn spec_voting_tail(e: int, t: int, y: int, pt: Seq<char>) -> Seq<char> {
    let passes = spec_voting_passes(e, t, y, pt);
    "Turnout requirement: ≥60% - PASSED"@ + ". "@ + "Yes votes: "@ + spec_int_digits(y)
        + " out of "@ + spec_int_digits(t) + " ("@ + spec_ratio_percent(y, t) + "%)"@ + ". "@ + (
    if pt == "general"@ {
        "General proposal requirement: >50%"@ + ". "@ + "Vote threshold: "@ + spec_ratio_percent(
            y,
            t,
        ) + "% > 50% - "@ + (if passes {
            "PASSED"@
        } else {
            "FAILED"@
        })
    } else {
        "Amendment requirement: ≥66.7%"@ + ". "@ + "Vote threshold: "@ + spec_ratio_percent(y, t)
            + "% ≥ 66.7% - "@ + (if passes {
            "PASSED"@
        } else {
            "FAILED"@
        })
    }) + ". "@ + "Final result: Proposal "@ + (if passes {
        "PASSES"@
    } else {
        "FAILS"@
    })
}

/// Step-by-step explanation of a successful check.
pub open spec fn spec_voting_explanation(e: int, t: int, y: int, pt: Seq<char>) -> Seq<char> {
    "Turnout: "@ + spec_int_digits(t) + " out of "@ + spec_int_digits(e) + " eligible voters ("@
        + spec_ratio_percent(t, e) + "%)"@ + ". "@ + (if !spec_turnout_met(e, t) {
        "Turnout requirement: ≥60% - FAILED"@ + ". "@
            + "Proposal fails due to insufficient turnout"@
    } else {
        spec_voting_tail(e, t, y, pt)
    })
}

/// Law: a non-positive voter count or a negative count to the voting check
/// always yields the matching validation error; the calculator's contract
/// then forces a failing result.
pub proof fn lemma_voting_invalid_rejected(e: int, t: int, y: int, pt: Seq<char>)
    ensures
        e <= 0 ==> spec_voting_errors(e, t, y, pt).contains("Eligible voters must be positive"@),
        t < 0 ==> spec_voting_errors(e, t, y, pt).contains("Turnout cannot be negative"@),
        y < 0 ==> spec_voting_errors(e, t, y, pt).contains("Yes votes cannot be negative"@),
        (e <= 0 || t < 0 || y < 0) ==> spec_voting_errors(e, t, y, pt).len() > 0,
{
    let s = spec_voting_errors(e, t, y, pt);
    if e <= 0 {
        let i = 0int;
        assert(s.contains("Eligible voters must be positive"@)) by {
            assert(s[i] == "Eligible voters must be positive"@);
        }
    }
    if t < 0 {
        let i = (if e <= 0 {
            1int
        } else {
            0int
        });
        assert(s.contains("Turnout cannot be negative"@)) by {
            assert(s[i] == "Turnout cannot be negative"@);
        }
    }
    if y < 0 {
        let i = (if e <= 0 {
            1int
        } else {
            0int
        }) + (if t < 0 {
            1int
        } else {
            0int
        });
        assert(s.contains("Yes votes cannot be negative"@)) by {
            assert(s[i] == "Yes votes cannot be negative"@);
        }
    }
}

/// Whether two strings hold the same characters.
fn str_eq(a: &str, b: &str) -> (r: bool)
    ensures
        r == (a@ == b@),
{
    let av = str_chars(a);
    let n = b.unicode_len();
    if av.len() != n {
        proof {
            assert(a@.len() != b@.len());
        }
        return false;
    }
    let mut i: usize = 0;
    while i < n
        invariant
            n == b@.len() == a@.len(),
            av@ == a@,
            i <= n,
            forall|j: int| 0 <= j < i ==> a@[j] == b@[j],
        decreases n - i,
    {
        if av[i] != b.get_char(i) {
            return false;
        }
        i = i + 1;
    }
    proof {
        assert(a@ =~= b@);
    }
    true
}

/// Appends the vote-share lines for a check that passed the turnout gate,
/// returning the verdict.
#[verifier::rlimit(100)]
fn voting_tail(ex: &mut Vec<char>, e: i32, t: i32, y: i32, general: bool, pt: Ghost<Seq<char>>) -> (
    passes: bool)
    requires
        0 < e,
        0 < t <= e,
        0 <= y <= t,
        spec_turnout_met(e as int, t as int),
        general == (pt@ == "general"@),
        pt@ == "general"@ || pt@ == "amendment"@,
    ensures
        passes == spec_voting_passes(e as int, t as int, y as int, pt@),
        final(ex)@ == old(ex)@ + spec_voting_tail(e as int, t as int, y as int, pt@),
{
    push_chars_of(ex, "Turnout requirement: ≥60% - PASSED");
    push_chars_of(ex, ". ");
    push_chars_of(ex, "Yes votes: ");
    push_int(ex, y as i128);
    push_chars_of(ex, " out of ");
    push_int(ex, t as i128);
    push_chars_of(ex, " (");
    push_ratio_percent(ex, y, t);
    push_chars_of(ex, "%)");
    push_chars_of(ex, ". ");
    let passes: bool;
    if general {
        passes = 2 * (y as i64) > (t as i64);
        push_chars_of(ex, "General proposal requirement: >50%");
        push_chars_of(ex, ". ");
        push_chars_of(ex, "Vote threshold: ");
        push_ratio_percent(ex, y, t);
        push_chars_of(ex, "% > 50% - ");
        if passes {
            push_chars_of(ex, "PASSED");
        } else {
            push_chars_of(ex, "FAILED");
        }
    } else {
        passes = 3 * (y as i64) >= 2 * (t as i64);
        push_chars_of(ex, "Amendment requirement: ≥66.7%");
        push_chars_of(ex, ". ");
        push_chars_of(ex, "Vote threshold: ");
        push_ratio_percent(ex, y, t);
        push_chars_of(ex, "% ≥ 66.7% - ");
        if passes {
            push_chars_of(ex, "PASSED");
        } else {
            push_chars_of(ex, "FAILED");
        }
    }
    push_chars_of(ex, ". ");
    push_chars_of(ex, "Final result: Proposal ");
    if passes {
        push_chars_of(ex, "PASSES");
    } else {
        push_chars_of(ex, "FAILS");
    }
    proof {
        assert(ex@ =~= old(ex)@ + spec_voting_tail(e as int, t as int, y as int, pt@));
    }
    passes
}

/// Checks whether a proposal passes. Invalid inputs yield the matching
/// errors and a failing result; insufficient turnout fails the proposal
/// before the vote share is considered.
#[verifier::loop_isolation(false)]
#[verifier::rlimit(100)]
pub fn check_voting_internal(
    eligible_voters: i32,
    turnout: i32,
    yes_votes: i32,
    proposal_type: &str,
) -> (r: CheckVotingResponse)
    ensures
        r.errors.deep_view() == spec_voting_errors(
            eligible_voters as int,
            turnout as int,
            yes_votes as int,
            proposal_type@,
        ),
        spec_voting_errors(
            eligible_voters as int,
            turnout as int,
            yes_votes as int,
            proposal_type@,
        ).len() > 0 ==> (!r.passes && r.explanation@
            == "Voting check failed due to invalid inputs"@ && r.warnings@.len() == 0),
        spec_voting_errors(
            eligible_voters as int,
            turnout as int,
            yes_votes as int,
            proposal_type@,
        ).len() == 0 ==> (r.passes == spec_voting_passes(
            eligible_voters as int,
            turnout as int,
            yes_votes as int,
            proposal_type@,
        ) && r.explanation@ == spec_voting_explanation(
            eligible_voters as int,
            turnout as int,
            yes_votes as int,
            proposal_type@,
        ) && r.warnings.deep_view() == spec_voting_warnings(
            eligible_voters as int,
            turnout as int,
            yes_votes as int,
        )),
{
    let mut errors: Vec<String> = Vec::new();
    let mut warnings: Vec<String> = Vec::new();
    if eligible_voters <= 0 {
        errors.push(String::from_str("Eligible voters must be positive"));
    }
    if turnout < 0 {
        errors.push(String::from_str("Turnout cannot be negative"));
    }
    if yes_votes < 0 {
        errors.push(String::from_str("Yes votes cannot be negative"));
    }
    if turnout > eligible_voters {
        errors.push(String::from_str("Turnout cannot exceed eligible voters"));
    }
    if yes_votes > turnout {
        errors.push(String::from_str("Yes votes cannot exceed turnout"));
    }
    let general = str_eq(proposal_type, "general");
    let amendment = str_eq(proposal_type, "amendment");
    if !(general || amendment) {
        let pt_chars = str_chars(proposal_type);
        let san = sanitize_chars(&pt_chars);
        let mut m: Vec<char> = Vec::new();
        push_chars_of(&mut m, "Invalid proposal type '");
        push_chars(&mut m, &san);
        push_chars_of(&mut m, "' (must be 'general' or 'amendment')");
        proof {
            assert(m@ =~= "Invalid proposal type '"@ + spec_sanitize(proposal_type@)
                + "' (must be 'general' or 'amendment')"@);
        }
        errors.push(string_of(&m));
    }
    proof {
        assert(errors.deep_view() =~= spec_voting_errors(
            eligible_voters as int,
            turnout as int,
            yes_votes as int,
            proposal_type@,
        ));
    }
    if errors.len() > 0 {
        return CheckVotingResponse {
            passes: false,
            explanation: String::from_str("Voting check failed due to invalid inputs"),
            errors,
            warnings,
        };
    }
    let mut ex: Vec<char> = Vec::new();
    push_chars_of(&mut ex, "Turnout: ");
    push_int(&mut ex, turnout as i128);
    push_chars_of(&mut ex, " out of ");
    push_int(&mut ex, eligible_voters as i128);
    push_chars_of(&mut ex, " eligible voters (");
    push_ratio_percent(&mut ex, turnout, eligible_voters);
    push_chars_of(&mut ex, "%)");
    push_chars_of(&mut ex, ". ");
    let met = 5 * (turnout as i64) >= 3 * (eligible_voters as i64);
    if !met {
        push_chars_of(&mut ex, "Turnout requirement: ≥60% - FAILED");
        push_chars_of(&mut ex, ". ");
        push_chars_of(&mut ex, "Proposal fails due to insufficient turnout");
        proof {
            assert(ex@ =~= spec_voting_explanation(
                eligible_voters as int,
                turnout as int,
                yes_votes as int,
                proposal_type@,
            ));
        }
        return CheckVotingResponse {
            passes: false,
            explanation: string_of(&ex),
            errors,
            warnings,
        };
    }
    let passes = voting_tail(
        &mut ex,
        eligible_voters,
        turnout,
        yes_votes,
        general,
        Ghost(proposal_type@),
    );
    if 10 * (turnout as i64) < 7 * (eligible_voters as i64) {
        warnings.push(String::from_str("Low turnout (below 70%)"));
    }
    if turnout > 0 && yes_votes == 0 {
        warnings.push(String::from_str("No yes votes recorded"));
    }
    proof {
        assert(ex@ =~= spec_voting_explanation(
            eligible_voters as int,
            turnout as int,
            yes_votes as int,
            proposal_type@,
        ));
        assert(warnings.deep_view() =~= spec_voting_warnings(
            eligible_voters as int,
            turnout as int,
            yes_votes as int,
        ));
    }
    CheckVotingResponse {
        passes,
        explanation: string_of(&ex),
        errors,
        warnings,
    }
}

} // verus!
