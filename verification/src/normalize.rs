//! Input normalization.
//!
//! A caller may supply a field as a native number, a native boolean, or
//! text. Each field class has a total conversion to the canonical text the
//! typed parsers consume; a combination with no defined conversion is a
//! typed error, never a silent cast. In particular, a number with a
//! non-zero fractional part offered to an integer field is rejected.

use vstd::prelude::*;

use crate::decimal::Decimal;
use crate::decimal::UNITS_PER_ONE;
use crate::render::push_int;
use crate::render::push_shortest;
use crate::render::spec_int_digits;
use crate::render::spec_shortest;
use crate::text::push_chars_of;
use crate::text::string_of;

verus! {

/// A field value as the caller presented it.
pub enum RawField {
    Int(i64),
    Number(Decimal),
    Flag(bool),
    Text(String),
}

/// Outcome of normalizing a value into a numeric field.
pub open spec fn spec_normalize_numeric(v: RawField) -> Result<Seq<char>, Seq<char>> {
    match v {
        RawField::Int(n) => Ok(spec_int_digits(n as int)),
        RawField::Number(d) => Ok(spec_shortest(d.units as int)),
        RawField::Text(t) => Ok(t@),
        RawField::Flag(_) => Err("a number or a string representing a number"@),
    }
}

/// Outcome of normalizing a value into an integer field.
pub open spec fn spec_normalize_integer(v: RawField) -> Result<Seq<char>, Seq<char>> {
    match v {
        RawField::Int(n) => Ok(spec_int_digits(n as int)),
        RawField::Number(d) => if (d.units as int) % (UNITS_PER_ONE as int) == 0 {
            Ok(spec_int_digits((d.units as int) / (UNITS_PER_ONE as int)))
        } else {
            Err("Expected integer, got float: "@ + spec_shortest(d.units as int))
        },
        RawField::Text(t) => Ok(t@),
        RawField::Flag(_) => Err("an integer or a string representing an integer"@),
    }
}

/// Outcome of normalizing a value into a boolean field.
pub open spec fn spec_normalize_boolean(v: RawField) -> Result<Seq<char>, Seq<char>> {
    match v {
        RawField::Flag(b) => Ok(
            if b {
                "true"@
            } else {
                "false"@
            },
        ),
        RawField::Text(t) => Ok(t@),
        RawField::Int(_) => Err("a boolean or a string representing a boolean"@),
        RawField::Number(_) => Err("a boolean or a string representing a boolean"@),
    }
}

/// Normalizes a caller value into the canonical text of a numeric field.
pub fn normalize_numeric(v: &RawField) -> (r: Result<String, String>)
    requires
        v matches RawField::Number(d) ==> d.amount_in_range(),
    ensures
        match (r, spec_normalize_numeric(*v)) {
            (Ok(s), Ok(t)) => s@ == t,
            (Err(m), Err(e)) => m@ == e,
            _ => false,
        },
{
    match v {
        RawField::Int(n) => {
            let mut out: Vec<char> = Vec::new();
            push_int(&mut out, *n as i128);
            Ok(string_of(&out))
        },
        RawField::Number(d) => {
            let mut out: Vec<char> = Vec::new();
            push_shortest(&mut out, *d);
            Ok(string_of(&out))
        },
        RawField::Text(t) => Ok(t.clone()),
        RawField::Flag(_) => Err(String::from_str("a number or a string representing a number")),
    }
}

/// Normalizes a caller value into the canonical text of an integer field.
/// A number with a non-zero fractional part is a typed error.
pub fn normalize_integer(v: &RawField) -> (r: Result<String, String>)
    requires
        v matches RawField::Number(d) ==> d.amount_in_range(),
    ensures
        match (r, spec_normalize_integer(*v)) {
            (Ok(s), Ok(t)) => s@ == t,
            (Err(m), Err(e)) => m@ == e,
            _ => false,
        },
{
    match v {
        RawField::Int(n) => {
            let mut out: Vec<char> = Vec::new();
            push_int(&mut out, *n as i128);
            Ok(string_of(&out))
        },
        RawField::Number(d) => {
            let whole: i128 = if d.units < 0 {
                -((-d.units) / UNITS_PER_ONE)
            } else {
                d.units / UNITS_PER_ONE
            };
            let frac: i128 = if d.units < 0 {
                (-d.units) % UNITS_PER_ONE
            } else {
                d.units % UNITS_PER_ONE
            };
            if frac == 0 {
                proof {
                    vstd::arithmetic::div_mod::lemma_fundamental_div_mod(
                        (if d.units < 0 {
                            -(d.units as int)
                        } else {
                            d.units as int
                        }),
                        UNITS_PER_ONE as int,
                    );
                    if d.units < 0 {
                        assert((-(d.units as int)) % (UNITS_PER_ONE as int) == 0);
                        vstd::arithmetic::div_mod::lemma_div_multiples_vanish(
                            -(whole as int),
                            UNITS_PER_ONE as int,
                        );
                        assert((d.units as int) % (UNITS_PER_ONE as int) == 0);
                        vstd::arithmetic::div_mod::lemma_fundamental_div_mod(
                            d.units as int,
                            UNITS_PER_ONE as int,
                        );
                        vstd::arithmetic::div_mod::lemma_div_multiples_vanish(
                            whole as int,
                            UNITS_PER_ONE as int,
                        );
                    }
                }
                let mut out: Vec<char> = Vec::new();
                push_int(&mut out, whole);
                Ok(string_of(&out))
            } else {
                proof {
                    if d.units >= 0 {
                    } else {
                        vstd::arithmetic::div_mod::lemma_mod_neg_neg(
                            d.units as int,
                            UNITS_PER_ONE as int,
                        );
                    }
                }
                let mut out: Vec<char> = Vec::new();
                push_chars_of(&mut out, "Expected integer, got float: ");
                push_shortest(&mut out, *d);
                proof {
                    assert(out@ =~= "Expected integer, got float: "@ + spec_shortest(
                        d.units as int,
                    ));
                }
                Err(string_of(&out))
            }
        },
        RawField::Text(t) => Ok(t.clone()),
        RawField::Flag(_) => Err(
            String::from_str("an integer or a string representing an integer"),
        ),
    }
}

/// Normalizes a caller value into the canonical text of a boolean field.
pub fn normalize_boolean(v: &RawField) -> (r: Result<String, String>)
    ensures
        match (r, spec_normalize_boolean(*v)) {
            (Ok(s), Ok(t)) => s@ == t,
            (Err(m), Err(e)) => m@ == e,
            _ => false,
        },
{
    match v {
        RawField::Flag(b) => {
            if *b {
                Ok(String::from_str("true"))
            } else {
                Ok(String::from_str("false"))
            }
        },
        RawField::Text(t) => Ok(t.clone()),
        RawField::Int(_) => Err(String::from_str("a boolean or a string representing a boolean")),
        RawField::Number(_) => Err(
            String::from_str("a boolean or a string representing a boolean"),
        ),
    }
}

} // verus!
