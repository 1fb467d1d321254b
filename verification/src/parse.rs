//! Typed parsers for caller-supplied text.
//!
//! All three parsers share one shape: trim whitespace, run the security
//! screen, reject the empty string, strip known formatting characters,
//! parse. Failure messages embed only the sanitized image of the input.

use vstd::prelude::*;

use crate::decimal::AMOUNT_LIMIT;
use crate::decimal::Decimal;
use crate::security::sanitize_chars;
use crate::security::spec_sanitize;
use crate::security::spec_validate;
use crate::security::validate_chars;
use crate::text::is_space;
use crate::text::push_chars;
use crate::text::push_chars_of;
use crate::text::spec_is_space;
use crate::text::string_of;
use crate::text::str_chars;

verus! {

/// A decimal digit.
pub open spec fn spec_is_digit(c: char) -> bool {
    0x30 <= (c as u32) && (c as u32) <= 0x39
}

/// Numeric value of a decimal digit.
pub open spec fn spec_digit_val(c: char) -> int {
    (c as u32) - 0x30
}

/// `s` without leading whitespace.
pub open spec fn spec_trim_start(s: Seq<char>) -> Seq<char>
    decreases s.len(),
{
    if s.len() > 0 && spec_is_space(s[0]) {
        spec_trim_start(s.drop_first())
    } else {
        s
    }
}

/// `s` without trailing whitespace.
pub open spec fn spec_trim_end(s: Seq<char>) -> Seq<char>
    decreases s.len(),
{
    if s.len() > 0 && spec_is_space(s.last()) {
        spec_trim_end(s.drop_last())
    } else {
        s
    }
}

/// `s` without leading and trailing whitespace.
pub open spec fn spec_trim(s: Seq<char>) -> Seq<char> {
    spec_trim_end(spec_trim_start(s))
}

/// The characters of `s` without leading and trailing whitespace.
pub fn trim_chars(v: &Vec<char>) -> (r: Vec<char>)
    ensures
        r@ == spec_trim(v@),
{
    let n = v.len();
    let mut lo: usize = 0;
    proof {
        assert(v@.skip(0) =~= v@);
    }
    while lo < n && is_space(v[lo])
        invariant
            n == v@.len(),
            lo <= n,
            spec_trim_start(v@) == spec_trim_start(v@.skip(lo as int)),
        decreases n - lo,
    {
        proof {
            assert(v@.skip(lo as int).drop_first() =~= v@.skip(lo + 1));
        }
        lo = lo + 1;
    }
    proof {
        assert(spec_trim_start(v@) =~= v@.skip(lo as int));
    }
    let mut hi: usize = n;
    while hi > lo && is_space(v[hi - 1])
        invariant
            n == v@.len(),
            lo <= hi <= n,
            spec_trim_start(v@) == v@.skip(lo as int),
            spec_trim_end(v@.skip(lo as int)) == spec_trim_end(v@.subrange(lo as int, hi as int)),
        decreases hi,
    {
        proof {
            assert(v@.subrange(lo as int, hi as int).drop_last() =~= v@.subrange(
                lo as int,
                hi - 1,
            ));
        }
        hi = hi - 1;
    }
    proof {
        assert(v@.skip(lo as int) =~= v@.subrange(lo as int, n as int));
        assert(spec_trim_end(v@.subrange(lo as int, hi as int)) =~= v@.subrange(
            lo as int,
            hi as int,
        ));
    }
    let mut out: Vec<char> = Vec::new();
    let mut i: usize = lo;
    while i < hi
        invariant
            n == v@.len(),
            lo <= i <= hi <= n,
            out@ == v@.subrange(lo as int, i as int),
        decreases hi - i,
    {
        out.push(v[i]);
        i = i + 1;
        proof {
            assert(out@ =~= v@.subrange(lo as int, i as int));
        }
    }
    out
}

/// A character the numeric parser keeps: everything but the formatting
/// characters it strips (comma, currency signs, percent).
pub open spec fn spec_keep_numeric(c: char) -> bool {
    c != ',' && c != '$' && c != '€' && c != '£' && c != '¥' && c != '%'
}

/// `s` with the numeric formatting characters removed.
pub open spec fn spec_clean_numeric(s: Seq<char>) -> Seq<char>
    decreases s.len(),
{
    if s.len() == 0 {
        Seq::<char>::empty()
    } else {
        spec_clean_numeric(s.drop_last()) + if spec_keep_numeric(s.last()) {
            seq![s.last()]
        } else {
            Seq::<char>::empty()
        }
    }
}

/// `s` with thousands separators removed.
pub open spec fn spec_clean_integer(s: Seq<char>) -> Seq<char>
    decreases s.len(),
{
    if s.len() == 0 {
        Seq::<char>::empty()
    } else {
        spec_clean_integer(s.drop_last()) + if s.last() != ',' {
            seq![s.last()]
        } else {
            Seq::<char>::empty()
        }
    }
}

/// Removes the numeric formatting characters.
fn clean_numeric(v: &Vec<char>) -> (r: Vec<char>)
    ensures
        r@ == spec_clean_numeric(v@),
{
    let n = v.len();
    let mut out: Vec<char> = Vec::new();
    let mut i: usize = 0;
    while i < n
        invariant
            n == v@.len(),
            i <= n,
            out@ == spec_clean_numeric(v@.take(i as int)),
        decreases n - i,
    {
        let c = v[i];
        if !(c == ',' || c == '$' || c == '€' || c == '£' || c == '¥' || c == '%') {
            out.push(c);
        }
        i = i + 1;
        proof {
            assert(v@.take(i as int).drop_last() =~= v@.take(i - 1));
            assert(out@ =~= spec_clean_numeric(v@.take(i as int)));
        }
    }
    proof {
        assert(v@.take(n as int) =~= v@);
    }
    out
}

/// Removes thousands separators.
fn clean_integer(v: &Vec<char>) -> (r: Vec<char>)
    ensures
        r@ == spec_clean_integer(v@),
{
    let n = v.len();
    let mut out: Vec<char> = Vec::new();
    let mut i: usize = 0;
    while i < n
        invariant
            n == v@.len(),
            i <= n,
            out@ == spec_clean_integer(v@.take(i as int)),
        decreases n - i,
    {
        let c = v[i];
        if c != ',' {
            out.push(c);
        }
        i = i + 1;
        proof {
            assert(v@.take(i as int).drop_last() =~= v@.take(i - 1));
            assert(out@ =~= spec_clean_integer(v@.take(i as int)));
        }
    }
    proof {
        assert(v@.take(n as int) =~= v@);
    }
    out
}

/// Whether a cleaned literal starts with an explicit sign.
pub open spec fn spec_has_sign(s: Seq<char>) -> bool {
    s.len() > 0 && (s[0] == '+' || s[0] == '-')
}

/// Whether a cleaned literal denotes a negative number.
pub open spec fn spec_is_negative(s: Seq<char>) -> bool {
    s.len() > 0 && s[0] == '-'
}

/// The literal after its sign, if any.
pub open spec fn spec_body(s: Seq<char>) -> Seq<char> {
    if spec_has_sign(s) {
        s.drop_first()
    } else {
        s
    }
}

/// Every character is a decimal digit.
pub open spec fn spec_all_digits(s: Seq<char>) -> bool {
    forall|i: int| 0 <= i < s.len() ==> spec_is_digit(#[trigger] s[i])
}

/// Value of a digit string, most significant digit first.
pub open spec fn spec_digits_val(s: Seq<char>) -> int
    decreases s.len(),
{
    if s.len() == 0 {
        0
    } else {
        spec_digits_val(s.drop_last()) * 10 + spec_digit_val(s.last())
    }
}

/// ASCII-lowercase image of one character.
pub open spec fn spec_ascii_lower(c: char) -> char {
    if c == 'A' {
        'a'
    } else if c == 'B' {
        'b'
    } else if c == 'C' {
        'c'
    } else if c == 'D' {
        'd'
    } else if c == 'E' {
        'e'
    } else if c == 'F' {
        'f'
    } else if c == 'G' {
        'g'
    } else if c == 'H' {
        'h'
    } else if c == 'I' {
        'i'
    } else if c == 'J' {
        'j'
    } else if c == 'K' {
        'k'
    } else if c == 'L' {
        'l'
    } else if c == 'M' {
        'm'
    } else if c == 'N' {
        'n'
    } else if c == 'O' {
        'o'
    } else if c == 'P' {
        'p'
    } else if c == 'Q' {
        'q'
    } else if c == 'R' {
        'r'
    } else if c == 'S' {
        's'
    } else if c == 'T' {
        't'
    } else if c == 'U' {
        'u'
    } else if c == 'V' {
        'v'
    } else if c == 'W' {
        'w'
    } else if c == 'X' {
        'x'
    } else if c == 'Y' {
        'y'
    } else if c == 'Z' {
        'z'
    } else {
        c
    }
}

/// ASCII-lowercase image of one character, executable form.
fn ascii_lower(c: char) -> (r: char)
    ensures
        r == spec_ascii_lower(c),
{
    let u = c as u32;
    if 0x41 <= u && u <= 0x5a {
        if c == 'A' {
            'a'
        } else if c == 'B' {
            'b'
        } else if c == 'C' {
            'c'
        } else if c == 'D' {
            'd'
        } else if c == 'E' {
            'e'
        } else if c == 'F' {
            'f'
        } else if c == 'G' {
            'g'
        } else if c == 'H' {
            'h'
        } else if c == 'I' {
            'i'
        } else if c == 'J' {
            'j'
        } else if c == 'K' {
            'k'
        } else if c == 'L' {
            'l'
        } else if c == 'M' {
            'm'
        } else if c == 'N' {
            'n'
        } else if c == 'O' {
            'o'
        } else if c == 'P' {
            'p'
        } else if c == 'Q' {
            'q'
        } else if c == 'R' {
            'r'
        } else if c == 'S' {
            's'
        } else if c == 'T' {
            't'
        } else if c == 'U' {
            'u'
        } else if c == 'V' {
            'v'
        } else if c == 'W' {
            'w'
        } else if c == 'X' {
            'x'
        } else if c == 'Y' {
            'y'
        } else {
            'z'
        }
    } else {
        c
    }
}

/// The boolean a lowercased literal denotes, if any: the true set is
/// `true/t/yes/y/1/on`, the false set `false/f/no/n/0/off`.
pub open spec fn spec_bool_of(l: Seq<char>) -> Option<bool> {
    if l == "true"@ || l == "t"@ || l == "yes"@ || l == "y"@ || l == "1"@ || l == "on"@ {
        Some(true)
    } else if l == "false"@ || l == "f"@ || l == "no"@ || l == "n"@ || l == "0"@ || l == "off"@ {
        Some(false)
    } else {
        None
    }
}

/// Outcome of boolean parsing on raw text: the value, or the error message.
pub open spec fn spec_parse_bool(raw: Seq<char>) -> Result<bool, Seq<char>> {
    let t = spec_trim(raw);
    match spec_validate(t, "boolean"@) {
        Some(m) => Err(m),
        None => {
            if t.len() == 0 {
                Err("Empty string cannot be parsed as boolean"@)
            } else {
                match spec_bool_of(t.map_values(|c: char| spec_ascii_lower(c))) {
                    Some(b) => Ok(b),
                    None => Err(
                        "Cannot parse '"@ + spec_sanitize(t)
                            + "' as a boolean (expected: true/false, yes/no, 1/0, etc.)"@,
                    ),
                }
            }
        },
    }
}

/// Whether the characters of `v` equal the characters of `s`.
fn chars_eq_str(v: &Vec<char>, s: &str) -> (r: bool)
    ensures
        r == (v@ == s@),
{
    let n = s.unicode_len();
    if v.len() != n {
        proof {
            assert(v@.len() != s@.len());
        }
        return false;
    }
    let mut i: usize = 0;
    while i < n
        invariant
            n == s@.len() == v@.len(),
            i <= n,
            forall|j: int| 0 <= j < i ==> v@[j] == s@[j],
        decreases n - i,
    {
        if v[i] != s.get_char(i) {
            return false;
        }
        i = i + 1;
    }
    proof {
        assert(v@ =~= s@);
    }
    true
}

/// Parses text as a boolean, tolerating common representations
/// case-insensitively: `true/t/yes/y/1/on` and `false/f/no/n/0/off`.
pub fn parse_bool_from_string(s: &str) -> (r: Result<bool, String>)
    ensures
        match (r, spec_parse_bool(s@)) {
            (Ok(b), Ok(sb)) => b == sb,
            (Err(m), Err(e)) => m@ == e,
            _ => false,
        },
{
    let chars = str_chars(s);
    let t = trim_chars(&chars);
    if let Err(m) = validate_chars(&t, "boolean") {
        return Err(m);
    }
    if t.len() == 0 {
        return Err(String::from_str("Empty string cannot be parsed as boolean"));
    }
    let n = t.len();
    let mut l: Vec<char> = Vec::new();
    let mut i: usize = 0;
    while i < n
        invariant
            n == t@.len(),
            i <= n,
            l@ == t@.take(i as int).map_values(|c: char| spec_ascii_lower(c)),
        decreases n - i,
    {
        l.push(ascii_lower(t[i]));
        i = i + 1;
        proof {
            assert(l@ =~= t@.take(i as int).map_values(|c: char| spec_ascii_lower(c)));
        }
    }
    proof {
        assert(t@.take(n as int) =~= t@);
    }
    if chars_eq_str(&l, "true") || chars_eq_str(&l, "t") || chars_eq_str(&l, "yes")
        || chars_eq_str(&l, "y") || chars_eq_str(&l, "1") || chars_eq_str(&l, "on") {
        Ok(true)
    } else if chars_eq_str(&l, "false") || chars_eq_str(&l, "f") || chars_eq_str(&l, "no")
        || chars_eq_str(&l, "n") || chars_eq_str(&l, "0") || chars_eq_str(&l, "off") {
        Ok(false)
    } else {
        Err(cannot_parse_msg(&t, "' as a boolean (expected: true/false, yes/no, 1/0, etc.)"))
    }
}

/// Builds `Cannot parse '<sanitized>` followed by `tail`.
fn cannot_parse_msg(t: &Vec<char>, tail: &str) -> (r: String)
    ensures
        r@ == "Cannot parse '"@ + spec_sanitize(t@) + tail@,
{
    let san = sanitize_chars(t);
    let mut msg: Vec<char> = Vec::new();
    push_chars_of(&mut msg, "Cannot parse '");
    push_chars(&mut msg, &san);
    push_chars_of(&mut msg, tail);
    proof {
        assert(msg@ =~= "Cannot parse '"@ + spec_sanitize(t@) + tail@);
    }
    string_of(&msg)
}

/// A signed whole-number literal that fits `i32`: a sign, then one or more
/// digits, with the magnitude within range.
pub open spec fn spec_int_ok(c: Seq<char>) -> bool {
    let b = spec_body(c);
    spec_all_digits(b) && b.len() >= 1 && (if spec_is_negative(c) {
        spec_digits_val(b) <= 0x8000_0000
    } else {
        spec_digits_val(b) <= 0x7fff_ffff
    })
}

/// The value a signed whole-number literal denotes.
pub open spec fn spec_int_value(c: Seq<char>) -> int {
    if spec_is_negative(c) {
        -spec_digits_val(spec_body(c))
    } else {
        spec_digits_val(spec_body(c))
    }
}

/// Outcome of integer parsing on raw text: the value, or the error message.
pub open spec fn spec_parse_i32(raw: Seq<char>) -> Result<int, Seq<char>> {
    let t = spec_trim(raw);
    match spec_validate(t, "integer"@) {
        Some(m) => Err(m),
        None => {
            if t.len() == 0 {
                Err("Empty string cannot be parsed as integer"@)
            } else {
                let c = spec_clean_integer(t);
                if spec_int_ok(c) {
                    Ok(spec_int_value(c))
                } else {
                    Err("Cannot parse '"@ + spec_sanitize(t) + "' as an integer"@)
                }
            }
        },
    }
}

/// Parses text as a signed 32-bit whole number, tolerating thousands
/// separators.
#[verifier::loop_isolation(false)]
pub fn parse_i32_from_string(s: &str) -> (r: Result<i32, String>)
    ensures
        match (r, spec_parse_i32(s@)) {
            (Ok(v), Ok(sv)) => v == sv,
            (Err(m), Err(e)) => m@ == e,
            _ => false,
        },
{
    let chars = str_chars(s);
    let t = trim_chars(&chars);
    if let Err(m) = validate_chars(&t, "integer") {
        return Err(m);
    }
    if t.len() == 0 {
        return Err(String::from_str("Empty string cannot be parsed as integer"));
    }
    let c = clean_integer(&t);
    let clen = c.len();
    let neg = clen > 0 && c[0] == '-';
    let has_sign = clen > 0 && (c[0] == '+' || c[0] == '-');
    let start: usize = if has_sign {
        1
    } else {
        0
    };
    proof {
        if has_sign {
            assert(spec_body(c@) =~= c@.subrange(1, clen as int));
        } else {
            assert(spec_body(c@) =~= c@.subrange(0, clen as int));
        }
    }
    if clen == start {
        proof {
            assert(spec_body(c@).len() == 0);
        }
        return Err(cannot_parse_msg(&t, "' as an integer"));
    }
    let mut j: usize = start;
    while j < clen
        invariant
            clen == c@.len(),
            start <= j <= clen,
            start == (if spec_has_sign(c@) { 1int } else { 0int }),
            forall|k: int| start <= k < j ==> spec_is_digit(#[trigger] c@[k]),
        decreases clen - j,
    {
        let u = c[j] as u32;
        if !(0x30 <= u && u <= 0x39) {
            proof {
                if spec_has_sign(c@) {
                    assert(spec_body(c@) =~= c@.subrange(start as int, clen as int));
                } else {
                    assert(spec_body(c@) =~= c@.subrange(start as int, clen as int));
                }
                assert(spec_body(c@)[j - start] == c@[j as int]);
                assert(!spec_all_digits(spec_body(c@)));
            }
            return Err(cannot_parse_msg(&t, "' as an integer"));
        }
        j = j + 1;
    }
    let mut acc: i64 = 0;
    let mut p: usize = start;
    while p < clen
        invariant
            clen == c@.len(),
            start <= p <= clen,
            forall|k: int| start <= k < clen ==> spec_is_digit(#[trigger] c@[k]),
            0 <= acc <= 0x8000_0001,
            acc == (if spec_digits_val(c@.subrange(start as int, p as int)) >= 0x8000_0001 {
                0x8000_0001int
            } else {
                spec_digits_val(c@.subrange(start as int, p as int))
            }),
        decreases clen - p,
    {
        proof {
            assert(c@.subrange(start as int, p + 1).drop_last() =~= c@.subrange(
                start as int,
                p as int,
            ));
        }
        let d: i64 = ((c[p] as u32) - 0x30) as i64;
        let a10: i64 = acc * 10 + d;
        if a10 > 0x8000_0001 {
            acc = 0x8000_0001;
        } else {
            acc = a10;
        }
        p = p + 1;
    }
    proof {
        assert(spec_body(c@) == c@.subrange(start as int, clen as int));
        assert forall|i: int| 0 <= i < spec_body(c@).len() implies spec_is_digit(
            #[trigger] spec_body(c@)[i],
        ) by {
            assert(spec_body(c@)[i] == c@[start + i]);
        }
    }
    if neg {
        if acc > 0x8000_0000 {
            return Err(cannot_parse_msg(&t, "' as an integer"));
        }
        let v: i32 = (-acc) as i32;
        Ok(v)
    } else {
        if acc > 0x7fff_ffff {
            return Err(cannot_parse_msg(&t, "' as an integer"));
        }
        let v: i32 = acc as i32;
        Ok(v)
    }
}

/// Index of the first `.` in `s`, or `s.len()` if there is none.
pub open spec fn spec_first_dot(s: Seq<char>) -> int
    decreases s.len(),
{
    if s.len() == 0 {
        0
    } else if s[0] == '.' {
        0
    } else {
        1 + spec_first_dot(s.drop_first())
    }
}

/// If no `.` stands before `i` and `i` is the end or a `.`, then `i` is the
/// first-dot index.
pub proof fn lemma_first_dot_at(s: Seq<char>, i: int)
    requires
        0 <= i <= s.len(),
        forall|j: int| 0 <= j < i ==> s[j] != '.',
        i == s.len() || s[i] == '.',
    ensures
        spec_first_dot(s) == i,
    decreases i,
{
    if i == 0 {
    } else {
        assert(s[0] != '.');
        lemma_first_dot_at(s.drop_first(), i - 1);
    }
}

/// The digits before the first dot.
pub open spec fn spec_int_part(s: Seq<char>) -> Seq<char> {
    s.take(spec_first_dot(s))
}

/// The digits after the first dot; empty when there is no dot.
pub open spec fn spec_frac_part(s: Seq<char>) -> Seq<char> {
    if spec_first_dot(s) == s.len() {
        Seq::<char>::empty()
    } else {
        s.skip(spec_first_dot(s) + 1)
    }
}

/// An unsigned decimal literal: digits around at most one dot, with at
/// least one digit somewhere.
pub open spec fn spec_num_shape(b: Seq<char>) -> bool {
    spec_all_digits(spec_int_part(b)) && spec_all_digits(spec_frac_part(b)) && spec_int_part(
        b,
    ).len() + spec_frac_part(b).len() >= 1
}

/// Units contributed by the fractional digits: the first four digits,
/// weighted.
pub open spec fn spec_frac_units(f: Seq<char>) -> int {
    (if f.len() > 0 {
        spec_digit_val(f[0]) * 1000
    } else {
        0int
    }) + (if f.len() > 1 {
        spec_digit_val(f[1]) * 100
    } else {
        0int
    }) + (if f.len() > 2 {
        spec_digit_val(f[2]) * 10
    } else {
        0int
    }) + (if f.len() > 3 {
        spec_digit_val(f[3])
    } else {
        0int
    })
}

/// Whether the fractional digits fit four decimal places: everything past
/// the fourth digit is a zero.
pub open spec fn spec_frac_fits(f: Seq<char>) -> bool {
    forall|i: int| 4 <= i < f.len() ==> f[i] == '0'
}

/// Magnitude, in units, an unsigned decimal literal denotes.
pub open spec fn spec_num_mag(b: Seq<char>) -> int {
    spec_digits_val(spec_int_part(b)) * 10000 + spec_frac_units(spec_frac_part(b))
}

/// Outcome of numeric parsing on raw text: the value in units, or the
/// error message. A literal the engine's four-decimal fixed-point range
/// cannot hold exactly is rejected as an invalid number.
pub open spec fn spec_parse_number(raw: Seq<char>) -> Result<int, Seq<char>> {
    let t = spec_trim(raw);
    match spec_validate(t, "number"@) {
        Some(m) => Err(m),
        None => {
            if t.len() == 0 {
                Err("Empty string cannot be parsed as number"@)
            } else {
                let c = spec_clean_numeric(t);
                let b = spec_body(c);
                if !spec_num_shape(b) {
                    Err("Cannot parse '"@ + spec_sanitize(t) + "' as a number"@)
                } else if !spec_frac_fits(spec_frac_part(b)) || spec_num_mag(b) > AMOUNT_LIMIT {
                    Err("Invalid number: '"@ + spec_sanitize(t) + "'"@)
                } else if spec_is_negative(c) {
                    Ok(-spec_num_mag(b))
                } else {
                    Ok(spec_num_mag(b))
                }
            }
        },
    }
}

/// Parses text as a fixed-point decimal number, tolerating thousands
/// separators, currency signs and percent signs.
#[verifier::loop_isolation(false)]
#[verifier::rlimit(100)]
pub fn parse_decimal_from_string(s: &str) -> (r: Result<Decimal, String>)
    ensures
        match (r, spec_parse_number(s@)) {
            (Ok(d), Ok(u)) => d.units == u,
            (Err(m), Err(e)) => m@ == e,
            _ => false,
        },
        r matches Ok(d) ==> d.amount_in_range(),
{
    let chars = str_chars(s);
    let t = trim_chars(&chars);
    if let Err(m) = validate_chars(&t, "number") {
        return Err(m);
    }
    if t.len() == 0 {
        return Err(String::from_str("Empty string cannot be parsed as number"));
    }
    let c = clean_numeric(&t);
    let clen = c.len();
    let neg = clen > 0 && c[0] == '-';
    let has_sign = clen > 0 && (c[0] == '+' || c[0] == '-');
    let start: usize = if has_sign {
        1
    } else {
        0
    };
    let ghost b = spec_body(c@);
    proof {
        assert(b =~= c@.subrange(start as int, clen as int));
    }
    let mut dot: usize = start;
    while dot < clen && c[dot] != '.'
        invariant
            start <= dot <= clen,
            forall|k: int| start <= k < dot ==> c@[k] != '.',
        decreases clen - dot,
    {
        dot = dot + 1;
    }
    proof {
        assert forall|j: int| 0 <= j < dot - start implies b[j] != '.' by {
            assert(b[j] == c@[start + j]);
        }
        lemma_first_dot_at(b, dot - start);
        assert(spec_int_part(b) =~= c@.subrange(start as int, dot as int));
        if dot < clen {
            assert(spec_frac_part(b) =~= c@.subrange(dot + 1, clen as int));
        }
    }
    let mut j: usize = start;
    while j < clen
        invariant
            start <= j <= clen,
            j <= dot,
            forall|k: int| start <= k < j ==> spec_is_digit(#[trigger] c@[k]),
        decreases clen - j,
    {
        if j == dot {
            break ;
        }
        let u = c[j] as u32;
        if !(0x30 <= u && u <= 0x39) {
            proof {
                assert(spec_int_part(b)[j - start] == c@[j as int]);
                assert(!spec_all_digits(spec_int_part(b)));
            }
            return Err(cannot_parse_msg(&t, "' as a number"));
        }
        j = j + 1;
    }
    proof {
        assert forall|i: int| 0 <= i < spec_int_part(b).len() implies spec_is_digit(
            #[trigger] spec_int_part(b)[i],
        ) by {
            assert(spec_int_part(b)[i] == c@[start + i]);
        }
    }
    if dot < clen {
        let mut q: usize = dot + 1;
        while q < clen
            invariant
                dot + 1 <= q <= clen,
                forall|k: int| dot + 1 <= k < q ==> spec_is_digit(#[trigger] c@[k]),
            decreases clen - q,
        {
            let u = c[q] as u32;
            if !(0x30 <= u && u <= 0x39) {
                proof {
                    assert(spec_frac_part(b)[q - dot - 1] == c@[q as int]);
                    assert(!spec_all_digits(spec_frac_part(b)));
                }
                return Err(cannot_parse_msg(&t, "' as a number"));
            }
            q = q + 1;
        }
        proof {
            assert forall|i: int| 0 <= i < spec_frac_part(b).len() implies spec_is_digit(
                #[trigger] spec_frac_part(b)[i],
            ) by {
                assert(spec_frac_part(b)[i] == c@[dot + 1 + i]);
            }
        }
    }
    let int_len: usize = dot - start;
    let frac_len: usize = if dot < clen {
        clen - dot - 1
    } else {
        0
    };
    if int_len + frac_len == 0 {
        return Err(cannot_parse_msg(&t, "' as a number"));
    }
    proof {
        assert(spec_num_shape(b));
    }
    let mut acc: i128 = 0;
    let mut p: usize = start;
    while p < dot
        invariant
            start <= p <= dot,
            0 <= acc <= 1_000_000_000_000_001,
            acc == (if spec_digits_val(c@.subrange(start as int, p as int))
                >= 1_000_000_000_000_001 {
                1_000_000_000_000_001int
            } else {
                spec_digits_val(c@.subrange(start as int, p as int))
            }),
        decreases dot - p,
    {
        proof {
            assert(c@.subrange(start as int, p + 1).drop_last() =~= c@.subrange(
                start as int,
                p as int,
            ));
        }
        let d: i128 = ((c[p] as u32) - 0x30) as i128;
        let a10: i128 = acc * 10 + d;
        if a10 > 1_000_000_000_000_001 {
            acc = 1_000_000_000_000_001;
        } else {
            acc = a10;
        }
        p = p + 1;
    }
    proof {
        assert(c@.subrange(start as int, dot as int) == spec_int_part(b));
    }
    if acc > 1_000_000_000_000_000 {
        proof {
            let v = spec_digits_val(spec_int_part(b));
            assert(v >= 1_000_000_000_000_001);
            vstd::arithmetic::mul::lemma_mul_inequality(1_000_000_000_000_001, v, 10000);
            assert(spec_frac_units(spec_frac_part(b)) >= 0);
            assert(spec_num_mag(b) > AMOUNT_LIMIT);
        }
        return Err(invalid_number_msg(&t));
    }
    let mut f: i128 = 0;
    if dot < clen {
        let mut q: usize = dot + 1;
        while q < clen
            invariant
                dot + 1 <= q <= clen,
                0 <= f <= 9999,
                f == spec_frac_units(c@.subrange(dot + 1, q as int)),
                forall|k: int| dot + 5 <= k < q ==> c@[k] == '0',
            decreases clen - q,
        {
            let ghost pre = c@.subrange(dot + 1, q as int);
            let ghost post = c@.subrange(dot + 1, q + 1);
            proof {
                assert(post.len() == pre.len() + 1);
                assert(forall|i: int| 0 <= i < pre.len() ==> post[i] == pre[i]);
            }
            let pos: usize = q - dot - 1;
            let d: i128 = ((c[q] as u32) - 0x30) as i128;
            if pos == 0 {
                f = f + d * 1000;
            } else if pos == 1 {
                f = f + d * 100;
            } else if pos == 2 {
                f = f + d * 10;
            } else if pos == 3 {
                f = f + d;
            } else {
                if c[q] != '0' {
                    proof {
                        assert(spec_frac_part(b)[q - dot - 1] == c@[q as int]);
                        assert(!spec_frac_fits(spec_frac_part(b)));
                    }
                    return Err(invalid_number_msg(&t));
                }
            }
            q = q + 1;
        }
        proof {
            assert(c@.subrange(dot + 1, clen as int) == spec_frac_part(b));
            assert(spec_frac_fits(spec_frac_part(b)));
        }
    } else {
        proof {
            assert(spec_frac_part(b).len() == 0);
            assert(spec_frac_fits(spec_frac_part(b)));
        }
    }
    let mag: i128 = acc * 10000 + f;
    proof {
        assert(mag == spec_num_mag(b));
    }
    if mag > AMOUNT_LIMIT {
        return Err(invalid_number_msg(&t));
    }
    if neg {
        Ok(Decimal::from_units(-mag))
    } else {
        Ok(Decimal::from_units(mag))
    }
}

/// Builds `Invalid number: '<sanitized>'`.
fn invalid_number_msg(t: &Vec<char>) -> (r: String)
    ensures
        r@ == "Invalid number: '"@ + spec_sanitize(t@) + "'"@,
{
    let san = sanitize_chars(t);
    let mut msg: Vec<char> = Vec::new();
    push_chars_of(&mut msg, "Invalid number: '");
    push_chars(&mut msg, &san);
    push_chars_of(&mut msg, "'");
    proof {
        assert(msg@ =~= "Invalid number: '"@ + spec_sanitize(t@) + "'"@);
    }
    string_of(&msg)
}

} // verus!
