//! Security validation and sanitization of untrusted text.
//!
//! Raw caller text is screened before any parsing: a length cap, a ban on
//! embedded null characters, and a cap on control characters. Any untrusted
//! text that is echoed back in an error message first passes through the
//! sanitizer, which truncates long text and maps every character that could
//! break a JSON body, a log line or an HTML context to a harmless one.

use vstd::prelude::*;

use crate::text::is_ascii_graphic;
use crate::text::is_control;
use crate::text::push_chars_of;
use crate::text::spec_is_ascii_graphic;
use crate::text::spec_is_control;
use crate::text::string_of;
use crate::text::str_chars;

verus! {

/// Sanitized image of one character: line breaks and tabs become spaces;
/// quotes, backslashes and angle brackets become `?`; printable ASCII and
/// the space pass through; everything else becomes `?`.
pub open spec fn spec_sanitize_char(c: char) -> char {
    if c == '\n' || c == '\r' || c == '\t' {
        ' '
    } else if c == '"' || c == '\'' || c == '`' || c == '\\' || c == '<' || c == '>' {
        '?'
    } else if spec_is_ascii_graphic(c) || c == ' ' {
        c
    } else {
        '?'
    }
}

/// Sanitized rendering of untrusted text: truncated to 47 characters plus
/// `...` when longer than 50 characters, then mapped character by character.
pub open spec fn spec_sanitize(s: Seq<char>) -> Seq<char> {
    if s.len() > 50 {
        s.take(47).map_values(|c: char| spec_sanitize_char(c)) + seq!['.', '.', '.']
    } else {
        s.map_values(|c: char| spec_sanitize_char(c))
    }
}

/// A character that is safe to embed in an error message: not a control
/// character, quote, backtick, backslash or angle bracket.
pub open spec fn spec_safe_char(c: char) -> bool {
    !spec_is_control(c) && c != '"' && c != '\'' && c != '`' && c != '\\' && c != '<' && c != '>'
}

/// Number of control characters in `s`.
pub open spec fn spec_control_count(s: Seq<char>) -> int
    decreases s.len(),
{
    if s.len() == 0 {
        0
    } else {
        spec_control_count(s.drop_last()) + if spec_is_control(s.last()) {
            1int
        } else {
            0int
        }
    }
}

/// Whether `s` holds a null character.
pub open spec fn spec_has_null(s: Seq<char>) -> bool {
    exists|i: int| 0 <= i < s.len() && s[i] == '\0'
}

/// The security check's verdict on raw text for the named field: the error
/// message if the text is rejected, `None` if it is accepted. Checks run in
/// order: length, null characters, control-character count.
pub open spec fn spec_validate(s: Seq<char>, field: Seq<char>) -> Option<Seq<char>> {
    if s.len() > 100 {
        Some("Invalid "@ + field + ": input too long (max 100 characters)"@)
    } else if spec_has_null(s) {
        Some("Invalid "@ + field + ": input contains null bytes"@)
    } else if spec_control_count(s) > 2 {
        Some("Invalid "@ + field + ": input contains too many control characters"@)
    } else {
        None
    }
}

/// Sanitized image of one character, executable form.
pub fn sanitize_char(c: char) -> (r: char)
    ensures
        r == spec_sanitize_char(c),
{
    if c == '\n' || c == '\r' || c == '\t' {
        ' '
    } else if c == '"' || c == '\'' || c == '`' || c == '\\' || c == '<' || c == '>' {
        '?'
    } else if is_ascii_graphic(c) || c == ' ' {
        c
    } else {
        '?'
    }
}

/// Sanitizes the characters of untrusted text for safe inclusion in an
/// error message.
pub fn sanitize_chars(v: &Vec<char>) -> (r: Vec<char>)
    ensures
        r@ == spec_sanitize(v@),
{
    let n = v.len();
    let limit: usize = if n > 50 {
        47
    } else {
        n
    };
    let mut out: Vec<char> = Vec::new();
    let mut i: usize = 0;
    while i < limit
        invariant
            limit <= n == v@.len(),
            i <= limit,
            out@ == v@.take(i as int).map_values(|c: char| spec_sanitize_char(c)),
        decreases limit - i,
    {
        out.push(sanitize_char(v[i]));
        i = i + 1;
        proof {
            assert(out@ =~= v@.take(i as int).map_values(|c: char| spec_sanitize_char(c)));
        }
    }
    if n > 50 {
        out.push('.');
        out.push('.');
        out.push('.');
        proof {
            assert(out@ =~= v@.take(47).map_values(|c: char| spec_sanitize_char(c)) + seq![
                '.',
                '.',
                '.',
            ]);
        }
    } else {
        proof {
            assert(v@.take(n as int) =~= v@);
        }
    }
    out
}

/// Sanitizes untrusted text for safe inclusion in an error message:
/// truncation to 47 characters plus `...` past 50 characters, then the
/// character map of [`spec_sanitize_char`].
pub fn sanitize_for_error_message(input: &str) -> (r: String)
    ensures
        r@ == spec_sanitize(input@),
{
    let chars = str_chars(input);
    let out = sanitize_chars(&chars);
    string_of(&out)
}

/// Screens the characters of raw text: length at most 100, no null
/// characters, at most 2 control characters.
pub fn validate_chars(v: &Vec<char>, field_name: &str) -> (r: Result<(), String>)
    ensures
        r matches Ok(_) ==> spec_validate(v@, field_name@) is None,
        r matches Err(m) ==> spec_validate(v@, field_name@) == Some(m@),
{
    let n = v.len();
    if n > 100 {
        let mut msg: Vec<char> = Vec::new();
        push_chars_of(&mut msg, "Invalid ");
        push_chars_of(&mut msg, field_name);
        push_chars_of(&mut msg, ": input too long (max 100 characters)");
        proof {
            assert(msg@ =~= "Invalid "@ + field_name@ + ": input too long (max 100 characters)"@);
        }
        return Err(string_of(&msg));
    }
    let mut i: usize = 0;
    while i < n
        invariant
            n == v@.len() <= 100,
            i <= n,
            forall|j: int| 0 <= j < i ==> v@[j] != '\0',
        decreases n - i,
    {
        if v[i] == '\0' {
            let mut msg: Vec<char> = Vec::new();
            push_chars_of(&mut msg, "Invalid ");
            push_chars_of(&mut msg, field_name);
            push_chars_of(&mut msg, ": input contains null bytes");
            proof {
                assert(spec_has_null(v@)) by {
                    assert(v@[i as int] == '\0');
                }
                assert(msg@ =~= "Invalid "@ + field_name@ + ": input contains null bytes"@);
            }
            return Err(string_of(&msg));
        }
        i = i + 1;
    }
    let mut count: u32 = 0;
    let mut k: usize = 0;
    while k < n
        invariant
            n == v@.len() <= 100,
            k <= n,
            count == spec_control_count(v@.take(k as int)),
            count <= k,
        decreases n - k,
    {
        if is_control(v[k]) {
            count = count + 1;
        }
        k = k + 1;
        proof {
            assert(v@.take(k as int).drop_last() =~= v@.take(k - 1));
        }
    }
    proof {
        assert(v@.take(n as int) =~= v@);
    }
    if count > 2 {
        let mut msg: Vec<char> = Vec::new();
        push_chars_of(&mut msg, "Invalid ");
        push_chars_of(&mut msg, field_name);
        push_chars_of(&mut msg, ": input contains too many control characters");
        proof {
            assert(msg@ =~= "Invalid "@ + field_name@ + ": input contains too many control characters"@);
        }
        return Err(string_of(&msg));
    }
    Ok(())
}

/// Screens raw text for the named field: length at most 100 characters, no
/// null characters, at most 2 control characters. Returns the error message
/// of the first failed check.
pub fn validate_input_security(input: &str, field_name: &str) -> (r: Result<(), String>)
    ensures
        r matches Ok(_) ==> spec_validate(input@, field_name@) is None,
        r matches Err(m) ==> spec_validate(input@, field_name@) == Some(m@),
{
    let chars = str_chars(input);
    validate_chars(&chars, field_name)
}

/// Law: no character of sanitized text is a control character, quote,
/// backtick, backslash or angle bracket — whatever hostile characters the
/// input held, none of them survives verbatim into an error message.
pub proof fn lemma_sanitize_safe(s: Seq<char>)
    ensures
        forall|i: int|
            0 <= i < spec_sanitize(s).len() ==> spec_safe_char(#[trigger] spec_sanitize(s)[i]),
{
    assert forall|c: char| spec_safe_char(spec_sanitize_char(c)) by {
        if c == '\n' || c == '\r' || c == '\t' {
        } else if c == '"' || c == '\'' || c == '`' || c == '\\' || c == '<' || c == '>' {
        } else if spec_is_ascii_graphic(c) || c == ' ' {
        } else {
        }
    }
    assert(spec_safe_char('.'));
}

} // verus!
