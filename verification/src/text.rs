//! Character classification and conversion between `String` and `Vec<char>`.
//!
//! All text handling in the engine works over sequences of characters.
//! Incoming `&str` values are expanded to `Vec<char>` with vstd's character
//! accessors; outgoing text is assembled as `Vec<char>` and converted to
//! `String` once, at the edge.

use vstd::prelude::*;

verus! {

/// A whitespace character, as Rust's `char::is_whitespace` defines the set:
/// ASCII whitespace plus the Unicode `White_Space` code points.
pub open spec fn spec_is_space(c: char) -> bool {
    (c as u32) == 0x20 || (c as u32) == 0x09 || (c as u32) == 0x0a || (c as u32) == 0x0b
        || (c as u32) == 0x0c || (c as u32) == 0x0d || (c as u32) == 0x85 || (c as u32) == 0xa0
        || (c as u32) == 0x1680 || (0x2000 <= (c as u32) && (c as u32) <= 0x200a) || (c as u32)
        == 0x2028 || (c as u32) == 0x2029 || (c as u32) == 0x202f || (c as u32) == 0x205f || (
    c as u32) == 0x3000
}

/// A control character: the Unicode `Cc` category, as `char::is_control`
/// defines it.
pub open spec fn spec_is_control(c: char) -> bool {
    (c as u32) < 0x20 || (0x7f <= (c as u32) && (c as u32) <= 0x9f)
}

/// A printable ASCII character other than space: `char::is_ascii_graphic`.
pub open spec fn spec_is_ascii_graphic(c: char) -> bool {
    0x21 <= (c as u32) && (c as u32) <= 0x7e
}

/// Executable test for [`spec_is_space`].
pub fn is_space(c: char) -> (r: bool)
    ensures
        r == spec_is_space(c),
{
    let u = c as u32;
    u == 0x20 || u == 0x09 || u == 0x0a || u == 0x0b || u == 0x0c || u == 0x0d || u == 0x85
        || u == 0xa0 || u == 0x1680 || (0x2000 <= u && u <= 0x200a) || u == 0x2028 || u == 0x2029
        || u == 0x202f || u == 0x205f || u == 0x3000
}

/// Executable test for [`spec_is_control`].
pub fn is_control(c: char) -> (r: bool)
    ensures
        r == spec_is_control(c),
{
    let u = c as u32;
    u < 0x20 || (0x7f <= u && u <= 0x9f)
}

/// Executable test for [`spec_is_ascii_graphic`].
pub fn is_ascii_graphic(c: char) -> (r: bool)
    ensures
        r == spec_is_ascii_graphic(c),
{
    let u = c as u32;
    0x21 <= u && u <= 0x7e
}

/// The characters of `s`, in order.
pub fn str_chars(s: &str) -> (r: Vec<char>)
    ensures
        r@ == s@,
{
    let n = s.unicode_len();
    let mut v: Vec<char> = Vec::new();
    let mut i: usize = 0;
    while i < n
        invariant
            n == s@.len(),
            i <= n,
            v@ == s@.take(i as int),
        decreases n - i,
    {
        v.push(s.get_char(i));
        i = i + 1;
        proof {
            assert(v@ =~= s@.take(i as int));
        }
    }
    proof {
        assert(s@.take(n as int) =~= s@);
    }
    v
}

/// Appends the characters of `s` to `v`.
pub fn push_chars_of(v: &mut Vec<char>, s: &str)
    ensures
        final(v)@ == old(v)@ + s@,
{
    let n = s.unicode_len();
    let mut i: usize = 0;
    while i < n
        invariant
            n == s@.len(),
            i <= n,
            v@ == old(v)@ + s@.take(i as int),
        decreases n - i,
    {
        v.push(s.get_char(i));
        i = i + 1;
        proof {
            assert(old(v)@ + s@.take(i as int) =~= (old(v)@ + s@.take(i - 1)).push(
                s@[i - 1],
            ));
        }
    }
    proof {
        assert(old(v)@ + s@.take(n as int) =~= old(v)@ + s@);
    }
}

/// Appends the characters of `w` to `v`.
pub fn push_chars(v: &mut Vec<char>, w: &Vec<char>)
    ensures
        final(v)@ == old(v)@ + w@,
{
    let n = w.len();
    let mut i: usize = 0;
    while i < n
        invariant
            n == w@.len(),
            i <= n,
            v@ == old(v)@ + w@.take(i as int),
        decreases n - i,
    {
        v.push(w[i]);
        i = i + 1;
        proof {
            assert(old(v)@ + w@.take(i as int) =~= (old(v)@ + w@.take(i - 1)).push(w@[i - 1]));
        }
    }
    proof {
        assert(old(v)@ + w@.take(n as int) =~= old(v)@ + w@);
    }
}

/// The parts joined with `, ` between them.
pub open spec fn spec_join_comma(parts: Seq<Seq<char>>) -> Seq<char>
    decreases parts.len(),
{
    if parts.len() == 0 {
        Seq::<char>::empty()
    } else if parts.len() == 1 {
        parts[0]
    } else {
        spec_join_comma(parts.drop_last()) + ", "@ + parts.last()
    }
}

/// Appends the parts joined with `, ` between them.
#[verifier::loop_isolation(false)]
pub fn push_joined(v: &mut Vec<char>, parts: &Vec<String>)
    ensures
        final(v)@ == old(v)@ + spec_join_comma(parts.deep_view()),
{
    let n = parts.len();
    let mut i: usize = 0;
    while i < n
        invariant
            i <= n,
            v@ == old(v)@ + spec_join_comma(parts.deep_view().take(i as int)),
        decreases n - i,
    {
        if i > 0 {
            push_chars_of(v, ", ");
        }
        push_chars_of(v, parts[i].as_str());
        i = i + 1;
        proof {
            assert(parts.deep_view().take(i as int).drop_last() =~= parts.deep_view().take(
                i - 1,
            ));
            assert(parts.deep_view().take(i as int).last() == parts@[i - 1]@);
            assert(v@ =~= old(v)@ + spec_join_comma(parts.deep_view().take(i as int)));
        }
    }
    proof {
        assert(parts.deep_view().take(n as int) =~= parts.deep_view());
    }
}

/// The concatenation of two strings.
pub fn concat2(a: &str, b: &str) -> (r: String)
    ensures
        r@ == a@ + b@,
{
    let mut v: Vec<char> = Vec::new();
    push_chars_of(&mut v, a);
    push_chars_of(&mut v, b);
    string_of(&v)
}

/// Relies on `String`'s `FromIterator<char>` implementation: collecting
/// characters yields the string of exactly those characters, in order.
#[verifier::external_body]
pub fn chars_to_string(v: Vec<char>) -> (r: String)
    ensures
        r@ == v@,
{
    v.into_iter().collect()
}

/// The string of the characters of `v`, without consuming `v`.
pub fn string_of(v: &Vec<char>) -> (r: String)
    ensures
        r@ == v@,
{
    let mut copy: Vec<char> = Vec::new();
    let mut i: usize = 0;
    while i < v.len()
        invariant
            i <= v@.len(),
            copy@ == v@.take(i as int),
        decreases v@.len() - i,
    {
        copy.push(v[i]);
        i = i + 1;
        proof {
            assert(copy@ =~= v@.take(i as int));
        }
    }
    proof {
        assert(v@.take(v@.len() as int) =~= v@);
    }
    chars_to_string(copy)
}

} // verus!
