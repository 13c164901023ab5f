//! Conversions between strings and character vectors, and helpers that build
//! output text.  The rewrite passes work on `Vec<char>`, whose view is the
//! same `Seq<char>` as the view of the strings at the crate's boundary.

use vstd::prelude::*;
use vstd::string::StrSliceExecFns;

verus! {

/// Relies on String::push: appends the given character to the end of the string.
#[verifier::external_body]
fn push_char(s: &mut String, c: char)
    ensures
        final(s)@ == old(s)@ + seq![c],
{
    s.push(c);
}

/// The characters of a string slice, as a vector.
pub fn str_to_chars(t: &str) -> (v: Vec<char>)
    ensures
        v@ == t@,
{
    let n = t.unicode_len();
    let mut v: Vec<char> = Vec::new();
    let mut j: usize = 0;
    while j < n
        invariant
            0 <= j <= n,
            n == t@.len(),
            v@ == t@.subrange(0, j as int),
        decreases n - j,
    {
        v.push(t.get_char(j));
        assert(v@ =~= t@.subrange(0, j + 1 as int));
        j = j + 1;
    }
    assert(v@ =~= t@);
    v
}

/// The characters of a vector, as a string.
pub fn chars_to_string(v: &Vec<char>) -> (s: String)
    ensures
        s@ == v@,
{
    let mut s = String::new();
    let mut j: usize = 0;
    while j < v.len()
        invariant
            0 <= j <= v.len(),
            s@ == v@.subrange(0, j as int),
        decreases v.len() - j,
    {
        push_char(&mut s, v[j]);
        assert(s@ =~= v@.subrange(0, j + 1 as int));
        j = j + 1;
    }
    assert(s@ =~= v@);
    s
}

/// Append the characters of a string slice to the output.
pub fn push_str_chars(out: &mut Vec<char>, t: &str)
    ensures
        final(out)@ == old(out)@ + t@,
{
    let n = t.unicode_len();
    let mut j: usize = 0;
    while j < n
        invariant
            0 <= j <= n,
            n == t@.len(),
            out@ == old(out)@ + t@.subrange(0, j as int),
        decreases n - j,
    {
        out.push(t.get_char(j));
        assert(out@ =~= old(out)@ + t@.subrange(0, j + 1 as int));
        j = j + 1;
    }
    assert(out@ =~= old(out)@ + t@);
}

/// Append a span of the input text to the output.
pub fn push_range(out: &mut Vec<char>, v: &Vec<char>, a: usize, b: usize)
    requires
        a <= b <= v.len(),
    ensures
        final(out)@ == old(out)@ + v@.subrange(a as int, b as int),
{
    let mut j: usize = a;
    while j < b
        invariant
            a <= j <= b <= v.len(),
            out@ == old(out)@ + v@.subrange(a as int, j as int),
        decreases b - j,
    {
        out.push(v[j]);
        assert(out@ =~= old(out)@ + v@.subrange(a as int, j + 1 as int));
        j = j + 1;
    }
}

} // verus!
