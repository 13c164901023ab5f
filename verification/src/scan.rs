//! Low-level scanning primitives over character sequences.
//!
//! The rewrite rules are built from three basic questions about a text and a
//! position: does a literal stand here, does a directive token stand here,
//! and how far does a run of some character class extend.  Each question has
//! a spec answer over `Seq<char>` and an executable scanner proved to give
//! that answer.

use vstd::prelude::*;
use crate::chars::{CharClass, in_class, class_char, is_word};

verus! {

/// The literal `t` occurs in `s` starting at position `i`.
pub open spec fn lit_at(s: Seq<char>, i: int, t: Seq<char>) -> bool {
    &&& 0 <= i
    &&& i + t.len() <= s.len()
    &&& s.subrange(i, i + t.len() as int) == t
}

/// A directive token stands at `i`: an `@` or `\` sigil followed by `name`.
pub open spec fn dir_at(s: Seq<char>, i: int, name: Seq<char>) -> bool {
    &&& 0 <= i < s.len()
    &&& (s[i] == '@' || s[i] == '\\')
    &&& lit_at(s, i + 1, name)
}

/// Position `i` ends a word: it is the end of the text or holds a non-word
/// character.  Rules use this so that `@briefest` is not taken for `@brief`.
pub open spec fn word_boundary(s: Seq<char>, i: int) -> bool {
    i >= s.len() || !is_word(s[i])
}

/// The end of the run of class `cc` characters that starts at `i`.
pub open spec fn run_end(cc: CharClass, s: Seq<char>, i: int) -> int
    decreases s.len() - i,
{
    if 0 <= i < s.len() && in_class(cc, s[i]) {
        run_end(cc, s, i + 1)
    } else {
        i
    }
}

/// Bounds and contents of a class run.
pub proof fn lemma_run_end(cc: CharClass, s: Seq<char>, i: int)
    requires
        0 <= i <= s.len(),
    ensures
        i <= run_end(cc, s, i) <= s.len(),
        forall|k: int| i <= k < run_end(cc, s, i) ==> in_class(cc, s[k]),
        run_end(cc, s, i) == s.len() || !in_class(cc, s[run_end(cc, s, i)]),
    decreases s.len() - i,
{
    if i < s.len() && in_class(cc, s[i]) {
        lemma_run_end(cc, s, i + 1);
    }
}

/// Executable scan to the end of a class run.
pub fn scan_run(cc: CharClass, v: &Vec<char>, i: usize) -> (j: usize)
    requires
        i <= v.len(),
    ensures
        j == run_end(cc, v@, i as int),
        i <= j <= v.len(),
{
    let mut cur: usize = i;
    loop
        invariant
            i <= cur <= v.len(),
            run_end(cc, v@, i as int) == run_end(cc, v@, cur as int),
        decreases v.len() - cur,
    {
        if cur == v.len() {
            return cur;
        }
        if !class_char(cc, v[cur]) {
            return cur;
        }
        cur = cur + 1;
    }
}

/// Executable test that literal `t` occurs at `i`.
pub fn match_lit(v: &Vec<char>, i: usize, t: &str) -> (b: bool)
    requires
        i <= v.len(),
    ensures
        b == lit_at(v@, i as int, t@),
{
    let n = t.unicode_len();
    if n > v.len() - i {
        assert(!lit_at(v@, i as int, t@));
        return false;
    }
    let mut j: usize = 0;
    while j < n
        invariant
            0 <= j <= n,
            i <= v.len(),
            n == t@.len(),
            i + n <= v.len(),
            forall|k: int| 0 <= k < j ==> v@[i + k] == t@[k],
        decreases n - j,
    {
        if v[i + j] != t.get_char(j) {
            assert(!lit_at(v@, i as int, t@)) by {
                if lit_at(v@, i as int, t@) {
                    assert(v@.subrange(i as int, i + t@.len() as int)[j as int] == t@[j as int]);
                }
            }
            return false;
        }
        j = j + 1;
    }
    assert(lit_at(v@, i as int, t@)) by {
        assert(v@.subrange(i as int, i + t@.len() as int) =~= t@);
    }
    true
}

/// Executable test that a directive token with the given name stands at `i`.
pub fn match_dir(v: &Vec<char>, i: usize, name: &str) -> (b: bool)
    requires
        i <= v.len(),
    ensures
        b == dir_at(v@, i as int, name@),
{
    if i == v.len() {
        return false;
    }
    let c = v[i];
    if c != '@' && c != '\\' {
        return false;
    }
    match_lit(v, i + 1, name)
}

/// Executable word-boundary test.
pub fn at_word_boundary(v: &Vec<char>, i: usize) -> (b: bool)
    requires
        i <= v.len(),
    ensures
        b == word_boundary(v@, i as int),
{
    i == v.len() || !class_char(CharClass::Word, v[i])
}

} // verus!
