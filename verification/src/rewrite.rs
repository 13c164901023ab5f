//! The runners that sweep a rule over a whole text.
//!
//! A stateless rule is applied by one left-to-right scan: at each position
//! the rule either matches, contributing its replacement and jumping past the
//! consumed span, or the character is copied.  Matches are leftmost and are
//! never re-examined, so a replacement is not rewritten by the same rule.
//! The return-value pass carries one extra bit of state (whether its section
//! header has been emitted) and the deprecation pass fires at most once and
//! extracts a note instead of substituting text.

use vstd::prelude::*;
use crate::rules::{Rule, rule_match, ret_match, dep_match};
use crate::matchers::{try_rule, try_ret, try_dep};

verus! {

/// The text a rule produces from the suffix of `s` that starts at `i`.
pub open spec fn rewrite_from(r: Rule, prefixes: Seq<Seq<char>>, s: Seq<char>, i: int) -> Seq<char>
    decreases s.len() - i,
{
    if !(0 <= i < s.len()) {
        Seq::<char>::empty()
    } else {
        match rule_match(r, prefixes, s, i) {
            Some(m) => if i < m.0 <= s.len() {
                m.1 + rewrite_from(r, prefixes, s, m.0)
            } else {
                seq![s[i]] + rewrite_from(r, prefixes, s, i + 1)
            },
            None => seq![s[i]] + rewrite_from(r, prefixes, s, i + 1),
        }
    }
}

/// The text a rule produces from `s`.
pub open spec fn rewrite_rule(r: Rule, prefixes: Seq<Seq<char>>, s: Seq<char>) -> Seq<char> {
    rewrite_from(r, prefixes, s, 0)
}

/// Apply one rule of the table to the whole text.
pub fn apply_rule(r: Rule, prefixes: &Vec<String>, v: &Vec<char>) -> (out: Vec<char>)
    ensures
        out@ == rewrite_rule(r, prefixes.deep_view(), v@),
{
    let ghost dv = prefixes.deep_view();
    let mut out: Vec<char> = Vec::new();
    let mut i: usize = 0;
    while i < v.len()
        invariant
            0 <= i <= v.len(),
            dv == prefixes.deep_view(),
            rewrite_rule(r, dv, v@) == out@ + rewrite_from(r, dv, v@, i as int),
        decreases v.len() - i,
    {
        let ghost out0 = out@;
        match try_rule(r, prefixes, v, i) {
            Some((j, mut rep)) => {
                proof {
                    assert(rewrite_from(r, dv, v@, i as int) == rep@ + rewrite_from(
                        r,
                        dv,
                        v@,
                        j as int,
                    ));
                }
                out.append(&mut rep);
                proof {
                    assert(out@ + rewrite_from(r, dv, v@, j as int) =~= out0 + rewrite_from(
                        r,
                        dv,
                        v@,
                        i as int,
                    ));
                }
                i = j;
            },
            None => {
                proof {
                    assert(rewrite_from(r, dv, v@, i as int) == seq![v@[i as int]] + rewrite_from(
                        r,
                        dv,
                        v@,
                        i + 1 as int,
                    ));
                }
                out.push(v[i]);
                proof {
                    assert(out@ + rewrite_from(r, dv, v@, i + 1 as int) =~= out0 + rewrite_from(
                        r,
                        dv,
                        v@,
                        i as int,
                    ));
                }
                i = i + 1;
            },
        }
    }
    proof {
        assert(out@ + rewrite_from(r, dv, v@, i as int) =~= out@);
    }
    out
}

/// The text the return-value pass produces from the suffix at `i`.  `seen`
/// records whether the `# Returns` section header has already been written;
/// the first directive gets the header and its own list item, every later one
/// only a list item.
pub open spec fn returns_from(s: Seq<char>, i: int, seen: bool) -> Seq<char>
    decreases s.len() - i,
{
    if !(0 <= i < s.len()) {
        Seq::<char>::empty()
    } else {
        match ret_match(s, i) {
            Some(m) => if i < m.0 <= s.len() {
                (if seen {
                    m.1
                } else {
                    "\n# Returns"@ + m.1
                }) + returns_from(s, m.0, true)
            } else {
                seq![s[i]] + returns_from(s, i + 1, seen)
            },
            None => seq![s[i]] + returns_from(s, i + 1, seen),
        }
    }
}

/// The text the return-value pass produces from `s`.
pub open spec fn rewrite_returns(s: Seq<char>) -> Seq<char> {
    returns_from(s, 0, false)
}

/// Apply the return-value pass to the whole text.
pub fn apply_returns(v: &Vec<char>) -> (out: Vec<char>)
    ensures
        out@ == rewrite_returns(v@),
{
    let mut out: Vec<char> = Vec::new();
    let mut i: usize = 0;
    let mut seen = false;
    while i < v.len()
        invariant
            0 <= i <= v.len(),
            rewrite_returns(v@) == out@ + returns_from(v@, i as int, seen),
        decreases v.len() - i,
    {
        let ghost out0 = out@;
        let ghost seen0 = seen;
        match try_ret(v, i) {
            Some((j, mut rep)) => {
                proof {
                    assert(returns_from(v@, i as int, seen0) == (if seen0 {
                        rep@
                    } else {
                        "\n# Returns"@ + rep@
                    }) + returns_from(v@, j as int, true));
                }
                if !seen {
                    crate::text::push_str_chars(&mut out, "\n# Returns");
                }
                out.append(&mut rep);
                seen = true;
                proof {
                    assert(out@ + returns_from(v@, j as int, true) =~= out0 + returns_from(
                        v@,
                        i as int,
                        seen0,
                    ));
                }
                i = j;
            },
            None => {
                proof {
                    assert(returns_from(v@, i as int, seen0) == seq![v@[i as int]] + returns_from(
                        v@,
                        i + 1 as int,
                        seen0,
                    ));
                }
                out.push(v[i]);
                proof {
                    assert(out@ + returns_from(v@, i + 1 as int, seen0) =~= out0 + returns_from(
                        v@,
                        i as int,
                        seen0,
                    ));
                }
                i = i + 1;
            },
        }
    }
    proof {
        assert(out@ + returns_from(v@, i as int, seen) =~= out@);
    }
    out
}

/// The result of the deprecation pass on the suffix at `i`: the remaining
/// text with the first deprecation directive removed, and the extracted note.
/// The pass fires at most once; a second directive stays in the text.
pub open spec fn dep_from(s: Seq<char>, i: int) -> (Seq<char>, Option<Seq<char>>)
    decreases s.len() - i,
{
    if !(0 <= i < s.len()) {
        (Seq::<char>::empty(), None)
    } else {
        match dep_match(s, i) {
            Some(m) => if i < m.0 <= s.len() {
                (s.skip(m.0), Some(m.1))
            } else {
                let rest = dep_from(s, i + 1);
                (seq![s[i]] + rest.0, rest.1)
            },
            None => {
                let rest = dep_from(s, i + 1);
                (seq![s[i]] + rest.0, rest.1)
            },
        }
    }
}

/// The result of the deprecation pass on `s`.
pub open spec fn rewrite_dep(s: Seq<char>) -> (Seq<char>, Option<Seq<char>>) {
    dep_from(s, 0)
}

/// Apply the deprecation pass: remove the first deprecation directive and
/// hand back its note.
pub fn apply_dep(v: &Vec<char>) -> (r: (Vec<char>, Option<Vec<char>>))
    ensures
        r.0@ == rewrite_dep(v@).0,
        r.1.deep_view() == rewrite_dep(v@).1,
{
    let mut out: Vec<char> = Vec::new();
    let mut i: usize = 0;
    while i < v.len()
        invariant
            0 <= i <= v.len(),
            rewrite_dep(v@).0 == out@ + dep_from(v@, i as int).0,
            rewrite_dep(v@).1 == dep_from(v@, i as int).1,
        decreases v.len() - i,
    {
        let ghost out0 = out@;
        match try_dep(v, i) {
            Some((j, note)) => {
                proof {
                    assert(dep_from(v@, i as int).0 == v@.skip(j as int));
                    assert(dep_from(v@, i as int).1 == Some(note@));
                }
                crate::text::push_range(&mut out, v, j, v.len());
                proof {
                    assert(v@.subrange(j as int, v.len() as int) =~= v@.skip(j as int));
                    assert(out@ =~= out0 + dep_from(v@, i as int).0);
                }
                return (out, Some(note));
            },
            None => {
                proof {
                    assert(dep_from(v@, i as int).0 == seq![v@[i as int]] + dep_from(
                        v@,
                        i + 1 as int,
                    ).0);
                    assert(dep_from(v@, i as int).1 == dep_from(v@, i + 1 as int).1);
                }
                out.push(v[i]);
                proof {
                    assert(out@ + dep_from(v@, i + 1 as int).0 =~= out0 + dep_from(
                        v@,
                        i as int,
                    ).0);
                }
                i = i + 1;
            },
        }
    }
    proof {
        assert(out@ + dep_from(v@, i as int).0 =~= out@);
    }
    (out, None)
}

} // verus!
