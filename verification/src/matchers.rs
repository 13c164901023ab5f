//! Executable matchers, one per rule of the table.
//!
//! Each matcher decides whether its rule matches the text at position `i`
//! and, on a match, hands back the end of the consumed span together with the
//! replacement characters.  The contract of every matcher ties it exactly to
//! the rule's specification in [`crate::rules`].

use vstd::prelude::*;
use vstd::string::StrSliceExecFns;
use crate::chars::{CharClass, space_char};
use crate::scan::{scan_run, match_lit, match_dir, at_word_boundary, lemma_run_end, run_end, lit_at};
use crate::rules::{Rule, RuleMatch, brief_match, param_match, param_annot, param_rep, details_match,
    note_match, ref_match, sym_end, symbol_match, emphasis_match, heading_match, rule_match,
    ret_match, dep_match, trim_end_spaces};
use crate::text::{push_str_chars, push_range};

verus! {

/// What a matcher reports: the end of the consumed span and the replacement.
pub type Found = Option<(usize, Vec<char>)>;

/// The executable result `m` agrees with the spec-level match `sm` at `i`.
pub open spec fn found_matches(m: Found, sm: RuleMatch, i: int, len: int) -> bool {
    match m {
        Some(p) => sm == Some((p.0 as int, p.1@)) && i < p.0 <= len,
        None => sm is None,
    }
}

/// Match the brief rule at `i`.
pub fn try_brief(v: &Vec<char>, i: usize) -> (m: Found)
    requires
        i < v.len(),
    ensures
        found_matches(m, brief_match(v@, i as int), i as int, v.len() as int),
{
    proof {
        reveal_strlit("brief");
        lemma_run_end(CharClass::Space, v@, i as int);
    }
    let w = scan_run(CharClass::Space, v, i);
    if !match_dir(v, w, "brief") {
        return None;
    }
    if !at_word_boundary(v, w + 6) {
        return None;
    }
    let j = scan_run(CharClass::Space, v, w + 6);
    Some((j, Vec::new()))
}

/// Match the param rule at `i`.
pub fn try_param(v: &Vec<char>, i: usize) -> (m: Found)
    requires
        i < v.len(),
    ensures
        found_matches(m, param_match(v@, i as int), i as int, v.len() as int),
{
    proof {
        reveal_strlit("param");
        reveal_strlit("Param");
        lemma_run_end(CharClass::Space, v@, i as int);
    }
    let w0 = scan_run(CharClass::Space, v, i);
    let lower = match_dir(v, w0, "param");
    if !lower && !match_dir(v, w0, "Param") {
        return None;
    }
    if !at_word_boundary(v, w0 + 6) {
        return None;
    }
    let w1 = scan_run(CharClass::Space, v, w0 + 6);
    let mut has_ann = false;
    let mut p: usize = w1;
    if w1 < v.len() && v[w1] == '[' {
        let a = scan_run(CharClass::Annot, v, w1 + 1);
        if a > w1 + 1 && a < v.len() && v[a] == ']' {
            has_ann = true;
            p = a + 1;
        } else {
            assert(param_annot(v@, w1 as int) is None);
            return None;
        }
    }
    assert(param_annot(v@, w1 as int) == Some((has_ann, p as int)));
    let w2 = scan_run(CharClass::Space, v, p);
    let ve = scan_run(CharClass::DottedWord, v, w2);
    if ve == w2 {
        return None;
    }
    let we = scan_run(CharClass::Space, v, ve);
    if we == ve {
        return None;
    }
    let mut rep: Vec<char> = Vec::new();
    push_str_chars(&mut rep, "\n * `");
    push_range(&mut rep, v, w2, ve);
    push_str_chars(&mut rep, "`");
    if has_ann {
        push_str_chars(&mut rep, " ");
        push_range(&mut rep, v, w1, p);
    }
    push_str_chars(&mut rep, " - ");
    assert(rep@ =~= param_rep(v@, w1 as int, has_ann, p as int, w2 as int, ve as int));
    Some((we, rep))
}

/// Match the details rule at `i`.
pub fn try_details(v: &Vec<char>, i: usize) -> (m: Found)
    requires
        i < v.len(),
    ensures
        found_matches(m, details_match(v@, i as int), i as int, v.len() as int),
{
    proof {
        reveal_strlit("details");
        reveal_strlit("detail");
        lemma_run_end(CharClass::Space, v@, i as int);
    }
    let w = scan_run(CharClass::Space, v, i);
    if match_dir(v, w, "details") && at_word_boundary(v, w + 8) {
        let j = scan_run(CharClass::Space, v, w + 8);
        let mut rep: Vec<char> = Vec::new();
        push_str_chars(&mut rep, "\n# Details\n");
        return Some((j, rep));
    }
    if match_dir(v, w, "detail") && at_word_boundary(v, w + 7) {
        let j = scan_run(CharClass::Space, v, w + 7);
        let mut rep: Vec<char> = Vec::new();
        push_str_chars(&mut rep, "\n# Details\n");
        return Some((j, rep));
    }
    None
}

/// Match the note rule at `i`.
pub fn try_note(v: &Vec<char>, i: usize) -> (m: Found)
    requires
        i < v.len(),
    ensures
        found_matches(m, note_match(v@, i as int), i as int, v.len() as int),
{
    proof {
        reveal_strlit("note");
        lemma_run_end(CharClass::Space, v@, i as int);
    }
    let w = scan_run(CharClass::Space, v, i);
    if !match_dir(v, w, "note") {
        return None;
    }
    if !at_word_boundary(v, w + 5) {
        return None;
    }
    let t = if w + 5 < v.len() && v[w + 5] == ':' {
        w + 6
    } else {
        w + 5
    };
    let j = scan_run(CharClass::Space, v, t);
    let mut rep: Vec<char> = Vec::new();
    push_str_chars(&mut rep, "\n\n**Note:** ");
    Some((j, rep))
}

/// Match the reference rule at `i`.
pub fn try_ref(v: &Vec<char>, i: usize) -> (m: Found)
    requires
        i < v.len(),
    ensures
        found_matches(m, ref_match(v@, i as int), i as int, v.len() as int),
{
    proof {
        reveal_strlit("refitem");
        reveal_strlit("ref");
        reveal_strlit("()");
        lemma_run_end(CharClass::Space, v@, i as int);
    }
    let w = scan_run(CharClass::Space, v, i);
    let tokend: usize;
    if match_dir(v, w, "refitem") {
        tokend = w + 8;
    } else if match_dir(v, w, "ref") {
        tokend = w + 4;
    } else {
        return None;
    }
    let w1 = scan_run(CharClass::Space, v, tokend);
    if w1 == tokend {
        return None;
    }
    let ve = scan_run(CharClass::Word, v, w1);
    if ve == w1 {
        return None;
    }
    let p = if match_lit(v, ve, "()") {
        ve + 2
    } else {
        ve
    };
    let q = if p < v.len() && v[p] == '.' {
        p + 1
    } else {
        p
    };
    let we = scan_run(CharClass::Space, v, q);
    if we == q {
        return None;
    }
    let mut rep: Vec<char> = Vec::new();
    push_str_chars(&mut rep, " [");
    push_range(&mut rep, v, w1, ve);
    push_str_chars(&mut rep, "]");
    push_range(&mut rep, v, q, we);
    assert(rep@ =~= " ["@ + v@.subrange(w1 as int, ve as int) + "]"@ + v@.subrange(
        q as int,
        we as int,
    ));
    Some((we, rep))
}

/// Find the end of a bare-symbol occurrence starting exactly at `i`.
pub fn find_sym_end(prefixes: &Vec<String>, v: &Vec<char>, i: usize) -> (r: Option<usize>)
    requires
        i <= v.len(),
    ensures
        (match r {
            Some(we) => sym_end(v@, prefixes.deep_view(), i as int) == Some(we as int) && i < we
                <= v.len(),
            None => sym_end(v@, prefixes.deep_view(), i as int) is None,
        }),
{
    proof {
        lemma_run_end(CharClass::Word, v@, i as int);
    }
    let we = scan_run(CharClass::Word, v, i);
    let ghost dv = prefixes.deep_view();
    let mut k: usize = 0;
    while k < prefixes.len()
        invariant
            0 <= k <= prefixes.len(),
            i <= we <= v.len(),
            we == run_end(CharClass::Word, v@, i as int),
            dv == prefixes.deep_view(),
            dv.len() == prefixes.len(),
            forall|t: int|
                0 <= t < k ==> !(lit_at(v@, i as int, dv[t]) && we >= i + dv[t].len() + 1),
        decreases prefixes.len() - k,
    {
        let pref: &String = &prefixes[k];
        if match_lit(v, i, pref.as_str()) {
            let pl = pref.as_str().unicode_len();
            if we > i + pl {
                assert(lit_at(v@, i as int, dv[k as int]) && we >= i + dv[k as int].len() + 1);
                return Some(we);
            }
        }
        k = k + 1;
    }
    assert(sym_end(v@, dv, i as int) is None);
    None
}

/// Match the bare-symbol rule at `i`.
pub fn try_symbol(prefixes: &Vec<String>, v: &Vec<char>, i: usize) -> (m: Found)
    requires
        i < v.len(),
    ensures
        found_matches(
            m,
            symbol_match(v@, prefixes.deep_view(), i as int),
            i as int,
            v.len() as int,
        ),
{
    if i + 1 < v.len() && (v[i] == '@' || v[i] == '\\') && (v[i + 1] == 'p' || v[i + 1] == 'a' || v[
        i + 1] == 'c') {
        proof {
            lemma_run_end(CharClass::Sep, v@, (i + 2) as int);
        }
        let d = scan_run(CharClass::Sep, v, i + 2);
        if d > i + 2 {
            let h = if d < v.len() && v[d] == '#' {
                d + 1
            } else {
                d
            };
            match find_sym_end(prefixes, v, h) {
                Some(we) => {
                    let mut rep: Vec<char> = Vec::new();
                    push_str_chars(&mut rep, "[");
                    push_range(&mut rep, v, h, we);
                    push_str_chars(&mut rep, "]");
                    return Some((we, rep));
                },
                None => {
                    return None;
                },
            }
        } else {
            return None;
        }
    }
    let ctx = i == 0 || {
        let c = v[i - 1];
        space_char(c) || c == '-'
    };
    if v[i] == '#' {
        if !ctx {
            return None;
        }
        match find_sym_end(prefixes, v, i + 1) {
            Some(we) => {
                let mut rep: Vec<char> = Vec::new();
                push_str_chars(&mut rep, "[");
                push_range(&mut rep, v, i + 1, we);
                push_str_chars(&mut rep, "]");
                Some((we, rep))
            },
            None => None,
        }
    } else {
        if !ctx {
            return None;
        }
        match find_sym_end(prefixes, v, i) {
            Some(we) => {
                let mut rep: Vec<char> = Vec::new();
                push_str_chars(&mut rep, "[");
                push_range(&mut rep, v, i, we);
                push_str_chars(&mut rep, "]");
                Some((we, rep))
            },
            None => None,
        }
    }
}

/// Match the inline-emphasis rule at `i`.
pub fn try_emphasis(v: &Vec<char>, i: usize) -> (m: Found)
    requires
        i < v.len(),
    ensures
        found_matches(m, emphasis_match(v@, i as int), i as int, v.len() as int),
{
    if !(i + 1 < v.len() && (v[i] == '@' || v[i] == '\\') && (v[i + 1] == 'p' || v[i + 1] == 'a'
        || v[i + 1] == 'c')) {
        return None;
    }
    proof {
        lemma_run_end(CharClass::Space, v@, (i + 2) as int);
    }
    let w = scan_run(CharClass::Space, v, i + 2);
    if w == i + 2 {
        return None;
    }
    let ae = scan_run(CharClass::EmphArg, v, w);
    if ae == w {
        return None;
    }
    let mut rep: Vec<char> = Vec::new();
    push_str_chars(&mut rep, "`");
    push_range(&mut rep, v, w, ae);
    push_str_chars(&mut rep, "`");
    Some((ae, rep))
}

/// Match the heading rule at `i`.
pub fn try_heading(v: &Vec<char>, i: usize) -> (m: Found)
    requires
        i < v.len(),
    ensures
        found_matches(m, heading_match(v@, i as int), i as int, v.len() as int),
{
    proof {
        reveal_strlit("name");
        reveal_strlit("returns");
        reveal_strlit("return");
        reveal_strlit("retval");
        lemma_run_end(CharClass::Space, v@, i as int);
    }
    let w = scan_run(CharClass::Space, v, i);
    if match_dir(v, w, "name") && at_word_boundary(v, w + 5) {
        let j = scan_run(CharClass::Space, v, w + 5);
        let mut rep: Vec<char> = Vec::new();
        push_str_chars(&mut rep, "\n# ");
        return Some((j, rep));
    }
    if match_dir(v, w, "returns") && at_word_boundary(v, w + 8) {
        let j = scan_run(CharClass::Space, v, w + 8);
        let mut rep: Vec<char> = Vec::new();
        push_str_chars(&mut rep, "\n# Returns\n");
        return Some((j, rep));
    }
    if match_dir(v, w, "return") && at_word_boundary(v, w + 7) {
        let j = scan_run(CharClass::Space, v, w + 7);
        let mut rep: Vec<char> = Vec::new();
        push_str_chars(&mut rep, "\n# Returns\n");
        return Some((j, rep));
    }
    if match_dir(v, w, "retval") && at_word_boundary(v, w + 7) {
        let j = scan_run(CharClass::Space, v, w + 7);
        let mut rep: Vec<char> = Vec::new();
        push_str_chars(&mut rep, "\n# Returns\n");
        return Some((j, rep));
    }
    None
}

/// Match any rule of the stateless table at `i`.
pub fn try_rule(r: Rule, prefixes: &Vec<String>, v: &Vec<char>, i: usize) -> (m: Found)
    requires
        i < v.len(),
    ensures
        found_matches(
            m,
            rule_match(r, prefixes.deep_view(), v@, i as int),
            i as int,
            v.len() as int,
        ),
{
    match r {
        Rule::Brief => try_brief(v, i),
        Rule::Param => try_param(v, i),
        Rule::Details => try_details(v, i),
        Rule::Note => try_note(v, i),
        Rule::Ref => try_ref(v, i),
        Rule::Symbol => try_symbol(prefixes, v, i),
        Rule::Emphasis => try_emphasis(v, i),
        Rule::Heading => try_heading(v, i),
    }
}

/// Match a return directive with a value token at `i`.
pub fn try_ret(v: &Vec<char>, i: usize) -> (m: Found)
    requires
        i < v.len(),
    ensures
        found_matches(m, ret_match(v@, i as int), i as int, v.len() as int),
{
    if v[i] != '@' && v[i] != '\\' {
        return None;
    }
    proof {
        reveal_strlit("returns");
        reveal_strlit("return");
        reveal_strlit("retval");
    }
    let tokend: usize;
    if match_lit(v, i + 1, "returns") {
        tokend = i + 8;
    } else if match_lit(v, i + 1, "return") {
        tokend = i + 7;
    } else if match_lit(v, i + 1, "retval") {
        tokend = i + 7;
    } else {
        return None;
    }
    proof {
        lemma_run_end(CharClass::Space, v@, tokend as int);
    }
    let w = scan_run(CharClass::Space, v, tokend);
    if w == tokend {
        return None;
    }
    let neg = w < v.len() && v[w] == '-';
    let p0 = if neg {
        if w + 1 < v.len() && space_char(v[w + 1]) {
            w + 2
        } else {
            w + 1
        }
    } else {
        w
    };
    let b1 = if p0 < v.len() && v[p0] == '[' {
        p0 + 1
    } else {
        p0
    };
    let ve = scan_run(CharClass::Word, v, b1);
    if ve == b1 {
        return None;
    }
    let b2 = if ve < v.len() && v[ve] == ']' {
        ve + 1
    } else {
        ve
    };
    let mut rep: Vec<char> = Vec::new();
    push_str_chars(&mut rep, "\n * ");
    if neg {
        push_str_chars(&mut rep, "-");
    }
    push_range(&mut rep, v, p0, b2);
    assert(rep@ =~= "\n * "@ + (if neg {
        "-"@
    } else {
        Seq::<char>::empty()
    }) + v@.subrange(p0 as int, b2 as int));
    Some((b2, rep))
}

/// Match the deprecation directive at `i`; the replacement slot carries the
/// extracted note rather than text to substitute.
pub fn try_dep(v: &Vec<char>, i: usize) -> (m: Found)
    requires
        i < v.len(),
    ensures
        found_matches(m, dep_match(v@, i as int), i as int, v.len() as int),
{
    proof {
        reveal_strlit("deprecated");
    }
    if !match_dir(v, i, "deprecated") {
        return None;
    }
    if !at_word_boundary(v, i + 11) {
        return None;
    }
    proof {
        lemma_run_end(CharClass::Space, v@, (i + 11) as int);
        lemma_run_end(CharClass::NotDotOrBreak, v@, run_end(CharClass::Space, v@, (i + 11) as int));
    }
    let n0 = scan_run(CharClass::Space, v, i + 11);
    let ne = scan_run(CharClass::NotDotOrBreak, v, n0);
    let j = if ne < v.len() && v[ne] == '.' {
        ne + 1
    } else {
        ne
    };
    let mut te = ne;
    while te > n0 && space_char(v[te - 1])
        invariant
            n0 <= te <= ne <= v.len(),
            trim_end_spaces(v@.subrange(n0 as int, ne as int)) == trim_end_spaces(
                v@.subrange(n0 as int, te as int),
            ),
        decreases te,
    {
        proof {
            let t = v@.subrange(n0 as int, te as int);
            assert(t.take(t.len() - 1) =~= v@.subrange(n0 as int, te - 1 as int));
        }
        te = te - 1;
    }
    proof {
        let t = v@.subrange(n0 as int, te as int);
        assert(trim_end_spaces(t) == t);
    }
    let mut note: Vec<char> = Vec::new();
    push_range(&mut note, v, n0, te);
    assert(note@ =~= v@.subrange(n0 as int, te as int));
    Some((j, note))
}

} // verus!
