//! Laws of the pipeline, stated and proved over the same specifications that
//! the executable passes are verified against.

use vstd::prelude::*;
use crate::rules::{Rule, rule_match, ret_match, dep_match, sym_end, symbol_match};
use crate::rewrite::{rewrite_from, rewrite_rule, returns_from, dep_from};
use crate::structural::{group_line, has_group_line, StripState, strip_from, strip_groups};
use crate::pipeline::{Mode, rewrite_spec, transform_spec};
use crate::chars::CharClass;
use crate::scan::{run_end, lemma_run_end};

verus! {

/// The text carries no directive sigil: no `@` and no `\`.
pub open spec fn directive_free(s: Seq<char>) -> bool {
    forall|j: int| 0 <= j < s.len() ==> s[j] != '@' && s[j] != '\\'
}

/// No position of the text starts a bare symbol with a configured prefix.
pub open spec fn symbol_free(s: Seq<char>, prefixes: Seq<Seq<char>>) -> bool {
    forall|j: int| 0 <= j < s.len() ==> sym_end(s, prefixes, j) is None
}

/// Past the end of the text there is no symbol either.
proof fn lemma_sym_end_at_end(s: Seq<char>, prefixes: Seq<Seq<char>>, i: int)
    requires
        i >= s.len(),
    ensures
        sym_end(s, prefixes, i) is None,
{
    assert(run_end(CharClass::Word, s, i) == i);
}

/// On directive-free, symbol-free text no rule of the table matches anywhere.
proof fn lemma_no_match(r: Rule, prefixes: Seq<Seq<char>>, s: Seq<char>, i: int)
    requires
        directive_free(s),
        symbol_free(s, prefixes),
        0 <= i < s.len(),
    ensures
        rule_match(r, prefixes, s, i) is None,
{
    match r {
        Rule::Symbol => {
            if i + 1 < s.len() && (s[i] == '@' || s[i] == '\\') {
            } else if 0 <= i < s.len() && s[i] == '#' {
                if i + 1 < s.len() {
                } else {
                    lemma_sym_end_at_end(s, prefixes, i + 1);
                }
            } else {
            }
        },
        _ => {
        },
    }
}

/// A rule whose match fails everywhere leaves the suffix unchanged.
proof fn lemma_rewrite_identity(r: Rule, prefixes: Seq<Seq<char>>, s: Seq<char>, i: int)
    requires
        0 <= i <= s.len(),
        forall|j: int| i <= j < s.len() ==> rule_match(r, prefixes, s, j) is None,
    ensures
        rewrite_from(r, prefixes, s, i) == s.skip(i),
    decreases s.len() - i,
{
    if i < s.len() {
        lemma_rewrite_identity(r, prefixes, s, i + 1);
        assert(seq![s[i]] + s.skip(i + 1) =~= s.skip(i));
    } else {
        assert(s.skip(i) =~= Seq::<char>::empty());
    }
}

/// One rule of the table is the identity on directive-free, symbol-free text.
proof fn lemma_rule_identity_plain(r: Rule, prefixes: Seq<Seq<char>>, s: Seq<char>)
    requires
        directive_free(s),
        symbol_free(s, prefixes),
    ensures
        rewrite_rule(r, prefixes, s) == s,
{
    assert forall|j: int| 0 <= j < s.len() implies rule_match(r, prefixes, s, j) is None by {
        lemma_no_match(r, prefixes, s, j);
    }
    lemma_rewrite_identity(r, prefixes, s, 0);
    assert(s.skip(0) =~= s);
}

/// The return-value pass is the identity on directive-free text.
proof fn lemma_returns_identity(s: Seq<char>, i: int, seen: bool)
    requires
        directive_free(s),
        0 <= i <= s.len(),
    ensures
        returns_from(s, i, seen) == s.skip(i),
    decreases s.len() - i,
{
    if i < s.len() {
        assert(ret_match(s, i) is None);
        lemma_returns_identity(s, i + 1, seen);
        assert(seq![s[i]] + s.skip(i + 1) =~= s.skip(i));
    } else {
        assert(s.skip(i) =~= Seq::<char>::empty());
    }
}

/// The deprecation pass extracts nothing from directive-free text.
proof fn lemma_dep_identity(s: Seq<char>, i: int)
    requires
        directive_free(s),
        0 <= i <= s.len(),
    ensures
        dep_from(s, i).0 == s.skip(i),
        dep_from(s, i).1 is None,
    decreases s.len() - i,
{
    if i < s.len() {
        assert(dep_match(s, i) is None);
        lemma_dep_identity(s, i + 1);
        assert(seq![s[i]] + s.skip(i + 1) =~= s.skip(i));
    } else {
        assert(s.skip(i) =~= Seq::<char>::empty());
    }
}

/// Without a group-opening line the structural pass copies the text.
proof fn lemma_strip_identity(s: Seq<char>, i: int, st: StripState)
    requires
        0 <= i <= s.len(),
        st == StripState::LineStart || st == StripState::InLine,
        forall|j: int| 0 <= j < s.len() ==> !group_line(s, j),
    ensures
        strip_from(s, i, st) == s.skip(i),
    decreases s.len() - i,
{
    if i < s.len() {
        let next = if s[i] == '\n' {
            StripState::LineStart
        } else {
            StripState::InLine
        };
        lemma_strip_identity(s, i + 1, next);
        assert(seq![s[i]] + s.skip(i + 1) =~= s.skip(i));
    } else {
        assert(s.skip(i) =~= Seq::<char>::empty());
    }
}

/// A text with no group-opening line passes the structural pass unchanged.
pub proof fn lemma_strip_groups_identity(s: Seq<char>)
    requires
        !has_group_line(s),
    ensures
        strip_groups(s) == s,
{
    lemma_strip_identity(s, 0, StripState::LineStart);
    assert(s.skip(0) =~= s);
}

/// Idempotence on non-directive text: the pipeline, in either mode, returns a
/// text unchanged and finds no deprecation in it, whenever the text holds no
/// `@`- or `\`-prefixed directive token and no bare symbol with a configured
/// prefix.
pub proof fn lemma_transform_plain_identity(s: Seq<char>, prefixes: Seq<Seq<char>>, mode: Mode)
    requires
        directive_free(s),
        symbol_free(s, prefixes),
    ensures
        transform_spec(s, prefixes, mode).0 == s,
        transform_spec(s, prefixes, mode).1 is None,
{
    lemma_rule_identity_plain(Rule::Brief, prefixes, s);
    lemma_dep_identity(s, 0);
    assert(s.skip(0) =~= s);
    lemma_rule_identity_plain(Rule::Param, prefixes, s);
    lemma_rule_identity_plain(Rule::Details, prefixes, s);
    lemma_rule_identity_plain(Rule::Note, prefixes, s);
    lemma_rule_identity_plain(Rule::Ref, prefixes, s);
    lemma_rule_identity_plain(Rule::Symbol, prefixes, s);
    lemma_rule_identity_plain(Rule::Emphasis, prefixes, s);
    lemma_returns_identity(s, 0, false);
    lemma_rule_identity_plain(Rule::Heading, prefixes, s);
    assert(rewrite_spec(s, prefixes).0 == s);
    if mode == Mode::WholeFile {
        assert forall|j: int| 0 <= j < s.len() implies !group_line(s, j) by {
            lemma_run_end(CharClass::HSpace, s, j);
            lemma_run_end(CharClass::Slash, s, run_end(CharClass::HSpace, s, j));
        }
        lemma_strip_identity(s, 0, StripState::LineStart);
        assert(s.skip(0) =~= s);
    }
}

/// Cross-reference non-duplication: a symbol occurrence that stands directly
/// after `[` — the link form the reference rule has already produced — is
/// never promoted a second time.  This is the invariant that lets bare-symbol
/// promotion run after reference rewriting without double-wrapping.
pub proof fn lemma_no_double_wrap(s: Seq<char>, prefixes: Seq<Seq<char>>, i: int)
    requires
        0 < i < s.len(),
        s[i - 1] == '[',
        sym_end(s, prefixes, i) is Some,
    ensures
        symbol_match(s, prefixes, i) is None,
{
    lemma_run_end(CharClass::Word, s, i);
    assert(run_end(CharClass::Word, s, i) > i);
    assert(crate::chars::is_word(s[i]));
}

/// Mode equivalence: when the rewritten comment holds no group-opening line —
/// in particular, for any isolated comment without group markers — per-comment
/// mode and whole-file mode produce the same text and the same deprecation
/// note.
pub proof fn lemma_mode_equivalence(s: Seq<char>, prefixes: Seq<Seq<char>>)
    requires
        !has_group_line(rewrite_spec(s, prefixes).0),
    ensures
        transform_spec(s, prefixes, Mode::WholeFile) == transform_spec(
            s,
            prefixes,
            Mode::PerComment,
        ),
{
    lemma_strip_groups_identity(rewrite_spec(s, prefixes).0);
}

} // verus!
