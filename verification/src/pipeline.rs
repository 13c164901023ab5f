//! The rewrite pipeline: configuration, the ordered composition of the
//! passes, and the public entry point.
//!
//! The pass order is load-bearing.  The summary promotion runs first, so the
//! later rules see the comment without its `@brief` marker; the reference
//! rule runs before bare-symbol promotion, so a symbol it has wrapped is not
//! wrapped again; inline emphasis runs after both, so their replacements are
//! not re-rendered as code spans; the return-value pass runs after symbol
//! promotion, so a promoted value keeps its link form inside the list item;
//! and the heading fallback runs last, over whatever return tokens kept no
//! value.  In whole-file mode the structural group deletion runs after all
//! per-comment rules, never interleaved with them.

use vstd::prelude::*;
use crate::rules::Rule;
use crate::rewrite::{rewrite_rule, rewrite_dep, rewrite_returns, apply_rule, apply_dep,
    apply_returns};
use crate::structural::{strip_groups, apply_strip_groups};
use crate::text::{str_to_chars, chars_to_string};

verus! {

/// The granularity the pipeline is invoked at: once per raw comment, or once
/// over a whole generated file.  Only whole-file mode runs the structural
/// group deletion; in per-comment mode the group markers never reach the
/// pipeline in the first place.
#[derive(Clone, Copy, PartialEq, Eq, Structural)]
pub enum Mode {
    PerComment,
    WholeFile,
}

/// The tunable parameters of the pipeline: the operating mode and the set of
/// identifier prefixes eligible for bare-symbol promotion.
pub struct Config {
    pub mode: Mode,
    pub symbol_prefixes: Vec<String>,
}

/// A transformed comment: the rewritten text, and the note of the first
/// deprecation directive when one was found (`Some("")` marks a bare
/// `@deprecated`).  The deprecation pass fires once per input, so the mark
/// belongs to the unit the pipeline was handed: one comment in per-comment
/// mode, the whole file in whole-file mode.
pub struct Transformed {
    pub text: String,
    pub deprecation: Option<String>,
}

/// The rewritten text and extracted deprecation note of one input, before any
/// structural pass.
pub open spec fn rewrite_spec(s: Seq<char>, prefixes: Seq<Seq<char>>) -> (
    Seq<char>,
    Option<Seq<char>>,
) {
    let t1 = rewrite_rule(Rule::Brief, prefixes, s);
    let d = rewrite_dep(t1);
    let t2 = rewrite_rule(Rule::Param, prefixes, d.0);
    let t3 = rewrite_rule(Rule::Details, prefixes, t2);
    let t4 = rewrite_rule(Rule::Note, prefixes, t3);
    let t5 = rewrite_rule(Rule::Ref, prefixes, t4);
    let t6 = rewrite_rule(Rule::Symbol, prefixes, t5);
    let t7 = rewrite_rule(Rule::Emphasis, prefixes, t6);
    let t8 = rewrite_returns(t7);
    let t9 = rewrite_rule(Rule::Heading, prefixes, t8);
    (t9, d.1)
}

/// What the pipeline produces: the per-comment rewrite, followed in
/// whole-file mode by the structural group deletion.
pub open spec fn transform_spec(s: Seq<char>, prefixes: Seq<Seq<char>>, mode: Mode) -> (
    Seq<char>,
    Option<Seq<char>>,
) {
    let r = rewrite_spec(s, prefixes);
    match mode {
        Mode::PerComment => r,
        Mode::WholeFile => (strip_groups(r.0), r.1),
    }
}

/// Transform one comment (or, in whole-file mode, one generated file).  The
/// transformation is total: input that no rule matches passes through
/// unchanged, and a malformed directive is left as literal text.
pub fn transform(comment: &str, config: &Config) -> (t: Transformed)
    ensures
        t.text@ == transform_spec(comment@, config.symbol_prefixes.deep_view(), config.mode).0,
        t.deprecation.deep_view() == transform_spec(
            comment@,
            config.symbol_prefixes.deep_view(),
            config.mode,
        ).1,
{
    let v0 = str_to_chars(comment);
    let t1 = apply_rule(Rule::Brief, &config.symbol_prefixes, &v0);
    let (t2, note) = apply_dep(&t1);
    let t3 = apply_rule(Rule::Param, &config.symbol_prefixes, &t2);
    let t4 = apply_rule(Rule::Details, &config.symbol_prefixes, &t3);
    let t5 = apply_rule(Rule::Note, &config.symbol_prefixes, &t4);
    let t6 = apply_rule(Rule::Ref, &config.symbol_prefixes, &t5);
    let t7 = apply_rule(Rule::Symbol, &config.symbol_prefixes, &t6);
    let t8 = apply_rule(Rule::Emphasis, &config.symbol_prefixes, &t7);
    let t9 = apply_returns(&t8);
    let t10 = apply_rule(Rule::Heading, &config.symbol_prefixes, &t9);
    let text_chars = match config.mode {
        Mode::PerComment => t10,
        Mode::WholeFile => apply_strip_groups(&t10),
    };
    let deprecation = match note {
        Some(n) => Some(chars_to_string(&n)),
        None => None,
    };
    Transformed { text: chars_to_string(&text_chars), deprecation }
}

} // verus!
