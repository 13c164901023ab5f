//! The rule table: one match specification per rewrite rule.
//!
//! A rule is asked whether it matches the text `s` at position `i`.  A match
//! yields the position just past the consumed span and the replacement that
//! stands in for it; `None` leaves the character at `i` untouched.  Rules are
//! deliberately fail-open: a malformed directive matches nothing and stays in
//! the text as it was written.
//!
//! The table is ordered; [`crate::pipeline`] applies the rules in the order
//! the variants of [`Rule`] are declared, with the deprecation and
//! return-value passes (which carry extra state) interleaved at their places.

use vstd::prelude::*;
use crate::chars::{CharClass, is_space, is_sep};
use crate::scan::{run_end, lit_at, dir_at, word_boundary};

verus! {

/// The stateless rules of the table, in application order.
#[derive(Clone, Copy, PartialEq, Eq, Structural)]
pub enum Rule {
    /// `@brief` and the whitespace around it vanish, so the summary text is
    /// promoted to the comment's leading line.
    Brief,
    /// `@param [annot] name body` becomes the list item ``` * `name` [annot] - body```.
    Param,
    /// `@details` becomes a `# Details` section header.
    Details,
    /// `@note`, however placed in a sentence, becomes a bold `**Note:**` callout.
    Note,
    /// `@ref name` / `@refitem name` becomes the link form `[name]`.
    Ref,
    /// A bare symbol with a configured prefix becomes the link form `[symbol]`.
    Symbol,
    /// `@p x`, `@a x`, `@c x` become the inline code span `` `x` ``.
    Emphasis,
    /// `@name` becomes a generic heading; a return directive that the
    /// return-value pass left behind becomes a bare `# Returns` heading.
    Heading,
}

/// A match: the end of the consumed span, and the replacement text.
pub type RuleMatch = Option<(int, Seq<char>)>;

/// `@brief`: the surrounding whitespace, the token, and the whitespace after
/// it are deleted, which moves the trailing summary text to the front.
pub open spec fn brief_match(s: Seq<char>, i: int) -> RuleMatch {
    let w = run_end(CharClass::Space, s, i);
    if dir_at(s, w, "brief"@) && word_boundary(s, w + 6) {
        Some((run_end(CharClass::Space, s, w + 6), Seq::<char>::empty()))
    } else {
        None
    }
}

/// The span after an optional bracketed `@param` annotation: `Some((true, p))`
/// with `p` past the closing bracket, `Some((false, w1))` when no bracket
/// opens at `w1`, and `None` for a malformed bracket, which fails the rule.
pub open spec fn param_annot(s: Seq<char>, w1: int) -> Option<(bool, int)> {
    if 0 <= w1 < s.len() && s[w1] == '[' {
        let a = run_end(CharClass::Annot, s, w1 + 1);
        if a > w1 + 1 && a < s.len() && s[a] == ']' {
            Some((true, a + 1))
        } else {
            None
        }
    } else {
        Some((false, w1))
    }
}

/// The list item a `@param` match produces.
pub open spec fn param_rep(s: Seq<char>, w1: int, has_ann: bool, p: int, w2: int, ve: int) -> Seq<
    char,
> {
    "\n * `"@ + s.subrange(w2, ve) + "`"@ + (if has_ann {
        " "@ + s.subrange(w1, p)
    } else {
        Seq::<char>::empty()
    }) + " - "@
}

/// `@param [annot] name body`: the identifier (dots allowed) is rendered as
/// inline code, the bracketed annotation is kept verbatim, and the free-text
/// body follows a `-` separator.  The body must be separated from the
/// identifier by whitespace, or the rule does not match.
pub open spec fn param_match(s: Seq<char>, i: int) -> RuleMatch {
    let w0 = run_end(CharClass::Space, s, i);
    if (dir_at(s, w0, "param"@) || dir_at(s, w0, "Param"@)) && word_boundary(s, w0 + 6) {
        let w1 = run_end(CharClass::Space, s, w0 + 6);
        match param_annot(s, w1) {
            Some((has_ann, p)) => {
                let w2 = run_end(CharClass::Space, s, p);
                let ve = run_end(CharClass::DottedWord, s, w2);
                if ve > w2 {
                    let we = run_end(CharClass::Space, s, ve);
                    if we > ve {
                        Some((we, param_rep(s, w1, has_ann, p, w2, ve)))
                    } else {
                        None
                    }
                } else {
                    None
                }
            },
            None => None,
        }
    } else {
        None
    }
}

/// `@details` / `@detail`: the token and the whitespace around it become a
/// `# Details` section header; the body follows on the next line.
pub open spec fn details_match(s: Seq<char>, i: int) -> RuleMatch {
    let w = run_end(CharClass::Space, s, i);
    if dir_at(s, w, "details"@) && word_boundary(s, w + 8) {
        Some((run_end(CharClass::Space, s, w + 8), "\n# Details\n"@))
    } else if dir_at(s, w, "detail"@) && word_boundary(s, w + 7) {
        Some((run_end(CharClass::Space, s, w + 7), "\n# Details\n"@))
    } else {
        None
    }
}

/// `@note`, with or without a trailing colon, becomes a bold `**Note:**`
/// callout on a fresh paragraph; the body text stays in place.
pub open spec fn note_match(s: Seq<char>, i: int) -> RuleMatch {
    let w = run_end(CharClass::Space, s, i);
    if dir_at(s, w, "note"@) && word_boundary(s, w + 5) {
        let t = if w + 5 < s.len() && s[w + 5] == ':' {
            w + 6
        } else {
            w + 5
        };
        Some((run_end(CharClass::Space, s, t), "\n\n**Note:** "@))
    } else {
        None
    }
}

/// `@ref name` / `@refitem name`: the named identifier, an optional `()` and
/// an optional trailing period are replaced by the link form `[name]`; the
/// whitespace after the reference is preserved so adjacent words do not merge.
pub open spec fn ref_match(s: Seq<char>, i: int) -> RuleMatch {
    let w = run_end(CharClass::Space, s, i);
    let tokend = if dir_at(s, w, "refitem"@) {
        w + 8
    } else if dir_at(s, w, "ref"@) {
        w + 4
    } else {
        -1
    };
    if tokend > 0 {
        let w1 = run_end(CharClass::Space, s, tokend);
        if w1 > tokend {
            let ve = run_end(CharClass::Word, s, w1);
            if ve > w1 {
                let p = if lit_at(s, ve, "()"@) {
                    ve + 2
                } else {
                    ve
                };
                let q = if p < s.len() && s[p] == '.' {
                    p + 1
                } else {
                    p
                };
                let we = run_end(CharClass::Space, s, q);
                if we > q {
                    Some((we, " ["@ + s.subrange(w1, ve) + "]"@ + s.subrange(q, we)))
                } else {
                    None
                }
            } else {
                None
            }
        } else {
            None
        }
    } else {
        None
    }
}

/// The end of a bare-symbol occurrence starting exactly at `i`: a maximal
/// word run that begins with one of the configured prefixes and continues
/// past it by at least one character.
pub open spec fn sym_end(s: Seq<char>, prefixes: Seq<Seq<char>>, i: int) -> Option<int> {
    let we = run_end(CharClass::Word, s, i);
    if exists|k: int|
        0 <= k < prefixes.len() && lit_at(s, i, prefixes[k]) && we >= i + prefixes[k].len() + 1 {
        Some(we)
    } else {
        None
    }
}

/// A bare symbol is promoted only when it stands alone: at the start of the
/// text or after whitespace or a dash.  A symbol already wrapped by the
/// reference rule is preceded by `[` and is therefore never wrapped twice.
pub open spec fn sym_context(s: Seq<char>, i: int) -> bool {
    i == 0 || (0 < i <= s.len() && is_sep(s[i - 1]))
}

/// Bare-symbol promotion.  Three shapes are recognized: an emphasis token
/// `@p`/`@a`/`@c` directly in front of the symbol (the token is absorbed, the
/// symbol wins the link form), a Doxygen `#symbol` auto-link (the `#` is
/// absorbed), and the plain standalone symbol.
pub open spec fn symbol_match(s: Seq<char>, prefixes: Seq<Seq<char>>, i: int) -> RuleMatch {
    if 0 <= i && i + 1 < s.len() && (s[i] == '@' || s[i] == '\\') && (s[i + 1] == 'p' || s[i + 1]
        == 'a' || s[i + 1] == 'c') {
        let d = run_end(CharClass::Sep, s, i + 2);
        if d > i + 2 {
            let h = if d < s.len() && s[d] == '#' {
                d + 1
            } else {
                d
            };
            match sym_end(s, prefixes, h) {
                Some(we) => Some((we, "["@ + s.subrange(h, we) + "]"@)),
                None => None,
            }
        } else {
            None
        }
    } else if 0 <= i < s.len() && s[i] == '#' && sym_context(s, i) {
        match sym_end(s, prefixes, i + 1) {
            Some(we) => Some((we, "["@ + s.subrange(i + 1, we) + "]"@)),
            None => None,
        }
    } else if sym_context(s, i) {
        match sym_end(s, prefixes, i) {
            Some(we) => Some((we, "["@ + s.subrange(i, we) + "]"@)),
            None => None,
        }
    } else {
        None
    }
}

/// `@p x` / `@a x` / `@c x`: the argument (which may carry parentheses or
/// asterisks) becomes an inline code span.
pub open spec fn emphasis_match(s: Seq<char>, i: int) -> RuleMatch {
    if 0 <= i && i + 1 < s.len() && (s[i] == '@' || s[i] == '\\') && (s[i + 1] == 'p' || s[i + 1]
        == 'a' || s[i + 1] == 'c') {
        let w = run_end(CharClass::Space, s, i + 2);
        if w > i + 2 {
            let ae = run_end(CharClass::EmphArg, s, w);
            if ae > w {
                Some((ae, "`"@ + s.subrange(w, ae) + "`"@))
            } else {
                None
            }
        } else {
            None
        }
    } else {
        None
    }
}

/// `@name` becomes a generic heading marker; a return directive that kept no
/// value token is normalized to a bare `# Returns` heading as a fallback.
pub open spec fn heading_match(s: Seq<char>, i: int) -> RuleMatch {
    let w = run_end(CharClass::Space, s, i);
    if dir_at(s, w, "name"@) && word_boundary(s, w + 5) {
        Some((run_end(CharClass::Space, s, w + 5), "\n# "@))
    } else if dir_at(s, w, "returns"@) && word_boundary(s, w + 8) {
        Some((run_end(CharClass::Space, s, w + 8), "\n# Returns\n"@))
    } else if dir_at(s, w, "return"@) && word_boundary(s, w + 7) {
        Some((run_end(CharClass::Space, s, w + 7), "\n# Returns\n"@))
    } else if dir_at(s, w, "retval"@) && word_boundary(s, w + 7) {
        Some((run_end(CharClass::Space, s, w + 7), "\n# Returns\n"@))
    } else {
        None
    }
}

/// Dispatch a rule of the table.
pub open spec fn rule_match(r: Rule, prefixes: Seq<Seq<char>>, s: Seq<char>, i: int) -> RuleMatch {
    match r {
        Rule::Brief => brief_match(s, i),
        Rule::Param => param_match(s, i),
        Rule::Details => details_match(s, i),
        Rule::Note => note_match(s, i),
        Rule::Ref => ref_match(s, i),
        Rule::Symbol => symbol_match(s, prefixes, i),
        Rule::Emphasis => emphasis_match(s, i),
        Rule::Heading => heading_match(s, i),
    }
}

/// A return directive with a value token: `@return`, `@returns` or `@retval`,
/// whitespace, an optional sign, and a value (which may already carry the
/// brackets of the link form).  Yields the end of the span and the list item
/// without the section header; the caller decides whether a header is due.
pub open spec fn ret_match(s: Seq<char>, i: int) -> RuleMatch {
    if 0 <= i < s.len() && (s[i] == '@' || s[i] == '\\') {
        let tokend = if lit_at(s, i + 1, "returns"@) {
            i + 8
        } else if lit_at(s, i + 1, "return"@) {
            i + 7
        } else if lit_at(s, i + 1, "retval"@) {
            i + 7
        } else {
            -1
        };
        if tokend > 0 {
            let w = run_end(CharClass::Space, s, tokend);
            if w > tokend {
                let neg = w < s.len() && s[w] == '-';
                let p0 = if neg {
                    if w + 1 < s.len() && is_space(s[w + 1]) {
                        w + 2
                    } else {
                        w + 1
                    }
                } else {
                    w
                };
                let b1 = if p0 < s.len() && s[p0] == '[' {
                    p0 + 1
                } else {
                    p0
                };
                let ve = run_end(CharClass::Word, s, b1);
                if ve > b1 {
                    let b2 = if ve < s.len() && s[ve] == ']' {
                        ve + 1
                    } else {
                        ve
                    };
                    Some(
                        (
                            b2,
                            "\n * "@ + (if neg {
                                "-"@
                            } else {
                                Seq::<char>::empty()
                            }) + s.subrange(p0, b2),
                        ),
                    )
                } else {
                    None
                }
            } else {
                None
            }
        } else {
            None
        }
    } else {
        None
    }
}

/// A deprecation directive: `@deprecated` followed by a note that runs to the
/// first period, line break, or the end of the comment.  Yields the end of
/// the removed span and the note with trailing whitespace trimmed; a closing
/// period is consumed but not part of the note.
pub open spec fn dep_match(s: Seq<char>, i: int) -> RuleMatch {
    if dir_at(s, i, "deprecated"@) && word_boundary(s, i + 11) {
        let n0 = run_end(CharClass::Space, s, i + 11);
        let ne = run_end(CharClass::NotDotOrBreak, s, n0);
        let j = if ne < s.len() && s[ne] == '.' {
            ne + 1
        } else {
            ne
        };
        Some((j, trim_end_spaces(s.subrange(n0, ne))))
    } else {
        None
    }
}

/// Drop trailing whitespace.
pub open spec fn trim_end_spaces(t: Seq<char>) -> Seq<char>
    decreases t.len(),
{
    if t.len() > 0 && is_space(t[t.len() - 1]) {
        trim_end_spaces(t.take(t.len() - 1))
    } else {
        t
    }
}

} // verus!
