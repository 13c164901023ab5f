//! The whole-file structural pass: group-block deletion.
//!
//! In whole-file mode, a line that opens a documentation group — optional
//! indentation, an optional run of comment slashes, and an `@addtogroup`
//! directive — starts a block that is deleted entirely, up to and including
//! the first line that is exactly empty.  The pass is a character-level state
//! machine, so a block never leaks across an intervening non-empty line
//! boundary by accident: the decision is taken at each line start alone.

use vstd::prelude::*;
use crate::chars::CharClass;
use crate::scan::{run_end, dir_at, word_boundary, scan_run, match_dir, at_word_boundary,
    lemma_run_end};

verus! {

/// The line beginning at `i` opens a documentation group: indentation, an
/// optional run of `/`, more indentation, then an `@addtogroup` directive.
pub open spec fn group_line(s: Seq<char>, i: int) -> bool {
    let a = run_end(CharClass::HSpace, s, i);
    let b = run_end(CharClass::Slash, s, a);
    let c = run_end(CharClass::HSpace, s, b);
    dir_at(s, c, "addtogroup"@) && word_boundary(s, c + 11)
}

/// The text holds a group-opening line somewhere.
pub open spec fn has_group_line(s: Seq<char>) -> bool {
    exists|i: int| 0 <= i < s.len() && group_line(s, i)
}

/// The states of the deletion machine: copying at a line start, copying
/// inside a line, deleting inside a line, and deleting at a line start (where
/// an empty line ends the block).
#[derive(Clone, Copy, PartialEq, Eq, Structural)]
pub enum StripState {
    LineStart,
    InLine,
    DelInLine,
    DelLineStart,
}

/// The text the structural pass produces from the suffix at `i` in state `st`.
pub open spec fn strip_from(s: Seq<char>, i: int, st: StripState) -> Seq<char>
    decreases s.len() - i,
{
    if !(0 <= i < s.len()) {
        Seq::<char>::empty()
    } else {
        let c = s[i];
        match st {
            StripState::LineStart => if group_line(s, i) {
                strip_from(s, i + 1, StripState::DelInLine)
            } else {
                seq![c] + strip_from(
                    s,
                    i + 1,
                    if c == '\n' {
                        StripState::LineStart
                    } else {
                        StripState::InLine
                    },
                )
            },
            StripState::InLine => seq![c] + strip_from(
                s,
                i + 1,
                if c == '\n' {
                    StripState::LineStart
                } else {
                    StripState::InLine
                },
            ),
            StripState::DelInLine => strip_from(
                s,
                i + 1,
                if c == '\n' {
                    StripState::DelLineStart
                } else {
                    StripState::DelInLine
                },
            ),
            StripState::DelLineStart => if c == '\n' {
                strip_from(s, i + 1, StripState::LineStart)
            } else {
                strip_from(s, i + 1, StripState::DelInLine)
            },
        }
    }
}

/// The text with every group block deleted.
pub open spec fn strip_groups(s: Seq<char>) -> Seq<char> {
    strip_from(s, 0, StripState::LineStart)
}

/// Executable test that the line starting at `i` opens a group.
pub fn is_group_line(v: &Vec<char>, i: usize) -> (b: bool)
    requires
        i <= v.len(),
    ensures
        b == group_line(v@, i as int),
{
    proof {
        reveal_strlit("addtogroup");
        lemma_run_end(CharClass::HSpace, v@, i as int);
        lemma_run_end(CharClass::Slash, v@, run_end(CharClass::HSpace, v@, i as int));
        lemma_run_end(
            CharClass::HSpace,
            v@,
            run_end(CharClass::Slash, v@, run_end(CharClass::HSpace, v@, i as int)),
        );
    }
    let a = scan_run(CharClass::HSpace, v, i);
    let b = scan_run(CharClass::Slash, v, a);
    let c = scan_run(CharClass::HSpace, v, b);
    if !match_dir(v, c, "addtogroup") {
        return false;
    }
    at_word_boundary(v, c + 11)
}

/// Delete every group block from the text.
pub fn apply_strip_groups(v: &Vec<char>) -> (out: Vec<char>)
    ensures
        out@ == strip_groups(v@),
{
    let mut out: Vec<char> = Vec::new();
    let mut i: usize = 0;
    let mut st = StripState::LineStart;
    while i < v.len()
        invariant
            0 <= i <= v.len(),
            strip_groups(v@) == out@ + strip_from(v@, i as int, st),
        decreases v.len() - i,
    {
        let ghost out0 = out@;
        let ghost st0 = st;
        let c = v[i];
        match st {
            StripState::LineStart => {
                if is_group_line(v, i) {
                    st = StripState::DelInLine;
                } else {
                    out.push(c);
                    st = if c == '\n' {
                        StripState::LineStart
                    } else {
                        StripState::InLine
                    };
                }
            },
            StripState::InLine => {
                out.push(c);
                st = if c == '\n' {
                    StripState::LineStart
                } else {
                    StripState::InLine
                };
            },
            StripState::DelInLine => {
                st = if c == '\n' {
                    StripState::DelLineStart
                } else {
                    StripState::DelInLine
                };
            },
            StripState::DelLineStart => {
                st = if c == '\n' {
                    StripState::LineStart
                } else {
                    StripState::DelInLine
                };
            },
        }
        proof {
            assert(out@ + strip_from(v@, i + 1 as int, st) =~= out0 + strip_from(
                v@,
                i as int,
                st0,
            ));
        }
        i = i + 1;
    }
    proof {
        assert(out@ + strip_from(v@, i as int, st) =~= out@);
    }
    out
}

} // verus!
