//! Character classes used by the rewrite rules.
//!
//! Every class exists twice: as a spec predicate over `char` and as an
//! executable test proved equal to it.  A class stands for the character
//! sets of the directive grammar: whitespace, word characters, the dotted
//! identifiers of `@param`, and so on.

use vstd::prelude::*;

verus! {

/// Whitespace as the directive grammar understands it (ASCII).
pub open spec fn is_space(c: char) -> bool {
    c == ' ' || c == '\t' || c == '\n' || c == '\r' || c == '\u{000B}' || c == '\u{000C}'
}

/// Horizontal whitespace: space and tab, never a line break.
pub open spec fn is_hspace(c: char) -> bool {
    c == ' ' || c == '\t'
}

/// A word character: ASCII letter, digit, or underscore.
pub open spec fn is_word(c: char) -> bool {
    ('a' <= c && c <= 'z') || ('A' <= c && c <= 'Z') || ('0' <= c && c <= '9') || c == '_'
}

/// A character of a possibly dotted identifier, as `@param` allows.
pub open spec fn is_dotted_word(c: char) -> bool {
    is_word(c) || c == '.'
}

/// A separator before a bare symbol: whitespace or a dash.
pub open spec fn is_sep(c: char) -> bool {
    is_space(c) || c == '-'
}

/// A character of an inline-emphasis argument (`@p`, `@a`, `@c`).
pub open spec fn is_emph_arg(c: char) -> bool {
    is_word(c) || c == '*' || c == '(' || c == ')'
}

/// A character of a bracketed `@param` annotation, such as `in, out`.
pub open spec fn is_annot(c: char) -> bool {
    is_word(c) || c == ',' || is_space(c)
}

/// The character classes a scan can run over.
#[derive(Clone, Copy, PartialEq, Eq, Structural)]
pub enum CharClass {
    /// Whitespace, line breaks included.
    Space,
    /// Space and tab only.
    HSpace,
    /// Word characters.
    Word,
    /// Word characters and `.`.
    DottedWord,
    /// Whitespace or `-`.
    Sep,
    /// Inline-emphasis argument characters.
    EmphArg,
    /// Bracketed-annotation characters.
    Annot,
    /// The `/` character.
    Slash,
    /// Anything but `.` and a line break.
    NotDotOrBreak,
}

/// Membership of a character in a class.
pub open spec fn in_class(cc: CharClass, c: char) -> bool {
    match cc {
        CharClass::Space => is_space(c),
        CharClass::HSpace => is_hspace(c),
        CharClass::Word => is_word(c),
        CharClass::DottedWord => is_dotted_word(c),
        CharClass::Sep => is_sep(c),
        CharClass::EmphArg => is_emph_arg(c),
        CharClass::Annot => is_annot(c),
        CharClass::Slash => c == '/',
        CharClass::NotDotOrBreak => c != '.' && c != '\n',
    }
}

/// Executable test for a whitespace character.
pub fn space_char(c: char) -> (b: bool)
    ensures
        b == is_space(c),
{
    c == ' ' || c == '\t' || c == '\n' || c == '\r' || c == '\u{000B}' || c == '\u{000C}'
}

/// Executable test for a word character.
pub fn word_char(c: char) -> (b: bool)
    ensures
        b == is_word(c),
{
    ('a' <= c && c <= 'z') || ('A' <= c && c <= 'Z') || ('0' <= c && c <= '9') || c == '_'
}

/// Executable membership test for a character class.
pub fn class_char(cc: CharClass, c: char) -> (b: bool)
    ensures
        b == in_class(cc, c),
{
    match cc {
        CharClass::Space => space_char(c),
        CharClass::HSpace => c == ' ' || c == '\t',
        CharClass::Word => word_char(c),
        CharClass::DottedWord => word_char(c) || c == '.',
        CharClass::Sep => space_char(c) || c == '-',
        CharClass::EmphArg => word_char(c) || c == '*' || c == '(' || c == ')',
        CharClass::Annot => word_char(c) || c == ',' || space_char(c),
        CharClass::Slash => c == '/',
        CharClass::NotDotOrBreak => c != '.' && c != '\n',
    }
}

} // verus!
