//! A verified rewriting engine for Doxygen-style documentation comments.
//!
//! The library turns the directive markup found in C header comments
//! (`@brief`, `@param`, `@retval`, `@ref`, `@note`, `@deprecated`, ...)
//! into a heading-and-list based documentation dialect.  The engine is an
//! ordered cascade of pattern rules; every rule, and the cascade itself, is
//! specified exactly over `Seq<char>` and proved against that specification.
//!
//! The crate's entry point is [`pipeline::transform`]; the laws that the
//! pipeline obeys are stated and proved in [`laws`].  [`modem_err`] holds the
//! two small accessors for the combined AT-command error word that accompany
//! the bindings the comments document.

pub mod chars;
pub mod laws;
pub mod matchers;
pub mod modem_err;
pub mod pipeline;
pub mod rewrite;
pub mod rules;
pub mod scan;
pub mod structural;
pub mod text;

pub use pipeline::{Config, Mode, Transformed, transform};
