//! Strict parsing and validation of `scope/name` package identifiers.
//!
//! The [`grammar`] module states, as specification-level predicates over
//! sequences of characters, exactly which strings are acceptable parts of a
//! package name, and provides the verified character-level checkers. The
//! [`names`] module wraps validated parts in the [`names::PackageName`] value
//! and the extensible [`names::PackageNames`] scheme union, together with the
//! error taxonomy a rejected input produces.

pub mod grammar;
pub mod names;
