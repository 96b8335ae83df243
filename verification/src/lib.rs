//! Intermediate representation for a small functional language whose
//! evaluation model is an interaction-net graph-reduction machine.
//!
//! The crate provides the term and pattern data model, a global registry
//! mapping definition names to compact integer identifiers, a deterministic
//! textual renderer, and a capture-sensitive substitution operation that
//! distinguishes lexical binders from scopeless (channel) binders.

pub mod book;
pub mod registry;
pub mod render;
pub mod subst;
pub mod term;

pub use book::{Definition, DefinitionBook, Rule};
pub use registry::DefNames;
pub use term::{Op, Pattern, Term};
