//! A source-to-source structural transformer: it permutes the declared order
//! of the members of record (struct) and tagged-union (enum) type
//! declarations, pseudo-randomly but reproducibly from a numeric seed, and
//! tags every reordered declaration with a fixed-layout annotation so that
//! the new declared order is also the in-memory order.
//!
//! The crate works on its own model of a syntax tree ([`ast::SourceFile`]);
//! reading source text into that model and printing it back are left to the
//! surrounding program.

pub mod ast;
pub mod language;
pub mod laws;
pub mod matcher;
pub mod options;
pub mod rng;
pub mod visitor;
