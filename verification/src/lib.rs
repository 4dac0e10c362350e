//! A compiler from the schema of the Chrome DevTools Protocol to typed bindings.
//!
//! The schema is a list of domains, each with types, commands and events. The
//! compiler resolves every type node of the schema into a target type
//! expression and gives back a tree of declarations: type aliases,
//! enumerations, object declarations, one method binding for each command and
//! one variant of a union of all events for each event. A renderer turns the
//! tree into source text; none is part of this crate.
//!
//! Names on the wire are never changed. Every field and every enumeration
//! variant carries its wire name beside the identifier made from it.
//!
//! - [`schema`]: the schema model.
//! - [`decl`]: the declaration tree.
//! - [`naming`], [`casing`], [`text`]: how identifiers are made.
//! - [`resolve`]: the type resolver.
//! - [`unit`]: the emission unit of a domain and its dependency tracker.
//! - [`object`], [`compile`]: compiling types, commands and events.
//! - [`emit`]: the module emitter.
//! - [`laws`]: what holds of every compiled tree.
//!
//! Every exec function has a contract over the views of its arguments. The
//! contracts are proved with Verus, but for two calls that are taken on trust:
//! `String::push`, and the case conversion of the `convert_case` crate.

pub mod casing;
pub mod compile;
pub mod decl;
pub mod emit;
pub mod error;
pub mod fold;
pub mod laws;
pub mod naming;
pub mod object;
pub mod resolve;
pub mod schema;
pub mod text;
pub mod unit;
pub mod views;
