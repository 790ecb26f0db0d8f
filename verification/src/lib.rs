//! Schema-driven generation of fallible "staging" record types.
//!
//! A record definition (a named set of typed fields, an error type, and a few
//! options) is normalized into a [`schema::StructSpec`], from which
//! [`generate::generate`] deterministically derives the shape of an
//! intermediate staging type and of its conversion back to the record.
//! [`convert::try_convert`] gives the runtime semantics of that conversion:
//! per-field error isolation, ordered error accumulation, and a pluggable
//! reduction from many errors to one.

pub mod convert;
pub mod generate;
pub mod schema;
