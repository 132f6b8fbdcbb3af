//! Random Japanese person names drawn from a table of pre-authored entries.
//!
//! A name table is a [`value::Value`]: a tree of tables, lists and texts.
//! The [`name`] module looks the name pools up in such a table, draws one
//! entry from each, and joins a surname and a given name into a [`name::Name`]
//! with its three written forms.

pub mod name;
mod random;
pub mod sample;
pub mod value;
