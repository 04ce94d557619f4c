//! A bridge between a garbage-collected host and natively owned zip resources.
//!
//! A host object carries an integer field that addresses a cell in a side
//! table. The cell owns the native value and a reentrant lock. A value gets
//! into a cell by `set_field`, is borrowed by `get_field` and leaves by
//! `take_field`; the readers, writers and entries of archives live behind
//! such fields.

pub mod cache;
pub mod codec;
pub mod error;
pub mod interop;
pub mod lifecycle;
pub mod lock;
pub mod zip_entry;
pub mod zip_reader;
pub mod zip_writer;
