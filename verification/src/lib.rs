//! A single-user catalogue of book records.
//!
//! The crate validates the fields of a record, builds records only from
//! validated fields, and turns the whole catalogue into the bytes that are
//! kept on disk and back. Reading and writing the file is left to the caller:
//! every operation of [`store`] takes the bytes of the store and hands back
//! the bytes to write, or nothing to write where the store is to stay as it
//! is.
//!
//! - [`text`]: white space, blank texts, trimming.
//! - [`calendar`]: dates, and which days exist.
//! - [`reason`]: why an input was turned down.
//! - [`utils`]: the validators of single fields.
//! - [`models`]: genres and books.
//! - [`catalog`]: the list of books in memory, and what adding, removing and
//!   editing do to it.
//! - [`store`]: the stored image of the list, and the same operations from
//!   bytes to bytes.
//! - [`laws`]: what holds of these rules for every input.
//! - [`outside`]: the calls into other crates, which are taken on trust.
//!
//! The store is written as a whole after every change, and that is a known
//! gap: a write that is cut short can leave the start of the image, which the
//! next load reports as corrupt, or no bytes at all, which the next load
//! takes for a store that was never written. Nothing here guards the file
//! against a second writer either.

pub mod calendar;
pub mod catalog;
pub mod laws;
pub mod models;
pub mod outside;
pub mod reason;
pub mod store;
pub mod text;
pub mod utils;
