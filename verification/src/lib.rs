//! The metadata model of a table format's manifest layer: what says, without
//! reading a data file, which files belong to a snapshot of a table, how they
//! are partitioned, and what is known of their columns.
//!
//! A container reader hands over one [`value::Value`] for each record. The
//! decoders of this crate take such a value as a row of a manifest list
//! ([`listing`]), as the header of a manifest ([`header`]) or as a row of a
//! manifest ([`entry`], with its [`data_file`]), and the encoders give the
//! record back. A decode that fails says where and why ([`fault`]).
//!
//! Every decoder's contract equates its outcome with a function of the
//! record's content, and [`laws`] states what follows for every record.

pub mod codes;
pub mod data_file;
pub mod entry;
pub mod fault;
pub mod header;
pub mod laws;
pub mod listing;
pub mod record;
pub mod scalar;
pub mod sparse;
pub mod summary;
pub mod value;
