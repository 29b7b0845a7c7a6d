//! Decoder for a binary container format that ships vehicle-ECU diagnostic
//! databases: communication parameters, diagnostic-service locations, and
//! hardware/software variants. Records pack optional fields behind a bit
//! mask and address shared pools through relative offsets; decoding turns a
//! flat byte source into a typed object graph or fails with one terminal
//! error.

use vstd::prelude::*;

pub mod bitflag;
pub mod cli;
pub mod container;
pub mod diag;
pub mod ecu;
pub mod iface;
pub mod params;
pub mod pcan;
pub mod reader;
pub mod variant;

verus! {

/// One terminal failure aborts the whole decode; no partial graph is exposed.
#[derive(Debug, Clone, Copy, PartialEq, Eq, Structural)]
pub enum DecodeError {
    /// A read or seek past the end of the byte source, or an address
    /// computation that cannot denote a position in it.
    OutOfBounds,
    /// A field whose decoded shape is not the expected one, such as a
    /// communication-parameter dump that is not exactly four bytes wide.
    SchemaViolation,
    /// An index that does not resolve within its owning collection.
    ReferenceOutOfRange,
}

/// The character sequence behind an optional string.
pub open spec fn opt_str_view(o: Option<String>) -> Option<Seq<char>> {
    match o {
        Some(x) => Some(x@),
        None => None,
    }
}

/// Relies on `str`'s `PartialEq`: two string slices are equal exactly when
/// their character sequences are.
#[verifier::external_body]
pub fn str_eq(a: &str, b: &str) -> (r: bool)
    ensures
        r == (a@ == b@),
{
    a == b
}

} // verus!
