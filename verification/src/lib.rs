//! Schema-driven conversion of pipe-delimited benchmark table dumps into
//! flat, densely numbered sets of columnar part files.
//!
//! The verified core plans every decision of the pipeline: read-schema
//! construction, output path layout, part numbering, the move-or-copy
//! relocation protocol, and the per-table conversion state machine.  The
//! unverified shell around it only performs the filesystem and engine
//! actions the core asks for and reports their outcomes back.

use vstd::prelude::*;

pub mod codec;
pub mod numeral;
pub mod parts;
pub mod paths;
pub mod pipeline;
pub mod relocate;
pub mod schema;

verus! {

/// The error kinds a conversion run can end with.
///
/// Every failure is fatal for the run: there are no retries, and the
/// failing table's output directory is left as it stands.
#[derive(Debug, Clone, Copy, PartialEq, Eq, Structural)]
pub enum ConvError {
    /// An input table directory is missing, or an output table directory
    /// already exists.
    Precondition,
    /// An unsupported output format or compression codec name.
    Configuration,
    /// A filesystem operation failed.
    Io,
    /// The external columnar engine reported a failure.
    Engine,
}

} // verus!
