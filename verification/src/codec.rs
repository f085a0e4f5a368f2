//! Output format and compression codec selection.
//!
//! Only columnar (parquet) and delimited-text (csv) outputs are
//! supported, and the codec names form a small fixed set; any other name
//! is a configuration error, reported before any work for the table
//! starts, with no fallback substitution.

use vstd::prelude::*;
use vstd::string::*;
use crate::ConvError;
use crate::schema::{ColumnView, TableSchema};

verus! {

/// A compression codec for columnar output.
#[derive(Debug, Clone, Copy, PartialEq, Eq, Structural)]
pub enum Compression {
    Uncompressed,
    Snappy,
    Lz4,
    Lzo,
}

/// The shape of the written output: delimited text, or columnar with a
/// chosen compression codec.
#[derive(Debug, Clone, Copy, PartialEq, Eq, Structural)]
pub enum SinkFormat {
    Csv,
    Parquet(Compression),
}

/// The codec a configuration name denotes, if any.
pub open spec fn compression_of(name: Seq<char>) -> Option<Compression> {
    if name == "none"@ {
        Some(Compression::Uncompressed)
    } else if name == "snappy"@ {
        Some(Compression::Snappy)
    } else if name == "lz4"@ {
        Some(Compression::Lz4)
    } else if name == "lz0"@ {
        Some(Compression::Lzo)
    } else {
        None
    }
}

/// The sink a pair of configuration names denotes: an unsupported format
/// name is a configuration error, and so is an unsupported codec name
/// when (and only when) the format is columnar.
pub open spec fn sink_of(format: Seq<char>, compression: Seq<char>) -> Result<
    SinkFormat,
    ConvError,
> {
    if format == "csv"@ {
        Ok(SinkFormat::Csv)
    } else if format == "parquet"@ {
        match compression_of(compression) {
            Some(c) => Ok(SinkFormat::Parquet(c)),
            None => Err(ConvError::Configuration),
        }
    } else {
        Err(ConvError::Configuration)
    }
}

fn str_eq(a: &str, b: &str) -> (r: bool)
    ensures
        r == (a@ == b@),
{
    let a = String::from_str(a);
    let b = String::from_str(b);
    a == b
}

pub fn parse_compression(name: &str) -> (r: Result<Compression, ConvError>)
    ensures
        r == match compression_of(name@) {
            Some(c) => Ok::<Compression, ConvError>(c),
            None => Err::<Compression, ConvError>(ConvError::Configuration),
        },
{
    if str_eq(name, "none") {
        Ok(Compression::Uncompressed)
    } else if str_eq(name, "snappy") {
        Ok(Compression::Snappy)
    } else if str_eq(name, "lz4") {
        Ok(Compression::Lz4)
    } else if str_eq(name, "lz0") {
        Ok(Compression::Lzo)
    } else {
        Err(ConvError::Configuration)
    }
}

pub fn parse_sink(format: &str, compression: &str) -> (r: Result<SinkFormat, ConvError>)
    ensures
        r == sink_of(format@, compression@),
{
    if str_eq(format, "csv") {
        Ok(SinkFormat::Csv)
    } else if str_eq(format, "parquet") {
        match parse_compression(compression) {
            Ok(c) => Ok(SinkFormat::Parquet(c)),
            Err(e) => Err(e),
        }
    } else {
        Err(ConvError::Configuration)
    }
}

/// The field delimiter of the source records: the code of the pipe
/// character `|`.
pub const PIPE_DELIMITER: u8 = 124;

/// Everything the external writer needs for one input file, fixed before
/// any I/O: the read schema, the projection that drops the placeholder,
/// the record delimiter, and the sink shape.
#[derive(Debug, Clone, PartialEq)]
pub struct WritePlan {
    /// The schema the delimited text is decoded with.
    pub read_schema: TableSchema,
    /// The indices of the read-schema columns that are persisted.
    pub projection: Vec<usize>,
    /// The single-byte field delimiter of the source records.
    pub delimiter: u8,
    /// Whether the source files carry a header row (they never do).
    pub has_header: bool,
    /// The number of rows decoded per batch.
    pub batch_size: usize,
    /// The shape and codec of the written output.
    pub sink: SinkFormat,
}

/// The mathematical value of a [`WritePlan`].
pub struct WritePlanView {
    pub read_schema: Seq<ColumnView>,
    pub projection: Seq<usize>,
    pub delimiter: u8,
    pub has_header: bool,
    pub batch_size: usize,
    pub sink: SinkFormat,
}

impl View for WritePlan {
    type V = WritePlanView;

    open spec fn view(&self) -> WritePlanView {
        WritePlanView {
            read_schema: self.read_schema@,
            projection: self.projection@,
            delimiter: self.delimiter,
            has_header: self.has_header,
            batch_size: self.batch_size,
            sink: self.sink,
        }
    }
}

} // verus!
