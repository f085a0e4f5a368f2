use tpcconv::codec::{parse_compression, parse_sink, Compression, SinkFormat};
use tpcconv::schema::{build_read_schema, write_projection, Column, DataKind, TableSchema};
use tpcconv::ConvError;

fn nation_schema() -> TableSchema {
    TableSchema {
        columns: vec![
            Column { name: "n_nationkey".to_string(), kind: DataKind::Int64, nullable: false },
            Column { name: "n_name".to_string(), kind: DataKind::Utf8, nullable: false },
            Column { name: "n_regionkey".to_string(), kind: DataKind::Int64, nullable: false },
            Column { name: "n_comment".to_string(), kind: DataKind::Utf8, nullable: true },
        ],
    }
}

#[test]
fn read_schema_appends_placeholder() {
    let base = nation_schema();
    let read = build_read_schema(&base, true);
    assert_eq!(read.columns.len(), 5);
    for i in 0..4 {
        assert_eq!(read.columns[i], base.columns[i]);
    }
    assert_eq!(read.columns[4].name.as_str(), "__placeholder");
    assert_eq!(read.columns[4].kind, DataKind::Utf8);
    assert!(read.columns[4].nullable);
}

#[test]
fn read_schema_without_trailing_delimiter_is_unchanged() {
    let base = nation_schema();
    let read = build_read_schema(&base, false);
    assert_eq!(read, base);
}

#[test]
fn projection_drops_only_the_placeholder() {
    let base = nation_schema();
    let read = build_read_schema(&base, true);
    let projection = write_projection(&read, true);
    assert_eq!(projection, vec![0, 1, 2, 3]);
    // Projecting the read schema yields exactly the declared columns, in
    // declared order.
    let written: Vec<&Column> = projection.iter().map(|i| &read.columns[*i]).collect();
    assert_eq!(written.len(), base.columns.len());
    for i in 0..written.len() {
        assert_eq!(*written[i], base.columns[i]);
    }
}

#[test]
fn projection_keeps_everything_without_placeholder() {
    let base = nation_schema();
    let projection = write_projection(&base, false);
    assert_eq!(projection, vec![0, 1, 2, 3]);
}

#[test]
fn compression_names() {
    assert_eq!(parse_compression("none"), Ok(Compression::Uncompressed));
    assert_eq!(parse_compression("snappy"), Ok(Compression::Snappy));
    assert_eq!(parse_compression("lz4"), Ok(Compression::Lz4));
    assert_eq!(parse_compression("lz0"), Ok(Compression::Lzo));
}

#[test]
fn unknown_compression_is_a_configuration_error() {
    assert_eq!(parse_compression("zstd"), Err(ConvError::Configuration));
    assert_eq!(parse_compression("gzip"), Err(ConvError::Configuration));
    assert_eq!(parse_compression(""), Err(ConvError::Configuration));
}

#[test]
fn parquet_sink_carries_its_codec() {
    assert_eq!(parse_sink("parquet", "snappy"), Ok(SinkFormat::Parquet(Compression::Snappy)));
    assert_eq!(parse_sink("parquet", "none"), Ok(SinkFormat::Parquet(Compression::Uncompressed)));
}

#[test]
fn parquet_sink_rejects_unknown_codec() {
    assert_eq!(parse_sink("parquet", "brotli"), Err(ConvError::Configuration));
}

#[test]
fn csv_sink_ignores_the_codec_name() {
    assert_eq!(parse_sink("csv", "whatever"), Ok(SinkFormat::Csv));
}

#[test]
fn unknown_format_is_a_configuration_error() {
    assert_eq!(parse_sink("arrow", "snappy"), Err(ConvError::Configuration));
    assert_eq!(parse_sink("", "snappy"), Err(ConvError::Configuration));
}
