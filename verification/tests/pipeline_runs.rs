use tpcconv::codec::{Compression, SinkFormat};
use tpcconv::pipeline::{PipeAction, PipeEvent, Pipeline, PipelineConfig, TableDef};
use tpcconv::schema::{Column, DataKind, TableSchema};
use tpcconv::ConvError;

fn config() -> PipelineConfig {
    PipelineConfig {
        input_root: "in".to_string(),
        output_root: "out".to_string(),
        table_ext: "tbl".to_string(),
        delimiter_terminated: true,
        batch_size: 8192,
    }
}

fn table(name: &str, columns: Vec<(&str, DataKind)>) -> TableDef {
    TableDef {
        name: name.to_string(),
        schema: TableSchema {
            columns: columns
                .into_iter()
                .map(|(n, kind)| Column { name: n.to_string(), kind, nullable: false })
                .collect(),
        },
    }
}

fn nation() -> TableDef {
    table(
        "nation",
        vec![
            ("n_nationkey", DataKind::Int64),
            ("n_name", DataKind::Utf8),
            ("n_regionkey", DataKind::Int64),
            ("n_comment", DataKind::Utf8),
        ],
    )
}

#[test]
fn nation_single_file_single_part() {
    // One table, one input file of 25 pipe-delimited, delimiter-terminated
    // records; the writer emits one part.  The run must place it at
    // `out/nation.parquet/part-0.parquet`, reading five columns (four
    // declared plus the placeholder) and persisting only the four.
    let mut p = Pipeline::new(config(), vec![nation()], "parquet", "snappy");
    assert_eq!(p.current_action(), PipeAction::Probe("in/nation.tbl".to_string()));
    let a = p.step(PipeEvent::PathStatus { exists: true, is_dir: true });
    assert_eq!(a, PipeAction::Probe("out/nation.parquet".to_string()));
    let a = p.step(PipeEvent::PathStatus { exists: false, is_dir: false });
    assert_eq!(a, PipeAction::CreateDir("out/nation.parquet".to_string()));
    let a = p.step(PipeEvent::OpOk);
    assert_eq!(a, PipeAction::ListDir("in/nation.tbl".to_string()));
    let a = p.step(PipeEvent::Listing(vec!["nation.tbl".to_string()]));
    match a {
        PipeAction::RunWriter { input, temp_dir, plan } => {
            assert_eq!(input.as_str(), "in/nation.tbl/nation.tbl");
            assert_eq!(temp_dir.as_str(), "out/nation.parquet/nation-temp.parquet");
            assert_eq!(plan.read_schema.columns.len(), 5);
            assert_eq!(plan.read_schema.columns[4].name.as_str(), "__placeholder");
            assert_eq!(plan.projection, vec![0, 1, 2, 3]);
            assert_eq!(plan.delimiter, 124);
            assert!(!plan.has_header);
            assert_eq!(plan.batch_size, 8192);
            assert_eq!(plan.sink, SinkFormat::Parquet(Compression::Snappy));
        }
        other => panic!("expected the writer to run, got {:?}", other),
    }
    let a = p.step(PipeEvent::OpOk);
    assert_eq!(a, PipeAction::ListDir("out/nation.parquet/nation-temp.parquet".to_string()));
    let a = p.step(PipeEvent::Listing(vec!["chunk.parquet".to_string()]));
    assert_eq!(
        a,
        PipeAction::RelocateFile {
            src: "out/nation.parquet/nation-temp.parquet/chunk.parquet".to_string(),
            dest: "out/nation.parquet/part-0.parquet".to_string(),
        }
    );
    let a = p.step(PipeEvent::OpOk);
    assert_eq!(a, PipeAction::RemoveDirAll("out/nation.parquet/nation-temp.parquet".to_string()));
    let a = p.step(PipeEvent::OpOk);
    assert_eq!(a, PipeAction::Stop(Ok(())));
}

#[test]
fn lineitem_four_files_two_parts_each() {
    // Four input files, two writer parts each: exactly part-0 .. part-7,
    // in order, and every temporary area removed before the next file.
    let lineitem = table(
        "lineitem",
        vec![("l_orderkey", DataKind::Int64), ("l_comment", DataKind::Utf8)],
    );
    let mut p = Pipeline::new(config(), vec![lineitem], "parquet", "snappy");
    let a = p.current_action();
    assert_eq!(a, PipeAction::Probe("in/lineitem.tbl".to_string()));
    let a = p.step(PipeEvent::PathStatus { exists: true, is_dir: true });
    assert_eq!(a, PipeAction::Probe("out/lineitem.parquet".to_string()));
    let a = p.step(PipeEvent::PathStatus { exists: false, is_dir: false });
    assert_eq!(a, PipeAction::CreateDir("out/lineitem.parquet".to_string()));
    let a = p.step(PipeEvent::OpOk);
    assert_eq!(a, PipeAction::ListDir("in/lineitem.tbl".to_string()));
    let files: Vec<String> = (1..=4).map(|i| format!("lineitem.tbl.{}.tbl", i)).collect();
    let mut a = p.step(PipeEvent::Listing(files.clone()));
    let mut dests: Vec<String> = Vec::new();
    for file in &files {
        let stub = &file[0..file.len() - 4];
        let temp = format!("out/lineitem.parquet/{}-temp.parquet", stub);
        match a {
            PipeAction::RunWriter { ref temp_dir, .. } => assert_eq!(*temp_dir, temp),
            ref other => panic!("expected the writer to run, got {:?}", other),
        }
        a = p.step(PipeEvent::OpOk);
        assert_eq!(a, PipeAction::ListDir(temp.clone()));
        a = p.step(PipeEvent::Listing(vec!["a.parquet".to_string(), "b.parquet".to_string()]));
        for entry in ["a.parquet", "b.parquet"] {
            match a {
                PipeAction::RelocateFile { ref src, ref dest } => {
                    assert_eq!(*src, format!("{}/{}", temp, entry));
                    dests.push(dest.clone());
                }
                ref other => panic!("expected a relocation, got {:?}", other),
            }
            a = p.step(PipeEvent::OpOk);
        }
        assert_eq!(a, PipeAction::RemoveDirAll(temp.clone()));
        a = p.step(PipeEvent::OpOk);
    }
    assert_eq!(a, PipeAction::Stop(Ok(())));
    let expected: Vec<String> =
        (0..8).map(|n| format!("out/lineitem.parquet/part-{}.parquet", n)).collect();
    assert_eq!(dests, expected);
}

#[test]
fn existing_output_directory_fails_before_any_write() {
    // The output directory of the table already exists: the run must end
    // with a precondition error at the probe, with no directory created,
    // no file written, relocated or removed.
    let mut p = Pipeline::new(config(), vec![nation()], "parquet", "snappy");
    assert_eq!(p.current_action(), PipeAction::Probe("in/nation.tbl".to_string()));
    let a = p.step(PipeEvent::PathStatus { exists: true, is_dir: true });
    assert_eq!(a, PipeAction::Probe("out/nation.parquet".to_string()));
    let a = p.step(PipeEvent::PathStatus { exists: true, is_dir: true });
    assert_eq!(a, PipeAction::Stop(Err(ConvError::Precondition)));
    // The failure is final, whatever is reported afterwards.
    let a = p.step(PipeEvent::OpOk);
    assert_eq!(a, PipeAction::Stop(Err(ConvError::Precondition)));
}

#[test]
fn missing_input_directory_fails() {
    let mut p = Pipeline::new(config(), vec![nation()], "parquet", "snappy");
    let a = p.step(PipeEvent::PathStatus { exists: false, is_dir: false });
    assert_eq!(a, PipeAction::Stop(Err(ConvError::Precondition)));
}

#[test]
fn input_path_that_is_no_directory_fails() {
    let mut p = Pipeline::new(config(), vec![nation()], "parquet", "snappy");
    let a = p.step(PipeEvent::PathStatus { exists: true, is_dir: false });
    assert_eq!(a, PipeAction::Stop(Err(ConvError::Precondition)));
}

#[test]
fn unknown_codec_fails_before_any_action() {
    let mut p = Pipeline::new(config(), vec![nation()], "parquet", "zstd");
    assert_eq!(p.current_action(), PipeAction::Stop(Err(ConvError::Configuration)));
    let a = p.step(PipeEvent::OpOk);
    assert_eq!(a, PipeAction::Stop(Err(ConvError::Configuration)));
}

#[test]
fn unknown_format_fails_before_any_action() {
    let mut p = Pipeline::new(config(), vec![nation()], "arrow", "snappy");
    assert_eq!(p.current_action(), PipeAction::Stop(Err(ConvError::Configuration)));
}

#[test]
fn engine_failure_stops_the_run() {
    let mut p = Pipeline::new(config(), vec![nation()], "parquet", "snappy");
    p.step(PipeEvent::PathStatus { exists: true, is_dir: true });
    p.step(PipeEvent::PathStatus { exists: false, is_dir: false });
    p.step(PipeEvent::OpOk);
    p.step(PipeEvent::Listing(vec!["nation.tbl".to_string()]));
    let a = p.step(PipeEvent::EngineFailed);
    assert_eq!(a, PipeAction::Stop(Err(ConvError::Engine)));
}

#[test]
fn io_failure_stops_the_run() {
    let mut p = Pipeline::new(config(), vec![nation()], "parquet", "snappy");
    p.step(PipeEvent::PathStatus { exists: true, is_dir: true });
    p.step(PipeEvent::PathStatus { exists: false, is_dir: false });
    let a = p.step(PipeEvent::IoFailed);
    assert_eq!(a, PipeAction::Stop(Err(ConvError::Io)));
}

#[test]
fn empty_input_listing_finishes_the_table() {
    let mut p = Pipeline::new(config(), vec![nation()], "parquet", "snappy");
    p.step(PipeEvent::PathStatus { exists: true, is_dir: true });
    p.step(PipeEvent::PathStatus { exists: false, is_dir: false });
    p.step(PipeEvent::OpOk);
    let a = p.step(PipeEvent::Listing(Vec::new()));
    assert_eq!(a, PipeAction::Stop(Ok(())));
}

#[test]
fn empty_temp_listing_still_removes_the_temp_area() {
    let mut p = Pipeline::new(config(), vec![nation()], "parquet", "snappy");
    p.step(PipeEvent::PathStatus { exists: true, is_dir: true });
    p.step(PipeEvent::PathStatus { exists: false, is_dir: false });
    p.step(PipeEvent::OpOk);
    p.step(PipeEvent::Listing(vec!["nation.tbl".to_string()]));
    p.step(PipeEvent::OpOk);
    let a = p.step(PipeEvent::Listing(Vec::new()));
    assert_eq!(a, PipeAction::RemoveDirAll("out/nation.parquet/nation-temp.parquet".to_string()));
    let a = p.step(PipeEvent::OpOk);
    assert_eq!(a, PipeAction::Stop(Ok(())));
}

#[test]
fn two_tables_run_in_declared_order() {
    let region = table("region", vec![("r_regionkey", DataKind::Int64)]);
    let mut p = Pipeline::new(config(), vec![region, nation()], "parquet", "snappy");
    assert_eq!(p.current_action(), PipeAction::Probe("in/region.tbl".to_string()));
    p.step(PipeEvent::PathStatus { exists: true, is_dir: true });
    p.step(PipeEvent::PathStatus { exists: false, is_dir: false });
    p.step(PipeEvent::OpOk);
    // No input files for region: straight on to nation.
    let a = p.step(PipeEvent::Listing(Vec::new()));
    assert_eq!(a, PipeAction::Probe("in/nation.tbl".to_string()));
}

#[test]
fn part_counter_resets_per_table() {
    let region = table("region", vec![("r_regionkey", DataKind::Int64)]);
    let mut p = Pipeline::new(config(), vec![region, nation()], "parquet", "snappy");
    p.step(PipeEvent::PathStatus { exists: true, is_dir: true });
    p.step(PipeEvent::PathStatus { exists: false, is_dir: false });
    p.step(PipeEvent::OpOk);
    p.step(PipeEvent::Listing(vec!["region.tbl".to_string()]));
    p.step(PipeEvent::OpOk);
    let a = p.step(PipeEvent::Listing(vec!["x.parquet".to_string()]));
    assert_eq!(
        a,
        PipeAction::RelocateFile {
            src: "out/region.parquet/region-temp.parquet/x.parquet".to_string(),
            dest: "out/region.parquet/part-0.parquet".to_string(),
        }
    );
    p.step(PipeEvent::OpOk);
    p.step(PipeEvent::OpOk);
    // Second table: its numbering starts at part-0 again.
    p.step(PipeEvent::PathStatus { exists: true, is_dir: true });
    p.step(PipeEvent::PathStatus { exists: false, is_dir: false });
    p.step(PipeEvent::OpOk);
    p.step(PipeEvent::Listing(vec!["nation.tbl".to_string()]));
    p.step(PipeEvent::OpOk);
    let a = p.step(PipeEvent::Listing(vec!["y.parquet".to_string()]));
    assert_eq!(
        a,
        PipeAction::RelocateFile {
            src: "out/nation.parquet/nation-temp.parquet/y.parquet".to_string(),
            dest: "out/nation.parquet/part-0.parquet".to_string(),
        }
    );
}

#[test]
fn file_name_too_short_for_suffix_fails() {
    let mut p = Pipeline::new(config(), vec![nation()], "parquet", "snappy");
    p.step(PipeEvent::PathStatus { exists: true, is_dir: true });
    p.step(PipeEvent::PathStatus { exists: false, is_dir: false });
    p.step(PipeEvent::OpOk);
    let a = p.step(PipeEvent::Listing(vec!["ab".to_string()]));
    assert_eq!(a, PipeAction::Stop(Err(ConvError::Precondition)));
}

#[test]
fn csv_output_needs_no_codec() {
    let mut p = Pipeline::new(config(), vec![nation()], "csv", "nonsense");
    assert_eq!(p.current_action(), PipeAction::Probe("in/nation.tbl".to_string()));
    p.step(PipeEvent::PathStatus { exists: true, is_dir: true });
    p.step(PipeEvent::PathStatus { exists: false, is_dir: false });
    p.step(PipeEvent::OpOk);
    let a = p.step(PipeEvent::Listing(vec!["nation.tbl".to_string()]));
    match a {
        PipeAction::RunWriter { plan, .. } => assert_eq!(plan.sink, SinkFormat::Csv),
        other => panic!("expected the writer to run, got {:?}", other),
    }
}
