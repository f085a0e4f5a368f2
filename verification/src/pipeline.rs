//! The conversion pipeline as a state machine.
//!
//! Tables are converted strictly in declared order, and the input files
//! of a table strictly in enumeration order.  For each table the machine
//! checks that the input directory exists and that the output directory
//! does not, creates the output directory, and then, per input file,
//! runs the external writer into an isolated temporary area, relocates
//! each emitted part to its final densely numbered name, and removes the
//! temporary area.  The first failure of any step ends the run.
//!
//! The machine decides; the caller performs each requested filesystem or
//! engine action and reports its outcome as the next event.  Every path
//! and plan an action carries is fixed by the contracts here.

use vstd::prelude::*;
use vstd::string::*;
use crate::ConvError;
use crate::codec::{PIPE_DELIMITER, SinkFormat, WritePlan, WritePlanView, parse_sink, sink_of};
use crate::paths::{
    input_dir_view,
    output_dir_view,
    temp_dir_view,
    join_view,
    part_file_view,
    input_dir_path,
    output_dir_path,
    temp_dir_path,
    join_path,
    part_file_path,
    file_stub,
};
use crate::schema::{
    ColumnView,
    TableSchema,
    read_schema_view,
    written_schema_view,
    identity_projection,
    build_read_schema,
    write_projection,
};

verus! {

/// One table to convert: its name and its declared columns.
#[derive(Debug, Clone, PartialEq)]
pub struct TableDef {
    pub name: String,
    pub schema: TableSchema,
}

/// The mathematical value of a [`TableDef`].
pub struct TableDefView {
    pub name: Seq<char>,
    pub schema: Seq<ColumnView>,
}

impl View for TableDef {
    type V = TableDefView;

    open spec fn view(&self) -> TableDefView {
        TableDefView { name: self.name@, schema: self.schema@ }
    }
}

/// The fixed parameters of a run.
#[derive(Debug, Clone, PartialEq)]
pub struct PipelineConfig {
    /// The directory holding one input directory per table.
    pub input_root: String,
    /// The directory the per-table output directories are created under.
    pub output_root: String,
    /// The input files' extension, without the dot (for example `tbl`).
    pub table_ext: String,
    /// Whether every source record ends with a field delimiter, so that
    /// the read schema needs the trailing placeholder column.
    pub delimiter_terminated: bool,
    /// Rows per decoded batch.
    pub batch_size: usize,
}

/// The mathematical value of a [`PipelineConfig`].
pub struct PipelineConfigView {
    pub input_root: Seq<char>,
    pub output_root: Seq<char>,
    pub table_ext: Seq<char>,
    pub delimiter_terminated: bool,
    pub batch_size: usize,
}

impl View for PipelineConfig {
    type V = PipelineConfigView;

    open spec fn view(&self) -> PipelineConfigView {
        PipelineConfigView {
            input_root: self.input_root@,
            output_root: self.output_root@,
            table_ext: self.table_ext@,
            delimiter_terminated: self.delimiter_terminated,
            batch_size: self.batch_size,
        }
    }
}

/// The character sequences of a list of names.
pub open spec fn names_view(names: Seq<String>) -> Seq<Seq<char>> {
    names.map_values(|s: String| s@)
}

/// Where a run stands.
#[derive(Debug, Clone, PartialEq)]
pub enum Phase {
    /// Probing `{input_root}/{table}.{ext}` of table `t`.
    CheckInput { t: usize },
    /// Probing `{output_root}/{table}.parquet` of table `t`.
    CheckOutput { t: usize },
    /// Creating the final output directory of table `t`.
    CreateOutput { t: usize },
    /// Listing the input files of table `t`.
    ListInput { t: usize },
    /// Running the writer on file `f` of table `t`; the table's part
    /// counter stands at `part`.
    Write { t: usize, files: Vec<String>, f: usize, part: u64 },
    /// Listing the parts the writer emitted into the temporary area.
    ListTemp { t: usize, files: Vec<String>, f: usize, part: u64 },
    /// Relocating entry `e` of the temporary listing to part number
    /// `part + e`.
    Reloc { t: usize, files: Vec<String>, f: usize, part: u64, entries: Vec<String>, e: usize },
    /// Removing the drained temporary area of file `f`.
    RemoveTemp { t: usize, files: Vec<String>, f: usize, part: u64 },
    /// Every table was converted.
    Done,
    /// The run failed; nothing further happens.
    Failed(ConvError),
}

/// The mathematical value of a [`Phase`].
pub enum PhaseV {
    CheckInput { t: usize },
    CheckOutput { t: usize },
    CreateOutput { t: usize },
    ListInput { t: usize },
    Write { t: usize, files: Seq<Seq<char>>, f: usize, part: u64 },
    ListTemp { t: usize, files: Seq<Seq<char>>, f: usize, part: u64 },
    Reloc { t: usize, files: Seq<Seq<char>>, f: usize, part: u64, entries: Seq<Seq<char>>, e: usize },
    RemoveTemp { t: usize, files: Seq<Seq<char>>, f: usize, part: u64 },
    Done,
    Failed(ConvError),
}

impl View for Phase {
    type V = PhaseV;

    open spec fn view(&self) -> PhaseV {
        match self {
            Phase::CheckInput { t } => PhaseV::CheckInput { t: *t },
            Phase::CheckOutput { t } => PhaseV::CheckOutput { t: *t },
            Phase::CreateOutput { t } => PhaseV::CreateOutput { t: *t },
            Phase::ListInput { t } => PhaseV::ListInput { t: *t },
            Phase::Write { t, files, f, part } => PhaseV::Write {
                t: *t,
                files: names_view(files@),
                f: *f,
                part: *part,
            },
            Phase::ListTemp { t, files, f, part } => PhaseV::ListTemp {
                t: *t,
                files: names_view(files@),
                f: *f,
                part: *part,
            },
            Phase::Reloc { t, files, f, part, entries, e } => PhaseV::Reloc {
                t: *t,
                files: names_view(files@),
                f: *f,
                part: *part,
                entries: names_view(entries@),
                e: *e,
            },
            Phase::RemoveTemp { t, files, f, part } => PhaseV::RemoveTemp {
                t: *t,
                files: names_view(files@),
                f: *f,
                part: *part,
            },
            Phase::Done => PhaseV::Done,
            Phase::Failed(err) => PhaseV::Failed(*err),
        }
    }
}

/// The outcome of the pending action, reported by the caller.
#[derive(Debug, Clone, PartialEq)]
pub enum PipeEvent {
    /// Answer to a probe: whether the path exists and is a directory.
    PathStatus { exists: bool, is_dir: bool },
    /// Answer to a listing: the entry names, in enumeration order.
    Listing(Vec<String>),
    /// The requested operation succeeded.
    OpOk,
    /// A filesystem operation failed.
    IoFailed,
    /// The external writer failed.
    EngineFailed,
}

/// The mathematical value of a [`PipeEvent`].
pub enum PipeEventV {
    PathStatus { exists: bool, is_dir: bool },
    Listing(Seq<Seq<char>>),
    OpOk,
    IoFailed,
    EngineFailed,
}

impl View for PipeEvent {
    type V = PipeEventV;

    open spec fn view(&self) -> PipeEventV {
        match self {
            PipeEvent::PathStatus { exists, is_dir } => PipeEventV::PathStatus {
                exists: *exists,
                is_dir: *is_dir,
            },
            PipeEvent::Listing(names) => PipeEventV::Listing(names_view(names@)),
            PipeEvent::OpOk => PipeEventV::OpOk,
            PipeEvent::IoFailed => PipeEventV::IoFailed,
            PipeEvent::EngineFailed => PipeEventV::EngineFailed,
        }
    }
}

/// The filesystem or engine action the caller must perform next.
#[derive(Debug, PartialEq)]
pub enum PipeAction {
    /// Ask whether the path exists and is a directory.
    Probe(String),
    /// Create the directory.
    CreateDir(String),
    /// List the entry names directly under the directory.
    ListDir(String),
    /// Run the external writer: decode `input` with the plan and write
    /// its parts under `temp_dir`.
    RunWriter { input: String, temp_dir: String, plan: WritePlan },
    /// Relocate one file to its final part name (the protocol of
    /// [`crate::relocate`] does it without risking the source).
    RelocateFile { src: String, dest: String },
    /// Recursively remove the directory.
    RemoveDirAll(String),
    /// The run is over with this outcome.
    Stop(Result<(), ConvError>),
}

/// The mathematical value of a [`PipeAction`].
pub enum PipeActionV {
    Probe(Seq<char>),
    CreateDir(Seq<char>),
    ListDir(Seq<char>),
    RunWriter { input: Seq<char>, temp_dir: Seq<char>, plan: WritePlanView },
    RelocateFile { src: Seq<char>, dest: Seq<char> },
    RemoveDirAll(Seq<char>),
    Stop(Result<(), ConvError>),
}

impl View for PipeAction {
    type V = PipeActionV;

    open spec fn view(&self) -> PipeActionV {
        match self {
            PipeAction::Probe(p) => PipeActionV::Probe(p@),
            PipeAction::CreateDir(p) => PipeActionV::CreateDir(p@),
            PipeAction::ListDir(p) => PipeActionV::ListDir(p@),
            PipeAction::RunWriter { input, temp_dir, plan } => PipeActionV::RunWriter {
                input: input@,
                temp_dir: temp_dir@,
                plan: plan@,
            },
            PipeAction::RelocateFile { src, dest } => PipeActionV::RelocateFile {
                src: src@,
                dest: dest@,
            },
            PipeAction::RemoveDirAll(p) => PipeActionV::RemoveDirAll(p@),
            PipeAction::Stop(r) => PipeActionV::Stop(*r),
        }
    }
}

/// The mathematical value of a whole [`Pipeline`].
pub struct PipelineView {
    pub config: PipelineConfigView,
    pub tables: Seq<TableDefView>,
    pub sink: SinkFormat,
    pub phase: PhaseV,
}

/// How many characters the source-format suffix `.{ext}` takes.
pub open spec fn suffix_len(m: PipelineView) -> nat {
    m.config.table_ext.len() + 1
}

/// The input directory of table `t`.
pub open spec fn input_dir_of(m: PipelineView, t: int) -> Seq<char> {
    input_dir_view(m.config.input_root, m.tables[t].name, m.config.table_ext)
}

/// The final output directory of table `t`.
pub open spec fn output_dir_of(m: PipelineView, t: int) -> Seq<char> {
    output_dir_view(m.config.output_root, m.tables[t].name)
}

/// The file name without its source-format suffix.
pub open spec fn stub_of(m: PipelineView, name: Seq<char>) -> Seq<char> {
    name.subrange(0, name.len() - suffix_len(m))
}

/// The temporary area the parts of input file `name` of table `t` are
/// written into before flattening.
pub open spec fn temp_dir_of(m: PipelineView, t: int, name: Seq<char>) -> Seq<char> {
    temp_dir_view(output_dir_of(m, t), stub_of(m, name))
}

/// The write plan of table `t`.
pub open spec fn plan_view(m: PipelineView, t: int) -> WritePlanView {
    WritePlanView {
        read_schema: read_schema_view(m.tables[t].schema, m.config.delimiter_terminated),
        projection: identity_projection(
            written_schema_view(
                read_schema_view(m.tables[t].schema, m.config.delimiter_terminated),
                m.config.delimiter_terminated,
            ).len(),
        ),
        delimiter: PIPE_DELIMITER,
        has_header: false,
        batch_size: m.config.batch_size,
        sink: m.sink,
    }
}

/// The phase a run enters when table `t` is next (or no table is left).
pub open spec fn enter_table_phase(m: PipelineView, t: int) -> PhaseV {
    if t < m.tables.len() {
        PhaseV::CheckInput { t: t as usize }
    } else {
        PhaseV::Done
    }
}

/// The phase a table enters when file `f` is next: convert it, move to
/// the next table when the listing is exhausted, or fail when the file
/// name cannot carry the source-format suffix.
pub open spec fn enter_file_phase(
    m: PipelineView,
    t: usize,
    files: Seq<Seq<char>>,
    f: int,
    part: u64,
) -> PhaseV {
    if f < files.len() {
        if files[f].len() >= suffix_len(m) {
            PhaseV::Write { t, files, f: f as usize, part }
        } else {
            PhaseV::Failed(ConvError::Precondition)
        }
    } else {
        enter_table_phase(m, t + 1)
    }
}

/// The transition relation of the pipeline.  An event that cannot answer
/// the pending request counts as a filesystem failure.
pub open spec fn pipe_next(m: PipelineView, ev: PipeEventV) -> PhaseV {
    match m.phase {
        PhaseV::CheckInput { t } => match ev {
            PipeEventV::PathStatus { exists, is_dir } => if exists && is_dir {
                PhaseV::CheckOutput { t }
            } else {
                PhaseV::Failed(ConvError::Precondition)
            },
            _ => PhaseV::Failed(ConvError::Io),
        },
        PhaseV::CheckOutput { t } => match ev {
            PipeEventV::PathStatus { exists, is_dir } => if exists {
                PhaseV::Failed(ConvError::Precondition)
            } else {
                PhaseV::CreateOutput { t }
            },
            _ => PhaseV::Failed(ConvError::Io),
        },
        PhaseV::CreateOutput { t } => match ev {
            PipeEventV::OpOk => PhaseV::ListInput { t },
            _ => PhaseV::Failed(ConvError::Io),
        },
        PhaseV::ListInput { t } => match ev {
            PipeEventV::Listing(files) => enter_file_phase(m, t, files, 0, 0),
            _ => PhaseV::Failed(ConvError::Io),
        },
        PhaseV::Write { t, files, f, part } => match ev {
            PipeEventV::OpOk => PhaseV::ListTemp { t, files, f, part },
            PipeEventV::EngineFailed => PhaseV::Failed(ConvError::Engine),
            _ => PhaseV::Failed(ConvError::Io),
        },
        PhaseV::ListTemp { t, files, f, part } => match ev {
            PipeEventV::Listing(entries) => if part + entries.len() <= u64::MAX {
                if entries.len() > 0 {
                    PhaseV::Reloc { t, files, f, part, entries, e: 0 }
                } else {
                    PhaseV::RemoveTemp { t, files, f, part }
                }
            } else {
                PhaseV::Failed(ConvError::Io)
            },
            _ => PhaseV::Failed(ConvError::Io),
        },
        PhaseV::Reloc { t, files, f, part, entries, e } => match ev {
            PipeEventV::OpOk => if e + 1 < entries.len() {
                PhaseV::Reloc { t, files, f, part, entries, e: (e + 1) as usize }
            } else {
                PhaseV::RemoveTemp { t, files, f, part: (part + entries.len()) as u64 }
            },
            _ => PhaseV::Failed(ConvError::Io),
        },
        PhaseV::RemoveTemp { t, files, f, part } => match ev {
            PipeEventV::OpOk => enter_file_phase(m, t, files, f + 1, part),
            _ => PhaseV::Failed(ConvError::Io),
        },
        PhaseV::Done => PhaseV::Done,
        PhaseV::Failed(err) => PhaseV::Failed(err),
    }
}

/// The action pending in the current phase.
pub open spec fn pipe_action(m: PipelineView) -> PipeActionV {
    match m.phase {
        PhaseV::CheckInput { t } => PipeActionV::Probe(input_dir_of(m, t as int)),
        PhaseV::CheckOutput { t } => PipeActionV::Probe(output_dir_of(m, t as int)),
        PhaseV::CreateOutput { t } => PipeActionV::CreateDir(output_dir_of(m, t as int)),
        PhaseV::ListInput { t } => PipeActionV::ListDir(input_dir_of(m, t as int)),
        PhaseV::Write { t, files, f, part } => PipeActionV::RunWriter {
            input: join_view(input_dir_of(m, t as int), files[f as int]),
            temp_dir: temp_dir_of(m, t as int, files[f as int]),
            plan: plan_view(m, t as int),
        },
        PhaseV::ListTemp { t, files, f, part } => PipeActionV::ListDir(
            temp_dir_of(m, t as int, files[f as int]),
        ),
        PhaseV::Reloc { t, files, f, part, entries, e } => PipeActionV::RelocateFile {
            src: join_view(temp_dir_of(m, t as int, files[f as int]), entries[e as int]),
            dest: part_file_view(output_dir_of(m, t as int), (part + e) as nat),
        },
        PhaseV::RemoveTemp { t, files, f, part } => PipeActionV::RemoveDirAll(
            temp_dir_of(m, t as int, files[f as int]),
        ),
        PhaseV::Done => PipeActionV::Stop(Ok(())),
        PhaseV::Failed(err) => PipeActionV::Stop(Err(err)),
    }
}

/// Phases only ever hold indices into the run's tables and listings, and
/// a part counter that the remaining entries cannot overflow.
pub open spec fn pipe_wf(m: PipelineView) -> bool {
    &&& m.config.table_ext.len() + 1 <= usize::MAX
    &&& match m.phase {
        PhaseV::CheckInput { t } => t < m.tables.len(),
        PhaseV::CheckOutput { t } => t < m.tables.len(),
        PhaseV::CreateOutput { t } => t < m.tables.len(),
        PhaseV::ListInput { t } => t < m.tables.len(),
        PhaseV::Write { t, files, f, part } => t < m.tables.len() && f < files.len() && files[
            f as int
        ].len() >= suffix_len(m),
        PhaseV::ListTemp { t, files, f, part } => t < m.tables.len() && f < files.len() && files[
            f as int
        ].len() >= suffix_len(m),
        PhaseV::Reloc { t, files, f, part, entries, e } => t < m.tables.len() && f < files.len()
            && files[f as int].len() >= suffix_len(m) && e < entries.len() && part + entries.len()
            <= u64::MAX,
        PhaseV::RemoveTemp { t, files, f, part } => t < m.tables.len() && f < files.len() && files[
            f as int
        ].len() >= suffix_len(m),
        PhaseV::Done => true,
        PhaseV::Failed(err) => true,
    }
}

/// The character sequences of a list of table definitions.
pub open spec fn tables_view(tables: Seq<TableDef>) -> Seq<TableDefView> {
    tables.map_values(|d: TableDef| d@)
}

/// The pipeline: one sequential actor that owns the run's whole state,
/// including each table's part counter.
pub struct Pipeline {
    pub config: PipelineConfig,
    pub tables: Vec<TableDef>,
    pub sink: SinkFormat,
    pub phase: Phase,
}

impl View for Pipeline {
    type V = PipelineView;

    open spec fn view(&self) -> PipelineView {
        PipelineView {
            config: self.config@,
            tables: tables_view(self.tables@),
            sink: self.sink,
            phase: self.phase@,
        }
    }
}

impl Pipeline {
    /// Sets a run up.  An unsupported output format or compression name
    /// is a configuration error: the machine starts failed, before any
    /// filesystem action is requested.
    pub fn new(
        config: PipelineConfig,
        tables: Vec<TableDef>,
        format: &str,
        compression: &str,
    ) -> (r: Pipeline)
        requires
            config.table_ext@.len() + 1 <= usize::MAX,
        ensures
            r@.config == config@,
            r@.tables == tables_view(tables@),
            pipe_wf(r@),
            match sink_of(format@, compression@) {
                Ok(sink) => r@.sink == sink && r@.phase == enter_table_phase(r@, 0),
                Err(err) => r@.phase == PhaseV::Failed(err),
            },
    {
        match parse_sink(format, compression) {
            Ok(sink) => {
                let phase = if tables.len() > 0 {
                    Phase::CheckInput { t: 0 }
                } else {
                    Phase::Done
                };
                Pipeline { config, tables, sink, phase }
            },
            Err(err) => Pipeline {
                config,
                tables,
                sink: SinkFormat::Csv,
                phase: Phase::Failed(err),
            },
        }
    }

    /// The input directory of table `t`.
    fn input_dir(&self, t: usize) -> (r: String)
        requires
            t < self@.tables.len(),
        ensures
            r@ == input_dir_of(self@, t as int),
    {
        input_dir_path(
            self.config.input_root.as_str(),
            self.tables[t].name.as_str(),
            self.config.table_ext.as_str(),
        )
    }

    /// The final output directory of table `t`.
    fn output_dir(&self, t: usize) -> (r: String)
        requires
            t < self@.tables.len(),
        ensures
            r@ == output_dir_of(self@, t as int),
    {
        output_dir_path(self.config.output_root.as_str(), self.tables[t].name.as_str())
    }

    /// The temporary part area of input file `filename` of table `t`.
    fn temp_dir(&self, t: usize, filename: &str) -> (r: String)
        requires
            t < self@.tables.len(),
            self@.config.table_ext.len() + 1 <= usize::MAX,
            filename@.len() >= suffix_len(self@),
        ensures
            r@ == temp_dir_of(self@, t as int, filename@),
    {
        let suffix = self.config.table_ext.as_str().unicode_len() + 1;
        let stub = file_stub(filename, suffix).unwrap();
        let out_dir = self.output_dir(t);
        temp_dir_path(out_dir.as_str(), stub.as_str())
    }

    /// The write plan of table `t`.
    fn write_plan(&self, t: usize) -> (r: WritePlan)
        requires
            t < self@.tables.len(),
        ensures
            r@ == plan_view(self@, t as int),
    {
        let schema = build_read_schema(&self.tables[t].schema, self.config.delimiter_terminated);
        let projection = write_projection(&schema, self.config.delimiter_terminated);
        WritePlan {
            read_schema: schema,
            projection,
            delimiter: PIPE_DELIMITER,
            has_header: false,
            batch_size: self.config.batch_size,
            sink: self.sink,
        }
    }

    /// The action pending in the current phase.
    pub fn current_action(&self) -> (a: PipeAction)
        requires
            pipe_wf(self@),
        ensures
            a@ == pipe_action(self@),
    {
        match &self.phase {
            Phase::CheckInput { t } => PipeAction::Probe(self.input_dir(*t)),
            Phase::CheckOutput { t } => PipeAction::Probe(self.output_dir(*t)),
            Phase::CreateOutput { t } => PipeAction::CreateDir(self.output_dir(*t)),
            Phase::ListInput { t } => PipeAction::ListDir(self.input_dir(*t)),
            Phase::Write { t, files, f, part } => {
                let in_dir = self.input_dir(*t);
                let input = join_path(in_dir.as_str(), files[*f].as_str());
                let temp_dir = self.temp_dir(*t, files[*f].as_str());
                let plan = self.write_plan(*t);
                PipeAction::RunWriter { input, temp_dir, plan }
            },
            Phase::ListTemp { t, files, f, part } => PipeAction::ListDir(
                self.temp_dir(*t, files[*f].as_str()),
            ),
            Phase::Reloc { t, files, f, part, entries, e } => {
                let temp_dir = self.temp_dir(*t, files[*f].as_str());
                let src = join_path(temp_dir.as_str(), entries[*e].as_str());
                let out_dir = self.output_dir(*t);
                let dest = part_file_path(out_dir.as_str(), *part + (*e as u64));
                PipeAction::RelocateFile { src, dest }
            },
            Phase::RemoveTemp { t, files, f, part } => PipeAction::RemoveDirAll(
                self.temp_dir(*t, files[*f].as_str()),
            ),
            Phase::Done => PipeAction::Stop(Ok(())),
            Phase::Failed(err) => PipeAction::Stop(Err(*err)),
        }
    }

    /// The next phase when file `f` of table `t` is up, with the part
    /// counter at `part`.
    fn advance_file(&self, t: usize, files: Vec<String>, f: usize, part: u64) -> (r: Phase)
        requires
            self@.config.table_ext.len() + 1 <= usize::MAX,
            t < self@.tables.len(),
            f <= files@.len(),
        ensures
            r@ == enter_file_phase(self@, t, names_view(files@), f as int, part),
    {
        if f < files.len() {
            let name_len = files[f].as_str().unicode_len();
            let suffix = self.config.table_ext.as_str().unicode_len() + 1;
            if name_len >= suffix {
                Phase::Write { t, files, f, part }
            } else {
                Phase::Failed(ConvError::Precondition)
            }
        } else {
            let total = self.tables.len();
            proof {
                assert(self@.tables.len() == self.tables@.len());
            }
            if t + 1 < total {
                Phase::CheckInput { t: t + 1 }
            } else {
                Phase::Done
            }
        }
    }

    /// The phase that follows `ph` on event `ev`.
    fn next_phase(&self, ph: Phase, ev: PipeEvent) -> (r: Phase)
        requires
            pipe_wf(PipelineView { phase: ph@, ..self@ }),
        ensures
            r@ == pipe_next(PipelineView { phase: ph@, ..self@ }, ev@),
            pipe_wf(PipelineView { phase: r@, ..self@ }),
    {
        match ph {
            Phase::CheckInput { t } => match ev {
                PipeEvent::PathStatus { exists, is_dir } => if exists && is_dir {
                    Phase::CheckOutput { t }
                } else {
                    Phase::Failed(ConvError::Precondition)
                },
                _ => Phase::Failed(ConvError::Io),
            },
            Phase::CheckOutput { t } => match ev {
                PipeEvent::PathStatus { exists, is_dir } => if exists {
                    Phase::Failed(ConvError::Precondition)
                } else {
                    Phase::CreateOutput { t }
                },
                _ => Phase::Failed(ConvError::Io),
            },
            Phase::CreateOutput { t } => match ev {
                PipeEvent::OpOk => Phase::ListInput { t },
                _ => Phase::Failed(ConvError::Io),
            },
            Phase::ListInput { t } => match ev {
                PipeEvent::Listing(files) => self.advance_file(t, files, 0, 0),
                _ => Phase::Failed(ConvError::Io),
            },
            Phase::Write { t, files, f, part } => match ev {
                PipeEvent::OpOk => Phase::ListTemp { t, files, f, part },
                PipeEvent::EngineFailed => Phase::Failed(ConvError::Engine),
                _ => Phase::Failed(ConvError::Io),
            },
            Phase::ListTemp { t, files, f, part } => match ev {
                PipeEvent::Listing(entries) => {
                    let n = entries.len() as u64;
                    if part <= u64::MAX - n {
                        if entries.len() > 0 {
                            Phase::Reloc { t, files, f, part, entries, e: 0 }
                        } else {
                            Phase::RemoveTemp { t, files, f, part }
                        }
                    } else {
                        Phase::Failed(ConvError::Io)
                    }
                },
                _ => Phase::Failed(ConvError::Io),
            },
            Phase::Reloc { t, files, f, part, entries, e } => match ev {
                PipeEvent::OpOk => {
                    let total = entries.len();
                    proof {
                        assert(names_view(entries@).len() == entries@.len());
                    }
                    if e + 1 < total {
                        Phase::Reloc { t, files, f, part, entries, e: e + 1 }
                    } else {
                        let n = entries.len() as u64;
                        Phase::RemoveTemp { t, files, f, part: part + n }
                    }
                },
                _ => Phase::Failed(ConvError::Io),
            },
            Phase::RemoveTemp { t, files, f, part } => match ev {
                PipeEvent::OpOk => {
                    let total = files.len();
                    proof {
                        assert(names_view(files@).len() == files@.len());
                        assert(f < total);
                    }
                    self.advance_file(t, files, f + 1, part)
                },
                _ => Phase::Failed(ConvError::Io),
            },
            Phase::Done => Phase::Done,
            Phase::Failed(err) => Phase::Failed(err),
        }
    }

    /// Consumes the outcome of the pending action; the machine moves to
    /// the following phase and returns the action now pending.
    pub fn step(&mut self, ev: PipeEvent) -> (a: PipeAction)
        requires
            pipe_wf(old(self)@),
        ensures
            pipe_wf(final(self)@),
            final(self)@ == (PipelineView { phase: pipe_next(old(self)@, ev@), ..old(self)@ }),
            a@ == pipe_action(final(self)@),
    {
        let mut ph = Phase::Done;
        core::mem::swap(&mut ph, &mut self.phase);
        let next = self.next_phase(ph, ev);
        self.phase = next;
        self.current_action()
    }
}

/// `m` with another phase.
pub open spec fn with_phase(m: PipelineView, ph: PhaseV) -> PipelineView {
    PipelineView { phase: ph, ..m }
}

/// The phase after the first `i` events, starting from `m`.
pub open spec fn phase_at(m: PipelineView, events: Seq<PipeEventV>, i: int) -> PhaseV
    decreases i,
{
    if i <= 0 {
        m.phase
    } else {
        pipe_next(with_phase(m, phase_at(m, events, i - 1)), events[i - 1])
    }
}

/// The actions that create, write, move or remove something on disk.
pub open spec fn mutating_action(a: PipeActionV) -> bool {
    ||| a is CreateDir
    ||| a is RunWriter
    ||| a is RelocateFile
    ||| a is RemoveDirAll
}

/// The phases that belong to table `t`'s conversion, past its two
/// precondition probes.
pub open spec fn converting(ph: PhaseV, t: usize) -> bool {
    ||| (ph matches PhaseV::CreateOutput { t: t2 } && t2 == t)
    ||| (ph matches PhaseV::ListInput { t: t2 } && t2 == t)
    ||| (ph matches PhaseV::Write { t: t2, .. } && t2 == t)
    ||| (ph matches PhaseV::ListTemp { t: t2, .. } && t2 == t)
    ||| (ph matches PhaseV::Reloc { t: t2, .. } && t2 == t)
    ||| (ph matches PhaseV::RemoveTemp { t: t2, .. } && t2 == t)
}

/// A mutating action is only ever pending while some table is being
/// converted.
pub proof fn lemma_mutating_is_converting(m: PipelineView)
    requires
        mutating_action(pipe_action(m)),
    ensures
        exists|t: usize| converting(m.phase, t),
{
    match m.phase {
        PhaseV::CreateOutput { t } => assert(converting(m.phase, t)),
        PhaseV::ListInput { t } => assert(converting(m.phase, t)),
        PhaseV::Write { t, files, f, part } => assert(converting(m.phase, t)),
        PhaseV::ListTemp { t, files, f, part } => assert(converting(m.phase, t)),
        PhaseV::Reloc { t, files, f, part, entries, e } => assert(converting(m.phase, t)),
        PhaseV::RemoveTemp { t, files, f, part } => assert(converting(m.phase, t)),
        _ => assert(false),
    }
}

/// A failure is final: from it, the machine never leaves the failed
/// phase.
pub proof fn lemma_failed_stays(
    m: PipelineView,
    events: Seq<PipeEventV>,
    i: int,
    j: int,
    err: ConvError,
)
    requires
        0 <= i <= j <= events.len(),
        phase_at(m, events, i) == PhaseV::Failed(err),
    ensures
        phase_at(m, events, j) == PhaseV::Failed(err),
    decreases j - i,
{
    if j > i {
        lemma_failed_stays(m, events, i, j - 1, err);
    }
}

/// An output directory that already exists fails the run at its probe:
/// the machine is permanently failed with the precondition error and
/// never again asks for an action that creates, writes, relocates or
/// removes anything — the existing directory's contents stay untouched.
pub proof fn lemma_output_exists_fails_fast(
    m: PipelineView,
    events: Seq<PipeEventV>,
    i: int,
    t: usize,
)
    requires
        0 <= i < events.len(),
        phase_at(m, events, i) == (PhaseV::CheckOutput { t }),
        events[i] matches PipeEventV::PathStatus { exists: true, is_dir: _ },
    ensures
        forall|j: int|
            i < j <= events.len() ==> phase_at(m, events, j) == PhaseV::Failed(
                ConvError::Precondition,
            ),
        forall|j: int|
            i < j <= events.len() ==> !mutating_action(
                pipe_action(with_phase(m, phase_at(m, events, j))),
            ),
{
    assert(phase_at(m, events, i + 1) == PhaseV::Failed(ConvError::Precondition));
    assert forall|j: int|
        i < j <= events.len() implies phase_at(m, events, j) == PhaseV::Failed(
        ConvError::Precondition,
    ) by {
        lemma_failed_stays(m, events, i + 1, j, ConvError::Precondition);
    }
}

/// A table's conversion is entered only through its output probe
/// answering "does not exist": any phase converting table `t` is
/// preceded by that probe with its negative answer.
pub proof fn lemma_converting_needs_clear_probe(
    m: PipelineView,
    events: Seq<PipeEventV>,
    j: int,
    t: usize,
)
    requires
        0 <= j <= events.len(),
        forall|u: usize| !converting(m.phase, u),
        converting(phase_at(m, events, j), t),
    ensures
        exists|i: int|
            0 <= i < j && phase_at(m, events, i) == (PhaseV::CheckOutput { t })
                && events[i] matches PipeEventV::PathStatus { exists: false, is_dir: _ },
    decreases j,
{
    if j <= 0 {
        assert(!converting(m.phase, t));
        assert(false);
    } else {
        let prev = phase_at(m, events, j - 1);
        let ev = events[j - 1];
        if prev == (PhaseV::CheckOutput { t }) && (ev matches PipeEventV::PathStatus {
            exists: false,
            is_dir: _,
        }) {
            assert(0 <= j - 1 < j && phase_at(m, events, j - 1) == (PhaseV::CheckOutput { t })
                && events[j - 1] matches PipeEventV::PathStatus { exists: false, is_dir: _ });
        } else {
            assert(converting(prev, t));
            lemma_converting_needs_clear_probe(m, events, j - 1, t);
            let i0 = choose|i: int|
                0 <= i < j - 1 && phase_at(m, events, i) == (PhaseV::CheckOutput { t })
                    && events[i] matches PipeEventV::PathStatus { exists: false, is_dir: _ };
            assert(0 <= i0 < j && phase_at(m, events, i0) == (PhaseV::CheckOutput { t })
                && events[i0] matches PipeEventV::PathStatus { exists: false, is_dir: _ });
        }
    }
}

/// Relocations of one temporary area run through its entries in order:
/// after `j` confirmed relocations the machine stands at entry `j`.
pub proof fn lemma_reloc_stays_consecutive(
    m: PipelineView,
    events: Seq<PipeEventV>,
    j: int,
)
    requires
        0 <= j <= events.len(),
        m.phase matches PhaseV::Reloc { e: 0, entries, .. } && j < entries.len()
            && entries.len() <= usize::MAX,
        forall|i: int| 0 <= i < j ==> events[i] == PipeEventV::OpOk,
    ensures
        phase_at(m, events, j) == (match m.phase {
            PhaseV::Reloc { t, files, f, part, entries, e } => PhaseV::Reloc {
                t,
                files,
                f,
                part,
                entries,
                e: j as usize,
            },
            _ => m.phase,
        }),
    decreases j,
{
    if j > 0 {
        lemma_reloc_stays_consecutive(m, events, j - 1);
        assert(events[j - 1] == PipeEventV::OpOk);
    }
}

/// Dense numbering, seen at the machine's actions: the `j`-th successful
/// relocation of one temporary area is aimed at part number `part + j`
/// under the table's output directory — consecutive numbers, one per
/// entry, in enumeration order.
pub proof fn lemma_reloc_dest_numbers(m: PipelineView, events: Seq<PipeEventV>, j: int)
    requires
        0 <= j <= events.len(),
        m.phase matches PhaseV::Reloc { e: 0, entries, .. } && j < entries.len()
            && entries.len() <= usize::MAX,
        forall|i: int| 0 <= i < j ==> events[i] == PipeEventV::OpOk,
    ensures
        pipe_action(with_phase(m, phase_at(m, events, j))) == (match m.phase {
            PhaseV::Reloc { t, files, f, part, entries, e } => PipeActionV::RelocateFile {
                src: join_view(temp_dir_of(m, t as int, files[f as int]), entries[j]),
                dest: part_file_view(output_dir_of(m, t as int), (part + j) as nat),
            },
            _ => pipe_action(m),
        }),
{
    lemma_reloc_stays_consecutive(m, events, j);
}

/// The counter a temporary area hands back: once all of its entries are
/// relocated, the machine removes the area with the table's part counter
/// advanced by exactly the number of entries.
pub proof fn lemma_reloc_advances_counter(m: PipelineView, events: Seq<PipeEventV>)
    requires
        m.phase matches PhaseV::Reloc { e: 0, entries, part, .. } && 0 < entries.len()
            && entries.len() <= events.len() && entries.len() <= usize::MAX && part
            + entries.len() <= u64::MAX,
        forall|i: int|
            0 <= i < (match m.phase {
                PhaseV::Reloc { entries, .. } => entries.len() as int,
                _ => 0,
            }) ==> events[i] == PipeEventV::OpOk,
    ensures
        phase_at(
            m,
            events,
            match m.phase {
                PhaseV::Reloc { entries, .. } => entries.len() as int,
                _ => 0,
            },
        ) == (match m.phase {
            PhaseV::Reloc { t, files, f, part, entries, e } => PhaseV::RemoveTemp {
                t,
                files,
                f,
                part: (part + entries.len()) as u64,
            },
            _ => m.phase,
        }),
{
    let n = match m.phase {
        PhaseV::Reloc { entries, .. } => entries.len() as int,
        _ => 0,
    };
    lemma_reloc_stays_consecutive(m, events, n - 1);
    assert(events[n - 1] == PipeEventV::OpOk);
}

/// In any run from the start, a pending mutating action means the acting
/// table's output probe was answered "does not exist" earlier in the
/// run: nothing is ever created, written, relocated or removed for a
/// table whose output directory was not first seen absent.
pub proof fn lemma_mutation_needs_clear_probe(m: PipelineView, events: Seq<PipeEventV>, j: int)
    requires
        0 <= j <= events.len(),
        forall|u: usize| !converting(m.phase, u),
        mutating_action(pipe_action(with_phase(m, phase_at(m, events, j)))),
    ensures
        exists|t: usize, i: int|
            converting(phase_at(m, events, j), t) && 0 <= i < j && phase_at(m, events, i) == (
            PhaseV::CheckOutput { t }) && events[i] matches PipeEventV::PathStatus {
                exists: false,
                is_dir: _,
            },
{
    lemma_mutating_is_converting(with_phase(m, phase_at(m, events, j)));
    let t = choose|t: usize| converting(phase_at(m, events, j), t);
    lemma_converting_needs_clear_probe(m, events, j, t);
    let i0 = choose|i: int|
        0 <= i < j && phase_at(m, events, i) == (PhaseV::CheckOutput { t })
            && events[i] matches PipeEventV::PathStatus { exists: false, is_dir: _ };
    assert(converting(phase_at(m, events, j), t) && 0 <= i0 < j && phase_at(m, events, i0) == (
    PhaseV::CheckOutput { t }) && events[i0] matches PipeEventV::PathStatus {
        exists: false,
        is_dir: _,
    });
}

} // verus!
