//! The monitor: on each tick it samples every tracked service and stages
//! one row for the memory log or the CPU log, after a header where the log
//! holds nothing yet. A service that cannot be sampled gets a placeholder in
//! its column, and the tick goes on.

use crate::cmd_health_check::{meminfo_of, CmdHealCheck, MemInfo};
use crate::config::ConfigParser;
use crate::cpu_load::{load_sample_of, Snapshot};
use crate::decimal::{decimal, decimal_tenths, write_decimal, write_tenths};
use crate::error::HealthError;
use crate::log::{fields_of, LogView, LogWriter};
use crate::memory_usage::{megabytes_tenths, memory_sample_of};
use crate::text::texts_of;
use std::time::Duration;
use vstd::prelude::*;
use vstd::string::StringExecFns;

verus! {

/// What was read of one service for a CPU sample: the processes that matched
/// and two snapshots of them.
#[derive(Clone, Debug, PartialEq, Eq)]
pub struct CpuReading {
    pub pids: Vec<u32>,
    pub first: Snapshot,
    pub second: Snapshot,
}

/// What was read of one service for a memory sample: the status records of
/// the processes that matched, or why they could not be listed.
pub type MemoryReading = Result<Vec<Option<String>>, HealthError>;

/// The heading of a service's column, in the memory log and in the CPU log
/// alike.
pub open spec fn column_of(service: Seq<char>) -> Seq<char> {
    service + "(MB)"@
}

/// The header of the memory log for the services `names`.
pub open spec fn memory_header(names: Seq<Seq<char>>) -> Seq<Seq<char>> {
    seq![
        "Timestamp"@,
        "Total Memory(MB)"@,
        "Free Memory(MB)"@,
        "Available Memory(MB)"@,
        "Buffers Memory(MB)"@,
        "Cached Memory(MB)"@,
    ] + names.map_values(|name: Seq<char>| column_of(name))
}

/// The header of the CPU log for the services `names`.
pub open spec fn cpu_header(names: Seq<Seq<char>>) -> Seq<Seq<char>> {
    seq!["Timestamp"@] + names.map_values(|name: Seq<char>| column_of(name))
}

/// What stands in the column of a service that could not be sampled.
pub open spec fn placeholder() -> Seq<char> {
    "N/A"@
}

/// The cell of a service in a row of the memory log: its resident memory in
/// megabytes with at most one decimal place, or the placeholder.
pub open spec fn memory_cell(reading: Option<MemoryReading>) -> Seq<char> {
    match reading {
        Some(Ok(statuses)) => match memory_sample_of(statuses@) {
            Ok(kilobytes) => decimal_tenths(megabytes_tenths(kilobytes as nat) as int),
            Err(_) => placeholder(),
        },
        _ => placeholder(),
    }
}

/// The cell of a service in a row of the CPU log: its load in percent with
/// at most one decimal place, or the placeholder.
pub open spec fn cpu_cell(reading: Option<Result<CpuReading, HealthError>>) -> Seq<char> {
    match reading {
        Some(Ok(r)) => match load_sample_of(r.pids@, &r.first, &r.second) {
            Ok(tenths) => decimal_tenths(tenths as int),
            Err(_) => placeholder(),
        },
        _ => placeholder(),
    }
}

/// The reading at index `i`, where there is one.
pub open spec fn reading_at<T>(readings: Seq<T>, i: int) -> Option<T> {
    if 0 <= i < readings.len() {
        Some(readings[i])
    } else {
        None
    }
}

/// A row of the memory log: the time, the host's memory, and a cell for each
/// of `count` services, the i-th from the i-th reading.
pub open spec fn memory_record(
    timestamp: Seq<char>,
    info: MemInfo,
    count: nat,
    readings: Seq<MemoryReading>,
) -> Seq<Seq<char>> {
    seq![
        timestamp,
        decimal(info.total_memory as nat),
        decimal(info.free_memory as nat),
        decimal(info.available_memory as nat),
        decimal(info.buffers_memory as nat),
        decimal(info.cached_memory as nat),
    ] + Seq::new(count, |i: int| memory_cell(reading_at(readings, i)))
}

/// A row of the CPU log: the time and a cell for each of `count` services.
pub open spec fn cpu_record(
    timestamp: Seq<char>,
    count: nat,
    readings: Seq<Result<CpuReading, HealthError>>,
) -> Seq<Seq<char>> {
    seq![timestamp] + Seq::new(count, |i: int| cpu_cell(reading_at(readings, i)))
}

/// The sink with `header` written to it if it held nothing.
pub open spec fn with_header(sink: LogView, header: Seq<Seq<char>>) -> LogView {
    if sink.is_empty() {
        sink.write(header)
    } else {
        sink
    }
}

/// The memory log after a tick at time `timestamp`: the header where the log
/// held nothing, then the row, unless the host's memory could not be read.
pub open spec fn memory_tick(
    sink: LogView,
    services: Option<Seq<Seq<char>>>,
    timestamp: Seq<char>,
    meminfo: Result<String, HealthError>,
    readings: Seq<MemoryReading>,
) -> LogView {
    let names = match services {
        Some(names) => names,
        None => Seq::empty(),
    };
    let ready = with_header(sink, memory_header(names));
    match meminfo {
        Ok(contents) => ready.write(
            memory_record(timestamp, meminfo_of(contents@), names.len(), readings),
        ),
        Err(_) => ready,
    }
}

/// Whether a memory tick stages all it is to stage: the sink takes the row.
pub open spec fn memory_tick_succeeds(
    sink: LogView,
    services: Option<Seq<Seq<char>>>,
    timestamp: Seq<char>,
    meminfo: Result<String, HealthError>,
    readings: Seq<MemoryReading>,
) -> bool {
    let names = match services {
        Some(names) => names,
        None => Seq::empty(),
    };
    let ready = with_header(sink, memory_header(names));
    match meminfo {
        Ok(contents) => ready.accepts(
            memory_record(timestamp, meminfo_of(contents@), names.len(), readings),
        ),
        Err(_) => true,
    }
}

/// The CPU log after a tick at time `timestamp`: the header where the log
/// held nothing, then the row where a list of services is configured.
pub open spec fn cpu_tick(
    sink: LogView,
    services: Option<Seq<Seq<char>>>,
    timestamp: Seq<char>,
    readings: Seq<Result<CpuReading, HealthError>>,
) -> LogView {
    match services {
        Some(names) => with_header(sink, cpu_header(names)).write(
            cpu_record(timestamp, names.len(), readings),
        ),
        None => with_header(sink, cpu_header(Seq::empty())),
    }
}

/// Whether a CPU tick stages all it is to stage.
pub open spec fn cpu_tick_succeeds(
    sink: LogView,
    services: Option<Seq<Seq<char>>>,
    timestamp: Seq<char>,
    readings: Seq<Result<CpuReading, HealthError>>,
) -> bool {
    match services {
        Some(names) => with_header(sink, cpu_header(names)).accepts(
            cpu_record(timestamp, names.len(), readings),
        ),
        None => true,
    }
}

/// The header is written once at most: two rows that go to a sink that holds
/// something add no header, and two rows that go to a sink that holds
/// nothing add the header before the first of them only.
pub proof fn lemma_header_written_once(
    sink: LogView,
    header: Seq<Seq<char>>,
    first: Seq<Seq<char>>,
    second: Seq<Seq<char>>,
)
    ensures
        with_header(with_header(sink, header).write(first), header).write(second) == if sink.is_empty() {
            sink.write(header).write(first).write(second)
        } else {
            sink.write(first).write(second)
        },
{
}

/// A row is as wide as the header of its log, so a tick stages all it is to
/// stage on a log that holds nothing, on a log whose width no row has fixed
/// yet, and on a log whose width is that of the header.
pub proof fn lemma_ticks_fit_their_log(
    sink: LogView,
    services: Option<Seq<Seq<char>>>,
    timestamp: Seq<char>,
    meminfo: Result<String, HealthError>,
    memory_readings: Seq<MemoryReading>,
    cpu_readings: Seq<Result<CpuReading, HealthError>>,
)
    ensures
        ({
            let names = match services {
                Some(names) => names,
                None => Seq::empty(),
            };
            &&& memory_header(names).len() == 6 + names.len()
            &&& cpu_header(names).len() == 1 + names.len()
            &&& forall|info: MemInfo| #[trigger]
                memory_record(timestamp, info, names.len(), memory_readings).len() == 6
                    + names.len()
            &&& cpu_record(timestamp, names.len(), cpu_readings).len() == 1 + names.len()
            &&& (sink.columns is None || sink.columns == Some(6 + names.len()))
                ==> memory_tick_succeeds(sink, services, timestamp, meminfo, memory_readings)
            &&& (sink.columns is None || sink.columns == Some(1 + names.len()))
                ==> cpu_tick_succeeds(sink, services, timestamp, cpu_readings)
        }),
{
}

/// Where a sampling loop stands.
#[derive(Clone, Copy, Debug, PartialEq, Eq, Structural)]
pub enum LoopState {
    /// Waiting for the next tick.
    Idle,
    /// Reading and sampling.
    Sampling,
    /// Handing the row to the sink.
    Emitting,
}

/// What happened to a sampling loop.
#[derive(Clone, Copy, Debug, PartialEq, Eq, Structural)]
pub enum LoopEvent {
    /// The interval has passed.
    Tick,
    /// The sample was taken.
    Sampled,
    /// The sample could not be taken.
    SampleFailed,
    /// The sink took the row.
    Emitted,
    /// The sink refused the row.
    EmitFailed,
}

/// What a sampling loop is to do next.
#[derive(Clone, Copy, Debug, PartialEq, Eq, Structural)]
pub enum LoopAction {
    /// Take the sample.
    Sample,
    /// Hand the row with the sample to the sink.
    Emit,
    /// Hand a row with the placeholder to the sink.
    EmitPlaceholder,
    /// Report the failure, if there was one, and wait for the next tick.
    Wait,
}

/// The state that follows `state` on `event`: a tick starts the sampling, its
/// outcome starts the emitting, and the outcome of that ends the round,
/// whether either went well or not. An event that does not belong to the
/// state leaves it as it is.
pub open spec fn next_state(state: LoopState, event: LoopEvent) -> LoopState {
    match (state, event) {
        (LoopState::Idle, LoopEvent::Tick) => LoopState::Sampling,
        (LoopState::Sampling, LoopEvent::Sampled) => LoopState::Emitting,
        (LoopState::Sampling, LoopEvent::SampleFailed) => LoopState::Emitting,
        (LoopState::Emitting, LoopEvent::Emitted) => LoopState::Idle,
        (LoopState::Emitting, LoopEvent::EmitFailed) => LoopState::Idle,
        _ => state,
    }
}

/// What the loop is to do when `event` reaches it in `state`.
pub open spec fn next_action(state: LoopState, event: LoopEvent) -> LoopAction {
    match (state, event) {
        (LoopState::Idle, LoopEvent::Tick) => LoopAction::Sample,
        (LoopState::Sampling, LoopEvent::Sampled) => LoopAction::Emit,
        (LoopState::Sampling, LoopEvent::SampleFailed) => LoopAction::EmitPlaceholder,
        _ => LoopAction::Wait,
    }
}

/// Takes a sampling loop one step on: the state that follows, and what to do.
pub fn step(state: LoopState, event: LoopEvent) -> (next: (LoopState, LoopAction))
    ensures
        next.0 == next_state(state, event),
        next.1 == next_action(state, event),
{
    match (state, event) {
        (LoopState::Idle, LoopEvent::Tick) => (LoopState::Sampling, LoopAction::Sample),
        (LoopState::Sampling, LoopEvent::Sampled) => (LoopState::Emitting, LoopAction::Emit),
        (LoopState::Sampling, LoopEvent::SampleFailed) => (
            LoopState::Emitting,
            LoopAction::EmitPlaceholder,
        ),
        (LoopState::Emitting, LoopEvent::Emitted) => (LoopState::Idle, LoopAction::Wait),
        (LoopState::Emitting, LoopEvent::EmitFailed) => (LoopState::Idle, LoopAction::Wait),
        _ => (state, LoopAction::Wait),
    }
}

/// A sampling loop never halts: from every state some event leads on, and a
/// round that starts idle ends idle whether the sample and the write went
/// well or failed.
pub proof fn lemma_loop_never_halts(state: LoopState, sampled: bool, emitted: bool)
    ensures
        exists|event: LoopEvent| #[trigger] next_state(state, event) != state,
        ({
            let sampling = next_state(LoopState::Idle, LoopEvent::Tick);
            let emitting = next_state(
                sampling,
                if sampled {
                    LoopEvent::Sampled
                } else {
                    LoopEvent::SampleFailed
                },
            );
            next_state(
                emitting,
                if emitted {
                    LoopEvent::Emitted
                } else {
                    LoopEvent::EmitFailed
                },
            ) == LoopState::Idle
        }),
{
    match state {
        LoopState::Idle => {
            assert(next_state(state, LoopEvent::Tick) != state);
        },
        LoopState::Sampling => {
            assert(next_state(state, LoopEvent::SampleFailed) != state);
        },
        LoopState::Emitting => {
            assert(next_state(state, LoopEvent::EmitFailed) != state);
        },
    }
}

/// The time of day on this machine, written as `format` asks.
///
/// Calls `chrono::Local::now` and formats what it gives with
/// `chrono::DateTime::format`. Nothing is claimed of the text: it depends on
/// the clock and on the time zone. The one format that is asked for is known
/// to chrono, so that writing the text does not fail.
#[verifier::external_body]
fn local_timestamp(format: &str) -> String
    requires
        format@ == "%Y-%m-%d %H:%M:%S"@,
{
    chrono::Local::now().format(format).to_string()
}

/// Runs the sampling ticks of the tracked services and owns the two logs.
#[derive(Debug)]
pub struct HealthMonitor {
    services: Option<Vec<String>>,
    check_interval: Duration,
    memory_log: LogWriter,
    cpu_log: LogWriter,
    cmd_checker: CmdHealCheck,
}

/// What a `HealthMonitor` stands for.
pub struct MonitorView {
    /// The names of the tracked services, where a list is configured.
    pub services: Option<Seq<Seq<char>>>,
    /// The time between two ticks.
    pub check_interval: Duration,
    pub memory_log: LogView,
    pub cpu_log: LogView,
}

impl View for HealthMonitor {
    type V = MonitorView;

    closed spec fn view(&self) -> MonitorView {
        MonitorView {
            services: match self.services {
                Some(list) => Some(texts_of(list@)),
                None => None,
            },
            check_interval: self.check_interval,
            memory_log: self.memory_log@,
            cpu_log: self.cpu_log@,
        }
    }
}

/// Borrows the fields of a record as string slices.
fn as_fields<'a>(record: &'a Vec<String>) -> (fields: Vec<&'a str>)
    ensures
        fields_of(fields@) == texts_of(record@),
{
    let mut fields: Vec<&str> = Vec::new();
    let mut i: usize = 0;
    while i < record.len()
        invariant
            i <= record.len(),
            fields_of(fields@) == texts_of(record@).take(i as int),
        decreases record.len() - i,
    {
        let ghost before = fields_of(fields@);
        fields.push(record[i].as_str());
        assert(fields_of(fields@) == before.push(record@[i as int]@));
        i = i + 1;
    }
    fields
}

/// Appends the column headings of `services` to `row`.
fn push_columns(row: &mut Vec<String>, services: &Vec<String>)
    ensures
        texts_of(final(row)@) == texts_of(old(row)@) + texts_of(services@).map_values(
            |name: Seq<char>| column_of(name),
        ),
{
    let mut i: usize = 0;
    while i < services.len()
        invariant
            i <= services.len(),
            texts_of(row@) == texts_of(old(row)@) + texts_of(services@).map_values(
                |name: Seq<char>| column_of(name),
            ).take(i as int),
        decreases services.len() - i,
    {
        let mut heading = String::from_str(services[i].as_str());
        heading.append("(MB)");
        let ghost before = texts_of(row@);
        row.push(heading);
        assert(texts_of(row@) == before.push(column_of(services@[i as int]@)));
        i = i + 1;
    }
}

/// Copies a list of names.
fn copy_names(list: &Vec<String>) -> (out: Vec<String>)
    ensures
        texts_of(out@) == texts_of(list@),
{
    let mut out: Vec<String> = Vec::new();
    let mut i: usize = 0;
    while i < list.len()
        invariant
            i <= list.len(),
            texts_of(out@) == texts_of(list@).take(i as int),
        decreases list.len() - i,
    {
        let ghost before = texts_of(out@);
        out.push(list[i].clone());
        assert(texts_of(out@) == before.push(list@[i as int]@));
        i = i + 1;
    }
    out
}

impl HealthMonitor {
    /// A monitor of the services that `config` lists, which ticks every
    /// `check_interval` and writes to the two logs.
    pub fn new(
        config: &ConfigParser,
        check_interval: Duration,
        memory_log: LogWriter,
        cpu_log: LogWriter,
    ) -> (monitor: Self)
        ensures
            monitor@ == (MonitorView {
                services: match config.config.services.list {
                    Some(list) => Some(texts_of(list@)),
                    None => None,
                },
                check_interval,
                memory_log: memory_log@,
                cpu_log: cpu_log@,
            }),
    {
        let services = match config.get_config_services() {
            Some(list) => Some(copy_names(list)),
            None => None,
        };
        HealthMonitor {
            services,
            check_interval,
            memory_log,
            cpu_log,
            cmd_checker: CmdHealCheck::new(),
        }
    }

    /// The time between two ticks.
    pub fn check_interval(&self) -> (interval: Duration)
        ensures
            interval == self@.check_interval,
    {
        self.check_interval
    }

    /// The names of the tracked services, where a list is configured.
    pub fn services(&self) -> (services: &Option<Vec<String>>)
        ensures
            self@.services == match *services {
                Some(list) => Some(texts_of(list@)),
                None => None,
            },
    {
        &self.services
    }

    /// Hands out the rows staged for the memory log.
    pub fn take_memory_rows(&mut self) -> (bytes: Vec<u8>)
        ensures
            bytes@ == old(self)@.memory_log.pending,
            final(self)@ == (MonitorView {
                memory_log: LogView { pending: Seq::empty(), ..old(self)@.memory_log },
                ..old(self)@
            }),
    {
        self.memory_log.take_pending()
    }

    /// Hands out the rows staged for the CPU log.
    pub fn take_cpu_rows(&mut self) -> (bytes: Vec<u8>)
        ensures
            bytes@ == old(self)@.cpu_log.pending,
            final(self)@ == (MonitorView {
                cpu_log: LogView { pending: Seq::empty(), ..old(self)@.cpu_log },
                ..old(self)@
            }),
    {
        self.cpu_log.take_pending()
    }

    /// The cell of `service` in a row of the memory log.
    fn memory_cell_of(&self, service: &str, reading: Option<&MemoryReading>) -> (cell: String)
        ensures
            cell@ == memory_cell(
                match reading {
                    Some(r) => Some(*r),
                    None => None,
                },
            ),
    {
        match reading {
            Some(Ok(statuses)) => match self.cmd_checker.cmd_check_memory_usage_mb(
                service,
                statuses,
                None,
            ) {
                Ok(sample) => write_tenths(sample.megabytes_tenths() as i64),
                Err(_) => String::from_str("N/A"),
            },
            _ => String::from_str("N/A"),
        }
    }

    /// The cell of `service` in a row of the CPU log.
    fn cpu_cell_of(&self, service: &str, reading: Option<&Result<CpuReading, HealthError>>) -> (cell:
        String)
        ensures
            cell@ == cpu_cell(
                match reading {
                    Some(r) => Some(*r),
                    None => None,
                },
            ),
    {
        match reading {
            Some(Ok(r)) => match self.cmd_checker.cmd_check_cpu_load(
                service,
                &r.pids,
                &r.first,
                &r.second,
                None,
            ) {
                Ok(sample) => write_tenths(sample.percent_tenths),
                Err(_) => String::from_str("N/A"),
            },
            _ => String::from_str("N/A"),
        }
    }

    /// One tick of the memory log at the time `timestamp`. `meminfo` is the
    /// host's memory record, or why it could not be read; `readings` holds
    /// what was read of each service, in the order of the configured list.
    ///
    /// Stages the header where the log holds nothing, then one row: the
    /// time, the host's memory, and for each service its resident memory or
    /// the placeholder. Without the host's memory no row is staged. Fails
    /// with `IoError` where the log refuses the row.
    pub fn record_memory(
        &mut self,
        timestamp: &str,
        meminfo: &Result<String, HealthError>,
        readings: &Vec<MemoryReading>,
    ) -> (staged: Result<(), HealthError>)
        ensures
            final(self)@ == (MonitorView {
                memory_log: memory_tick(
                    old(self)@.memory_log,
                    old(self)@.services,
                    timestamp@,
                    *meminfo,
                    readings@,
                ),
                ..old(self)@
            }),
            staged == if memory_tick_succeeds(
                old(self)@.memory_log,
                old(self)@.services,
                timestamp@,
                *meminfo,
                readings@,
            ) {
                Ok::<(), HealthError>(())
            } else {
                Err(HealthError::IoError)
            },
    {
        let ghost names = match self@.services {
            Some(names) => names,
            None => Seq::empty(),
        };
        if self.memory_log.is_empty() {
            let mut header: Vec<String> = Vec::new();
            header.push(String::from_str("Timestamp"));
            header.push(String::from_str("Total Memory(MB)"));
            header.push(String::from_str("Free Memory(MB)"));
            header.push(String::from_str("Available Memory(MB)"));
            header.push(String::from_str("Buffers Memory(MB)"));
            header.push(String::from_str("Cached Memory(MB)"));
            match &self.services {
                Some(list) => {
                    push_columns(&mut header, list);
                },
                None => {},
            }
            assert(texts_of(header@) =~= memory_header(names));
            let fields = as_fields(&header);
            let _ = self.memory_log.write_record(fields.as_slice());
        }
        let contents = match meminfo {
            Ok(contents) => contents,
            Err(_) => {
                return Ok(());
            },
        };
        let info = self.cmd_checker.parse_meminfo(contents.as_str());
        let mut record: Vec<String> = Vec::new();
        record.push(String::from_str(timestamp));
        record.push(write_decimal(info.total_memory));
        record.push(write_decimal(info.free_memory));
        record.push(write_decimal(info.available_memory));
        record.push(write_decimal(info.buffers_memory));
        record.push(write_decimal(info.cached_memory));
        let ghost fixed = texts_of(record@);
        let count: usize = match &self.services {
            Some(list) => list.len(),
            None => 0,
        };
        let mut i: usize = 0;
        while i < count
            invariant
                i <= count,
                count == names.len(),
                self.services matches Some(list) ==> list.len() == count,
                self.services is None ==> count == 0,
                texts_of(record@) == fixed + Seq::new(
                    i as nat,
                    |k: int| memory_cell(reading_at(readings@, k)),
                ),
            decreases count - i,
        {
            let cell = match &self.services {
                Some(list) => {
                    let reading = if i < readings.len() {
                        Some(&readings[i])
                    } else {
                        None
                    };
                    self.memory_cell_of(list[i].as_str(), reading)
                },
                None => String::from_str("N/A"),
            };
            let ghost before = texts_of(record@);
            record.push(cell);
            assert(texts_of(record@) == before.push(memory_cell(reading_at(readings@, i as int))));
            i = i + 1;
        }
        assert(texts_of(record@) =~= memory_record(
            timestamp@,
            meminfo_of(contents@),
            names.len(),
            readings@,
        ));
        let fields = as_fields(&record);
        self.memory_log.write_record(fields.as_slice())
    }

    /// One tick of the memory log at the present time: `record_memory` with
    /// the time of day on this machine, written as `2024-05-17 09:30:00`.
    pub fn start_monitor_memory(
        &mut self,
        meminfo: &Result<String, HealthError>,
        readings: &Vec<MemoryReading>,
    ) -> (staged: Result<(), HealthError>)
        ensures
            exists|timestamp: Seq<char>|
                {
                    &&& final(self)@ == (MonitorView {
                        memory_log: #[trigger] memory_tick(
                            old(self)@.memory_log,
                            old(self)@.services,
                            timestamp,
                            *meminfo,
                            readings@,
                        ),
                        ..old(self)@
                    })
                    &&& staged == if memory_tick_succeeds(
                        old(self)@.memory_log,
                        old(self)@.services,
                        timestamp,
                        *meminfo,
                        readings@,
                    ) {
                        Ok::<(), HealthError>(())
                    } else {
                        Err(HealthError::IoError)
                    }
                },
    {
        let timestamp = local_timestamp("%Y-%m-%d %H:%M:%S");
        self.record_memory(timestamp.as_str(), meminfo, readings)
    }

    /// One tick of the CPU log at the time `timestamp`. `readings` holds what
    /// was read of each service, in the order of the configured list.
    ///
    /// Stages the header where the log holds nothing, then, where a list of
    /// services is configured, one row: the time and for each service its
    /// load or the placeholder. Fails with `IoError` where the log refuses
    /// the row.
    pub fn record_cpuload(
        &mut self,
        timestamp: &str,
        readings: &Vec<Result<CpuReading, HealthError>>,
    ) -> (staged: Result<(), HealthError>)
        ensures
            final(self)@ == (MonitorView {
                cpu_log: cpu_tick(
                    old(self)@.cpu_log,
                    old(self)@.services,
                    timestamp@,
                    readings@,
                ),
                ..old(self)@
            }),
            staged == if cpu_tick_succeeds(
                old(self)@.cpu_log,
                old(self)@.services,
                timestamp@,
                readings@,
            ) {
                Ok::<(), HealthError>(())
            } else {
                Err(HealthError::IoError)
            },
    {
        let ghost names = match self@.services {
            Some(names) => names,
            None => Seq::empty(),
        };
        if self.cpu_log.is_empty() {
            let mut header: Vec<String> = Vec::new();
            header.push(String::from_str("Timestamp"));
            match &self.services {
                Some(list) => {
                    push_columns(&mut header, list);
                },
                None => {},
            }
            assert(texts_of(header@) =~= cpu_header(names));
            let fields = as_fields(&header);
            let _ = self.cpu_log.write_record(fields.as_slice());
        }
        if self.services.is_none() {
            return Ok(());
        }
        let mut record: Vec<String> = Vec::new();
        record.push(String::from_str(timestamp));
        let count: usize = match &self.services {
            Some(list) => list.len(),
            None => 0,
        };
        let mut i: usize = 0;
        while i < count
            invariant
                i <= count,
                count == names.len(),
                self.services matches Some(list) ==> list.len() == count,
                self.services is None ==> count == 0,
                texts_of(record@) == seq![timestamp@] + Seq::new(
                    i as nat,
                    |k: int| cpu_cell(reading_at(readings@, k)),
                ),
            decreases count - i,
        {
            let cell = match &self.services {
                Some(list) => {
                    let reading = if i < readings.len() {
                        Some(&readings[i])
                    } else {
                        None
                    };
                    self.cpu_cell_of(list[i].as_str(), reading)
                },
                None => String::from_str("N/A"),
            };
            let ghost before = texts_of(record@);
            record.push(cell);
            assert(texts_of(record@) == before.push(cpu_cell(reading_at(readings@, i as int))));
            i = i + 1;
        }
        assert(texts_of(record@) =~= cpu_record(timestamp@, names.len(), readings@));
        let fields = as_fields(&record);
        self.cpu_log.write_record(fields.as_slice())
    }

    /// One tick of the CPU log at the present time: `record_cpuload` with the
    /// time of day on this machine, written as `2024-05-17 09:30:00`.
    pub fn start_monitor_cpuload(&mut self, readings: &Vec<Result<CpuReading, HealthError>>) -> (staged:
        Result<(), HealthError>)
        ensures
            exists|timestamp: Seq<char>|
                {
                    &&& final(self)@ == (MonitorView {
                        cpu_log: #[trigger] cpu_tick(
                            old(self)@.cpu_log,
                            old(self)@.services,
                            timestamp,
                            readings@,
                        ),
                        ..old(self)@
                    })
                    &&& staged == if cpu_tick_succeeds(
                        old(self)@.cpu_log,
                        old(self)@.services,
                        timestamp,
                        readings@,
                    ) {
                        Ok::<(), HealthError>(())
                    } else {
                        Err(HealthError::IoError)
                    }
                },
    {
        let timestamp = local_timestamp("%Y-%m-%d %H:%M:%S");
        self.record_cpuload(timestamp.as_str(), readings)
    }
}

} // verus!
