//! The CSV sink: rows are encoded and staged in memory, and the caller moves
//! what is staged to the backing file.

use crate::error::HealthError;
use vstd::prelude::*;
use vstd::string::StringExecFns;

verus! {

/// The bytes that the CSV writer of the `csv` crate, as it is configured by
/// default, writes for one record.
pub uninterp spec fn csv_record_bytes(record: Seq<Seq<char>>) -> Seq<u8>;

/// The fields of a record as sequences of characters.
pub open spec fn fields_of(record: Seq<&str>) -> Seq<Seq<char>> {
    record.map_values(|field: &str| field@)
}

/// Encodes one record as a CSV row.
///
/// Calls `csv::Writer::write_record` on a writer that `csv::Writer::from_writer`
/// made over an empty vector, and takes the vector back with
/// `csv::Writer::into_inner`. Trusted: the row depends on the fields alone
/// and ends with a line feed, and there always is one. Neither call fails
/// here: the writer is new, so no earlier record fixes the number of fields,
/// and writing to a vector cannot fail.
#[verifier::external_body]
fn encode_record(record: &[&str]) -> (row: Option<Vec<u8>>)
    ensures
        row is Some,
        row->Some_0@ == csv_record_bytes(fields_of(record@)),
        row->Some_0@.len() > 0,
        row->Some_0@.last() == 0x0a,
{
    let mut writer = csv::Writer::from_writer(Vec::new());
    writer.write_record(record).ok()?;
    writer.into_inner().ok()
}

/// What a `LogWriter` stands for.
pub struct LogView {
    /// The path of the backing file.
    pub path: Seq<char>,
    /// The length of the backing file when the writer was made.
    pub initial_len: nat,
    /// The number of columns, once the first row has fixed it.
    pub columns: Option<nat>,
    /// The rows that are staged, encoded.
    pub pending: Seq<u8>,
}

impl LogView {
    /// Whether the sink holds nothing: the backing file was empty and no row
    /// has been written.
    pub open spec fn is_empty(self) -> bool {
        self.initial_len == 0 && self.columns is None
    }

    /// Whether the sink takes `record`: the first row fixes the number of
    /// columns, and each later row has to have as many.
    pub open spec fn accepts(self, record: Seq<Seq<char>>) -> bool {
        match self.columns {
            Some(n) => record.len() == n,
            None => true,
        }
    }

    /// The sink after `record` was written to it: with one more row where it
    /// takes the record, unchanged where it does not.
    pub open spec fn write(self, record: Seq<Seq<char>>) -> LogView {
        if self.accepts(record) {
            LogView {
                columns: Some(record.len()),
                pending: self.pending + csv_record_bytes(record),
                ..self
            }
        } else {
            self
        }
    }

    /// The sink after each of `records` was written to it, in order.
    pub open spec fn write_all(self, records: Seq<Seq<Seq<char>>>) -> LogView
        decreases records.len(),
    {
        if records.len() == 0 {
            self
        } else {
            self.write_all(records.drop_last()).write(records.last())
        }
    }
}

/// The rows of `records` one after the other.
pub open spec fn encoded_rows(records: Seq<Seq<Seq<char>>>) -> Seq<u8>
    decreases records.len(),
{
    if records.len() == 0 {
        Seq::empty()
    } else {
        encoded_rows(records.drop_last()) + csv_record_bytes(records.last())
    }
}

/// Records of one width, written one after the other to a sink that takes that
/// width, each add exactly their own row, whole and in order, whatever else
/// was staged before.
pub proof fn lemma_rows_are_whole(sink: LogView, records: Seq<Seq<Seq<char>>>, width: nat)
    requires
        sink.columns matches Some(n) ==> n == width,
        forall|i: int| 0 <= i < records.len() ==> (#[trigger] records[i]).len() == width,
    ensures
        sink.write_all(records).pending == sink.pending + encoded_rows(records),
        sink.write_all(records).path == sink.path,
        sink.write_all(records).initial_len == sink.initial_len,
        records.len() > 0 ==> sink.write_all(records).columns == Some(width),
        records.len() == 0 ==> sink.write_all(records) == sink,
    decreases records.len(),
{
    if records.len() > 0 {
        lemma_rows_are_whole(sink, records.drop_last(), width);
        assert(sink.write_all(records).pending =~= sink.pending + encoded_rows(records));
    } else {
        assert(sink.pending =~= sink.pending + encoded_rows(records));
    }
}

/// An append-only sink of CSV rows.
#[derive(Debug)]
pub struct LogWriter {
    log_file_path: String,
    initial_len: u64,
    columns: Option<usize>,
    pending: Vec<u8>,
}

impl View for LogWriter {
    type V = LogView;

    closed spec fn view(&self) -> LogView {
        LogView {
            path: self.log_file_path@,
            initial_len: self.initial_len as nat,
            columns: match self.columns {
                Some(n) => Some(n as nat),
                None => None,
            },
            pending: self.pending@,
        }
    }
}

impl LogWriter {
    /// A sink over the file at `log_file`, or at `DrViet_health_log.csv` in
    /// the working directory where none is given, that holds `existing_len`
    /// bytes already.
    pub fn new(log_file: Option<&str>, existing_len: u64) -> (writer: Self)
        ensures
            writer@ == (LogView {
                path: match log_file {
                    Some(path) => path@,
                    None => "DrViet_health_log.csv"@,
                },
                initial_len: existing_len as nat,
                columns: None,
                pending: Seq::empty(),
            }),
    {
        let log_file_path = match log_file {
            Some(path) => String::from_str(path),
            None => String::from_str("DrViet_health_log.csv"),
        };
        LogWriter { log_file_path, initial_len: existing_len, columns: None, pending: Vec::new() }
    }

    pub fn get_log_file_path(&self) -> (path: &String)
        ensures
            path@ == self@.path,
    {
        &self.log_file_path
    }

    /// Whether the sink holds nothing, so that a header is due.
    pub fn is_empty(&self) -> (empty: bool)
        ensures
            empty == self@.is_empty(),
    {
        self.initial_len == 0 && self.columns.is_none()
    }

    /// Stages `record` as one row. A record whose width differs from that of
    /// the first row is refused with `IoError`, and the sink stays as it was.
    /// A row that is staged is whole: what is staged has grown and ends with
    /// the row's line feed.
    pub fn write_record(&mut self, record: &[&str]) -> (written: Result<(), HealthError>)
        ensures
            final(self)@ == old(self)@.write(fields_of(record@)),
            written == if old(self)@.accepts(fields_of(record@)) {
                Ok::<(), HealthError>(())
            } else {
                Err(HealthError::IoError)
            },
            written is Ok ==> final(self)@.pending.len() > old(self)@.pending.len(),
            written is Ok ==> final(self)@.pending.last() == 0x0a,
    {
        match self.columns {
            Some(n) => {
                if record.len() != n {
                    return Err(HealthError::IoError);
                }
            },
            None => {},
        }
        let mut row = match encode_record(record) {
            Some(row) => row,
            None => {
                return Err(HealthError::IoError);
            },
        };
        self.columns = Some(record.len());
        self.pending.append(&mut row);
        Ok(())
    }

    /// Hands out what is staged, for the caller to append to the backing
    /// file, and leaves nothing staged.
    pub fn take_pending(&mut self) -> (bytes: Vec<u8>)
        ensures
            bytes@ == old(self)@.pending,
            final(self)@ == (LogView { pending: Seq::empty(), ..old(self)@ }),
    {
        let mut bytes: Vec<u8> = Vec::new();
        bytes.append(&mut self.pending);
        bytes
    }
}

} // verus!
