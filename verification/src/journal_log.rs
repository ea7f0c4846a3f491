//! Tailing the journal: the commands that ask it for the entries of a
//! service or of the kernel, the watermark that marks what was delivered
//! already, and the text that goes to the log file.

use crate::cmd_health_check::CommandOutput;
use crate::decimal::{decimal, push_decimal};
use crate::error::HealthError;
use crate::text::{is_blank, is_blank_text, texts_of};
use vstd::prelude::*;
use vstd::string::StringExecFns;

verus! {

/// The command that asks the journal for the entries of `service` since
/// `since`.
pub open spec fn service_query(service: Seq<char>, since: Seq<char>) -> Seq<Seq<char>> {
    seq!["journalctl"@, "-u"@, service, "--since"@, since, "--no-pager"@]
}

/// The command that asks the journal for the kernel's entries since `since`.
pub open spec fn kernel_query(since: Seq<char>) -> Seq<Seq<char>> {
    seq!["journalctl"@, "-k"@, "--since"@, since, "--no-pager"@]
}

/// What a command's output amounts to: its standard output where it
/// succeeded.
pub open spec fn logs_of(output: CommandOutput) -> Result<Seq<char>, HealthError> {
    if output.succeeded() {
        Ok(output.stdout@)
    } else {
        Err(HealthError::CommandFailure)
    }
}

/// Whether a fetch delivers entries: it succeeded, and the batch is not
/// empty.
pub open spec fn delivers(fetched: Result<String, HealthError>) -> bool {
    fetched matches Ok(batch) && batch@.len() > 0
}

/// The watermark after a fetch that was issued at `issued_at`: the time of
/// the request where the fetch delivers entries, the watermark as it was
/// where the fetch failed or the batch is empty.
pub open spec fn watermark_after(
    last_seen_at: u64,
    issued_at: u64,
    fetched: Result<String, HealthError>,
) -> u64 {
    if delivers(fetched) {
        issued_at
    } else {
        last_seen_at
    }
}

/// A watermark never moves back, as long as the clock does not: a fetch that
/// is issued no earlier than the watermark leaves it where it was or moves it
/// forward, and a failed fetch or an empty batch leaves it where it was
/// whenever it is issued.
pub proof fn lemma_watermark_never_decreases(
    last_seen_at: u64,
    issued_at: u64,
    fetched: Result<String, HealthError>,
)
    ensures
        issued_at >= last_seen_at ==> watermark_after(last_seen_at, issued_at, fetched)
            >= last_seen_at,
        !delivers(fetched) ==> watermark_after(last_seen_at, issued_at, fetched) == last_seen_at,
        fetched is Err ==> watermark_after(last_seen_at, issued_at, fetched) == last_seen_at,
{
}

/// A fetch that fails is tried again from the same place: after a failed
/// fetch the watermark is where it was, so the next fetch asks for the
/// entries since then, and where that fetch, issued at `issued_at`, brings a
/// batch that is not empty the watermark is `issued_at`. As long as the clock
/// has not moved back the watermark has not either.
pub proof fn lemma_fetch_after_error(
    last_seen_at: u64,
    failed_at: u64,
    error: HealthError,
    issued_at: u64,
    batch: String,
)
    requires
        batch@.len() > 0,
    ensures
        watermark_after(last_seen_at, failed_at, Err(error)) == last_seen_at,
        watermark_after(
            watermark_after(last_seen_at, failed_at, Err(error)),
            issued_at,
            Ok(batch),
        ) == issued_at,
        issued_at >= last_seen_at ==> watermark_after(
            watermark_after(last_seen_at, failed_at, Err(error)),
            issued_at,
            Ok(batch),
        ) >= last_seen_at,
{
}

/// A stream of the journal.
#[derive(Clone, Debug, PartialEq, Eq)]
pub enum LogStream {
    /// The entries of one service.
    Service(String),
    /// The kernel's entries.
    Kernel,
}

/// Marks, for one stream, the time up to which its entries were delivered.
#[derive(Debug, PartialEq, Eq)]
pub struct Watermark {
    stream: LogStream,
    last_seen_at: u64,
}

impl Watermark {
    /// The stream that the watermark belongs to.
    pub closed spec fn stream_of(&self) -> LogStream {
        self.stream
    }

    /// The time up to which entries were delivered, in seconds since the
    /// start of 1970.
    pub closed spec fn seen(&self) -> u64 {
        self.last_seen_at
    }

    /// A watermark for `stream` that stands at `started_at`, the time at
    /// which monitoring starts.
    pub fn new(stream: LogStream, started_at: u64) -> (mark: Self)
        ensures
            mark.stream_of() == stream,
            mark.seen() == started_at,
    {
        Watermark { stream, last_seen_at: started_at }
    }

    pub fn stream(&self) -> (stream: &LogStream)
        ensures
            *stream == self.stream_of(),
    {
        &self.stream
    }

    pub fn last_seen_at(&self) -> (seconds: u64)
        ensures
            seconds == self.seen(),
    {
        self.last_seen_at
    }

    /// The watermark as the journal command takes it: `@` and the seconds.
    pub fn since(&self) -> (text: String)
        ensures
            text@ == "@"@ + decimal(self.seen() as nat),
    {
        let mut text = String::from_str("@");
        push_decimal(&mut text, self.last_seen_at);
        text
    }

    /// Takes in the outcome of a fetch that was issued at `issued_at`. Where
    /// it delivers entries the watermark moves to `issued_at` and the batch is
    /// handed on for the sink; a failed fetch and an empty batch leave the
    /// watermark where it was and hand on nothing.
    pub fn settle(&mut self, issued_at: u64, fetched: Result<String, HealthError>) -> (batch:
        Option<String>)
        ensures
            final(self).stream_of() == old(self).stream_of(),
            final(self).seen() == watermark_after(old(self).seen(), issued_at, fetched),
            batch == if delivers(fetched) {
                Some(fetched->Ok_0)
            } else {
                None
            },
            issued_at >= old(self).seen() ==> final(self).seen() >= old(self).seen(),
            fetched is Err ==> final(self).seen() == old(self).seen(),
            fetched matches Ok(entries) && entries@.len() > 0 ==> final(self).seen() == issued_at,
    {
        match fetched {
            Ok(batch) => {
                if batch.as_str().is_empty() {
                    None
                } else {
                    self.last_seen_at = issued_at;
                    Some(batch)
                }
            },
            Err(_) => None,
        }
    }

    /// Fetches the entries since the watermark with `fetch_fn` and takes in
    /// the outcome, as `settle` does. `issued_at` is the time at which the
    /// fetch is issued.
    pub fn advance<F>(&mut self, issued_at: u64, fetch_fn: F) -> (batch: Option<String>) where
        F: FnOnce(u64) -> Result<String, HealthError>,

        requires
            call_requires(fetch_fn, (old(self).seen(),)),
        ensures
            final(self).stream_of() == old(self).stream_of(),
            exists|fetched: Result<String, HealthError>|
                {
                    &&& #[trigger] call_ensures(fetch_fn, (old(self).seen(),), fetched)
                    &&& final(self).seen() == watermark_after(old(self).seen(), issued_at, fetched)
                    &&& batch == if delivers(fetched) {
                        Some(fetched->Ok_0)
                    } else {
                        None
                    }
                },
            issued_at >= old(self).seen() ==> final(self).seen() >= old(self).seen(),
            batch is None ==> final(self).seen() == old(self).seen(),
    {
        let fetched = fetch_fn(self.last_seen_at);
        self.settle(issued_at, fetched)
    }
}

/// Writes what the journal delivers to a log file.
#[derive(Clone, Debug, PartialEq, Eq)]
pub struct LogWriter {
    log_file_path: String,
}

impl LogWriter {
    /// The path of the log file.
    pub closed spec fn path(&self) -> Seq<char> {
        self.log_file_path@
    }

    pub fn new(log_file: &str) -> (writer: Self)
        ensures
            writer.path() == log_file@,
    {
        LogWriter { log_file_path: String::from_str(log_file) }
    }

    pub fn get_log_file_path(&self) -> (path: &String)
        ensures
            path@ == self.path(),
    {
        &self.log_file_path
    }

    /// What is to be appended to the log file for the batch `logs`: the batch
    /// and a line feed, or nothing where the batch holds white space only.
    pub fn write_log(&self, logs: &str) -> (text: Option<String>)
        ensures
            is_blank(logs@) ==> text is None,
            !is_blank(logs@) ==> text is Some && text->Some_0@ == logs@ + "\n"@,
    {
        if is_blank_text(logs) {
            None
        } else {
            let mut text = String::from_str(logs);
            text.append("\n");
            Some(text)
        }
    }

    /// Asks the journal for the entries of `service` since `since`: builds
    /// the command, has `run` run it, and gives its standard output, or
    /// `CommandFailure` where the command failed.
    pub fn extract_service_logs<F>(service: &str, since: &str, run: F) -> (logs: Result<
        String,
        HealthError,
    >) where F: FnOnce(Vec<String>) -> CommandOutput
        requires
            forall|command: Vec<String>|
                texts_of(command@) == service_query(service@, since@) ==> call_requires(
                    run,
                    (command,),
                ),
        ensures
            exists|command: Vec<String>, output: CommandOutput|
                {
                    &&& texts_of(command@) == service_query(service@, since@)
                    &&& #[trigger] call_ensures(run, (command,), output)
                    &&& logs_of(output) == match logs {
                        Ok(text) => Ok::<Seq<char>, HealthError>(text@),
                        Err(e) => Err(e),
                    }
                },
    {
        let mut command: Vec<String> = Vec::new();
        command.push(String::from_str("journalctl"));
        command.push(String::from_str("-u"));
        command.push(String::from_str(service));
        command.push(String::from_str("--since"));
        command.push(String::from_str(since));
        command.push(String::from_str("--no-pager"));
        assert(texts_of(command@) =~= service_query(service@, since@));
        let output = run(command);
        Self::logs_from(output)
    }

    /// Asks the journal for the kernel's entries since `since`, as
    /// `extract_service_logs` does for a service.
    pub fn extract_kernel_logs<F>(since: &str, run: F) -> (logs: Result<String, HealthError>) where
        F: FnOnce(Vec<String>) -> CommandOutput,

        requires
            forall|command: Vec<String>|
                texts_of(command@) == kernel_query(since@) ==> call_requires(run, (command,)),
        ensures
            exists|command: Vec<String>, output: CommandOutput|
                {
                    &&& texts_of(command@) == kernel_query(since@)
                    &&& #[trigger] call_ensures(run, (command,), output)
                    &&& logs_of(output) == match logs {
                        Ok(text) => Ok::<Seq<char>, HealthError>(text@),
                        Err(e) => Err(e),
                    }
                },
    {
        let mut command: Vec<String> = Vec::new();
        command.push(String::from_str("journalctl"));
        command.push(String::from_str("-k"));
        command.push(String::from_str("--since"));
        command.push(String::from_str(since));
        command.push(String::from_str("--no-pager"));
        assert(texts_of(command@) =~= kernel_query(since@));
        let output = run(command);
        Self::logs_from(output)
    }

    /// What the output of a journal command amounts to.
    pub fn logs_from(output: CommandOutput) -> (logs: Result<String, HealthError>)
        ensures
            logs_of(output) == match logs {
                Ok(text) => Ok::<Seq<char>, HealthError>(text@),
                Err(e) => Err(e),
            },
    {
        if output.success() {
            Ok(output.stdout)
        } else {
            Err(HealthError::CommandFailure)
        }
    }
}

} // verus!
