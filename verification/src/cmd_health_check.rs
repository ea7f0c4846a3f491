//! Readings of the host and of a service's processes, computed from the
//! records that the kernel and the process tools hand out as text.

use crate::decimal::{
    parse_hundredths, parse_signed, parse_unsigned, read_hundredths, read_signed, read_unsigned,
};
use crate::error::HealthError;
use crate::text::{
    chars_of, copy_range, find_last, has_prefix, last_index_of, lines, split_lines, split_words,
    starts_with, views, words,
};
use vstd::prelude::*;

verus! {

/// The host's memory, in megabytes.
#[derive(Clone, Copy, Debug, PartialEq, Eq, Structural)]
pub struct MemInfo {
    pub total_memory: u64,
    pub free_memory: u64,
    pub available_memory: u64,
    pub buffers_memory: u64,
    pub cached_memory: u64,
}

/// Computes readings from the text of kernel records and command output.
#[derive(Clone, Copy, Debug, PartialEq, Eq, Structural)]
pub struct CmdHealCheck;

/// How a command ended and what it wrote.
#[derive(Clone, Debug)]
pub struct CommandOutput {
    /// The exit code of the command; `None` where it could not be started or
    /// a signal ended it.
    pub code: Option<i32>,
    /// What it wrote to its standard output.
    pub stdout: String,
    /// What it wrote to its standard error.
    pub stderr: String,
}

impl CommandOutput {
    /// Whether the command reported success: it ended with the exit code 0.
    pub open spec fn succeeded(self) -> bool {
        self.code == Some(0i32)
    }

    /// Whether the command ended with the exit code `code`.
    pub fn ended_with(&self, code: i32) -> (b: bool)
        ensures
            b == (self.code == Some(code)),
    {
        match self.code {
            Some(c) => c == code,
            None => false,
        }
    }

    /// Whether the command reported success.
    pub fn success(&self) -> (b: bool)
        ensures
            b == self.succeeded(),
    {
        self.ended_with(0)
    }
}

/// The process id that a word of the process list stands for; a word that is
/// no number counts as 0.
pub open spec fn pid_of(word: Seq<char>) -> u32 {
    match parse_unsigned(word, u32::MAX as nat) {
        Some(pid) => pid as u32,
        None => 0,
    }
}

/// The process ids that a process list names, one for each of its words.
pub open spec fn pids_of(stdout: Seq<char>) -> Seq<u32> {
    words(stdout).map_values(|word: Seq<char>| pid_of(word))
}

/// What the process list command found: the process ids that its output
/// names where it succeeded, none where it ended with the exit code 1 and
/// wrote no error, which is how it says that no process matches, and
/// `CommandFailure` otherwise.
pub open spec fn listed_pids(output: CommandOutput) -> Result<Seq<u32>, HealthError> {
    if output.succeeded() {
        Ok(pids_of(output.stdout@))
    } else if output.code == Some(1i32) && output.stderr@.len() == 0 {
        Ok(Seq::empty())
    } else {
        Err(HealthError::CommandFailure)
    }
}

/// The fields of a process's scheduling record that follow the process's
/// name. The name stands in parentheses and may hold white space and
/// parentheses of its own, so the fields are the words after the last `)`.
/// `None` where the record holds no `)`.
pub open spec fn stat_fields(stat: Seq<char>) -> Option<Seq<Seq<char>>> {
    let close = last_index_of(stat, ')');
    if close < 0 {
        None
    } else {
        Some(words(stat.subrange(close + 1, stat.len() as int)))
    }
}

/// The user and kernel ticks that a process's scheduling record reports: the
/// fourteenth and fifteenth fields of the record, which are the twelfth and
/// thirteenth after the process's name. `None` where the record holds no
/// `)`, has fewer fields, or one of the two is no number.
pub open spec fn stat_ticks(stat: Seq<char>) -> Option<(u64, u64)> {
    match stat_fields(stat) {
        Some(w) => if w.len() >= 13 {
            match (
                parse_unsigned(w[11], u64::MAX as nat),
                parse_unsigned(w[12], u64::MAX as nat),
            ) {
                (Some(user), Some(kernel)) => Some((user as u64, kernel as u64)),
                _ => None,
            }
        } else {
            None
        },
        None => None,
    }
}

/// The uptime that the uptime record reports, in hundredths of a second: its
/// first word, read as seconds with a fraction. A record without a word
/// counts as 0; `None` where the word is no such number.
pub open spec fn uptime_of(record: Seq<char>) -> Option<u64> {
    let w = words(record);
    if w.len() == 0 {
        Some(0)
    } else {
        match parse_hundredths(w[0], u64::MAX as nat) {
            Some(hundredths) => Some(hundredths as u64),
            None => None,
        }
    }
}

/// Total, used and free space that the output of the disk command reports:
/// two words, the total and what is available. Used is the total less what is
/// available, and free is what is available. `None` where there are not two
/// words, one of them is no number, or more is available than there is in
/// total.
pub open spec fn disk_space_of(stdout: Seq<char>) -> Option<(u64, u64, u64)> {
    let w = words(stdout);
    if w.len() == 2 {
        match (parse_unsigned(w[0], u64::MAX as nat), parse_unsigned(w[1], u64::MAX as nat)) {
            (Some(total), Some(available)) => if available <= total {
                Some((total as u64, (total - available) as u64, available as u64))
            } else {
                None
            },
            _ => None,
        }
    } else {
        None
    }
}

/// The temperature that the thermal record reports, in thousandths of a
/// degree Celsius: its only word, a signed integer.
pub open spec fn temperature_of(contents: Seq<char>) -> Option<i64> {
    let w = words(contents);
    if w.len() == 1 {
        match parse_signed(w[0], i64::MAX as nat) {
            Some(millidegrees) => Some(millidegrees as i64),
            None => None,
        }
    } else {
        None
    }
}

/// The megabytes that a line of the memory record reports: its second word
/// is a number of kilobytes; a line without one counts as 0.
pub open spec fn meminfo_value(line: Seq<char>) -> u64 {
    let w = words(line);
    if w.len() >= 2 {
        match parse_unsigned(w[1], u64::MAX as nat) {
            Some(kilobytes) => (kilobytes / 1024) as u64,
            None => 0,
        }
    } else {
        0
    }
}

/// The value of the last line among `lines` that begins with `key`, or 0
/// where there is none.
pub open spec fn meminfo_field(lines: Seq<Seq<char>>, key: Seq<char>) -> u64
    decreases lines.len(),
{
    if lines.len() == 0 {
        0
    } else if has_prefix(lines.last(), key) {
        meminfo_value(lines.last())
    } else {
        meminfo_field(lines.drop_last(), key)
    }
}

/// The memory that the record `contents` reports.
pub open spec fn meminfo_of(contents: Seq<char>) -> MemInfo {
    MemInfo {
        total_memory: meminfo_field(lines(contents), "MemTotal:"@),
        free_memory: meminfo_field(lines(contents), "MemFree:"@),
        available_memory: meminfo_field(lines(contents), "MemAvailable:"@),
        buffers_memory: meminfo_field(lines(contents), "Buffers:"@),
        cached_memory: meminfo_field(lines(contents), "Cached:"@),
    }
}

/// The megabytes that the line `line` reports.
fn line_value(line: &Vec<char>) -> (megabytes: u64)
    ensures
        megabytes == meminfo_value(line@),
{
    let w = split_words(line);
    if w.len() >= 2 {
        assert(views(w@)[1] == w@[1]@);
        match read_unsigned(&w[1], u64::MAX) {
            Some(kilobytes) => kilobytes / 1024,
            None => 0,
        }
    } else {
        0
    }
}

impl CmdHealCheck {
    pub fn new() -> (checker: Self) {
        Self {  }
    }

    /// Reads the megabytes off one line of the memory record.
    pub fn parse_meminfo_value(line: &str) -> (megabytes: u64)
        ensures
            megabytes == meminfo_value(line@),
    {
        line_value(&chars_of(line))
    }

    /// Reads the process ids off the output of the process list command. A
    /// command that says that no process matches gives an empty list; any
    /// other failure of the command is the only error.
    pub fn get_service_pids(&self, output: &CommandOutput) -> (pids: Result<
        Vec<u32>,
        HealthError,
    >)
        ensures
            match listed_pids(*output) {
                Ok(listed) => pids is Ok && pids->Ok_0@ == listed,
                Err(e) => pids == Err::<Vec<u32>, HealthError>(e),
            },
    {
        if !output.success() {
            if output.ended_with(1) && output.stderr.as_str().is_empty() {
                return Ok(Vec::new());
            }
            return Err(HealthError::CommandFailure);
        }
        let text = chars_of(output.stdout.as_str());
        let w = split_words(&text);
        let mut pids: Vec<u32> = Vec::new();
        let mut i: usize = 0;
        while i < w.len()
            invariant
                i <= w.len(),
                views(w@) == words(output.stdout@),
                pids@ == pids_of(output.stdout@).take(i as int),
            decreases w.len() - i,
        {
            assert(views(w@)[i as int] == w@[i as int]@);
            let pid: u32 = match read_unsigned(&w[i], 0xffff_ffff) {
                Some(pid) => pid as u32,
                None => 0,
            };
            pids.push(pid);
            assert(pids@ == pids_of(output.stdout@).take(i + 1));
            i = i + 1;
        }
        assert(pids@ == pids_of(output.stdout@));
        Ok(pids)
    }

    /// Reads the user and kernel ticks off a process's scheduling record.
    /// Fails with `NotFound` where there is no record, because the process
    /// is gone, and with `ParseError` where the record is malformed.
    pub fn read_stat(&self, stat: Option<&str>) -> (ticks: Result<(u64, u64), HealthError>)
        ensures
            ticks == match stat {
                Some(record) => match stat_ticks(record@) {
                    Some(t) => Ok::<(u64, u64), HealthError>(t),
                    None => Err(HealthError::ParseError),
                },
                None => Err(HealthError::NotFound),
            },
    {
        let stat = match stat {
            Some(stat) => stat,
            None => {
                return Err(HealthError::NotFound);
            },
        };
        let text = chars_of(stat);
        let close = match find_last(&text, ')') {
            Some(close) => close,
            None => {
                return Err(HealthError::ParseError);
            },
        };
        let fields = copy_range(&text, close + 1, text.len());
        let w = split_words(&fields);
        if w.len() < 13 {
            return Err(HealthError::ParseError);
        }
        assert(views(w@)[11] == w@[11]@);
        assert(views(w@)[12] == w@[12]@);
        let user = match read_unsigned(&w[11], u64::MAX) {
            Some(user) => user,
            None => {
                return Err(HealthError::ParseError);
            },
        };
        let kernel = match read_unsigned(&w[12], u64::MAX) {
            Some(kernel) => kernel,
            None => {
                return Err(HealthError::ParseError);
            },
        };
        Ok((user, kernel))
    }

    /// Reads the host's uptime off the uptime record, in hundredths of a
    /// second.
    pub fn read_uptime(&self, record: &str) -> (uptime: Result<u64, HealthError>)
        ensures
            uptime == match uptime_of(record@) {
                Some(hundredths) => Ok::<u64, HealthError>(hundredths),
                None => Err(HealthError::ParseError),
            },
    {
        let text = chars_of(record);
        let w = split_words(&text);
        if w.len() == 0 {
            return Ok(0);
        }
        assert(views(w@)[0] == w@[0]@);
        match read_hundredths(&w[0], u64::MAX) {
            Some(hundredths) => Ok(hundredths),
            None => Err(HealthError::ParseError),
        }
    }

    /// Reads total, used and free disk space off the output of the disk
    /// command.
    pub fn cmd_get_total_used_and_free_disk_space(&self, output: &CommandOutput) -> (space:
        Result<(u64, u64, u64), HealthError>)
        ensures
            space == if !output.succeeded() {
                Err::<(u64, u64, u64), HealthError>(HealthError::CommandFailure)
            } else {
                match disk_space_of(output.stdout@) {
                    Some(s) => Ok(s),
                    None => Err(HealthError::ParseError),
                }
            },
    {
        if !output.success() {
            return Err(HealthError::CommandFailure);
        }
        let text = chars_of(output.stdout.as_str());
        let w = split_words(&text);
        if w.len() != 2 {
            return Err(HealthError::ParseError);
        }
        assert(views(w@)[0] == w@[0]@);
        assert(views(w@)[1] == w@[1]@);
        let total = match read_unsigned(&w[0], u64::MAX) {
            Some(total) => total,
            None => {
                return Err(HealthError::ParseError);
            },
        };
        let available = match read_unsigned(&w[1], u64::MAX) {
            Some(available) => available,
            None => {
                return Err(HealthError::ParseError);
            },
        };
        if available > total {
            return Err(HealthError::ParseError);
        }
        Ok((total, total - available, available))
    }

    /// Reads the CPU temperature off the thermal record, in thousandths of a
    /// degree Celsius.
    pub fn get_cpu_temperature(&self, contents: &str) -> (temperature: Result<i64, HealthError>)
        ensures
            temperature == match temperature_of(contents@) {
                Some(millidegrees) => Ok::<i64, HealthError>(millidegrees),
                None => Err(HealthError::ParseError),
            },
    {
        let text = chars_of(contents);
        let w = split_words(&text);
        if w.len() != 1 {
            return Err(HealthError::ParseError);
        }
        assert(views(w@)[0] == w@[0]@);
        match read_signed(&w[0]) {
            Some(millidegrees) => Ok(millidegrees),
            None => Err(HealthError::ParseError),
        }
    }

    /// Reads the host's memory off the memory record: for each of the five
    /// keys the last line that begins with it counts.
    pub fn parse_meminfo(&self, contents: &str) -> (info: MemInfo)
        ensures
            info == meminfo_of(contents@),
    {
        let text = chars_of(contents);
        let all = split_lines(&text);
        let total_key = chars_of("MemTotal:");
        let free_key = chars_of("MemFree:");
        let available_key = chars_of("MemAvailable:");
        let buffers_key = chars_of("Buffers:");
        let cached_key = chars_of("Cached:");
        let mut info = MemInfo {
            total_memory: 0,
            free_memory: 0,
            available_memory: 0,
            buffers_memory: 0,
            cached_memory: 0,
        };
        let mut i: usize = 0;
        while i < all.len()
            invariant
                i <= all.len(),
                total_key@ == "MemTotal:"@,
                free_key@ == "MemFree:"@,
                available_key@ == "MemAvailable:"@,
                buffers_key@ == "Buffers:"@,
                cached_key@ == "Cached:"@,
                info.total_memory == meminfo_field(views(all@).take(i as int), total_key@),
                info.free_memory == meminfo_field(views(all@).take(i as int), free_key@),
                info.available_memory == meminfo_field(
                    views(all@).take(i as int),
                    available_key@,
                ),
                info.buffers_memory == meminfo_field(views(all@).take(i as int), buffers_key@),
                info.cached_memory == meminfo_field(views(all@).take(i as int), cached_key@),
            decreases all.len() - i,
        {
            let line = &all[i];
            let value = line_value(line);
            proof {
                let seen = views(all@).take(i + 1);
                assert(seen.drop_last() == views(all@).take(i as int));
                assert(seen.last() == line@);
            }
            if starts_with(line, &total_key) {
                info.total_memory = value;
            }
            if starts_with(line, &free_key) {
                info.free_memory = value;
            }
            if starts_with(line, &available_key) {
                info.available_memory = value;
            }
            if starts_with(line, &buffers_key) {
                info.buffers_memory = value;
            }
            if starts_with(line, &cached_key) {
                info.cached_memory = value;
            }
            i = i + 1;
        }
        assert(views(all@).take(all.len() as int) == views(all@));
        info
    }
}

} // verus!
