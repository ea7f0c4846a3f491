//! Resident memory of a service: the resident set sizes that the status
//! records of its processes report, added up.

use crate::cmd_health_check::CmdHealCheck;
use crate::decimal::{parse_unsigned, read_unsigned};
use crate::error::HealthError;
use crate::text::{
    chars_of, has_prefix, lines, split_lines, split_words, starts_with, views, words,
};
use vstd::prelude::*;
use vstd::string::StringExecFns;

verus! {

/// The resident memory of a service at one moment.
#[derive(Clone, Debug, PartialEq, Eq)]
pub struct MemorySample {
    pub service: String,
    /// Resident memory of all its processes, in kilobytes.
    pub resident_kb: u64,
}

/// The kilobytes that a line of a status record reports: its second word.
/// `None` where the line has no second word or it is no number.
pub open spec fn resident_of_line(line: Seq<char>) -> Option<nat> {
    let w = words(line);
    if w.len() >= 2 {
        parse_unsigned(w[1], u64::MAX as nat)
    } else {
        None
    }
}

/// The kilobytes that the lines that begin with `VmRSS:` report, added up.
/// `None` where one of them is malformed.
pub open spec fn resident_of_lines(lines: Seq<Seq<char>>) -> Option<nat>
    decreases lines.len(),
{
    if lines.len() == 0 {
        Some(0)
    } else {
        match resident_of_lines(lines.drop_last()) {
            Some(sum) => if has_prefix(lines.last(), "VmRSS:"@) {
                match resident_of_line(lines.last()) {
                    Some(kilobytes) => Some(sum + kilobytes),
                    None => None,
                }
            } else {
                Some(sum)
            },
            None => None,
        }
    }
}

/// The resident set size that a process's status record reports, in
/// kilobytes; 0 for a record that reports none.
pub open spec fn resident_of_status(status: Seq<char>) -> Option<nat> {
    resident_of_lines(lines(status))
}

/// What one process adds to the total: nothing where its record is missing
/// or malformed.
pub open spec fn resident_share(status: Option<String>) -> nat {
    match status {
        Some(record) => match resident_of_status(record@) {
            Some(kilobytes) => kilobytes,
            None => 0,
        },
        None => 0,
    }
}

/// The resident memory of the processes whose status records are `statuses`,
/// in kilobytes.
pub open spec fn resident_total(statuses: Seq<Option<String>>) -> nat
    decreases statuses.len(),
{
    if statuses.len() == 0 {
        0
    } else {
        resident_total(statuses.drop_last()) + resident_share(statuses.last())
    }
}

/// What sampling the processes with the status records `statuses` gives:
/// their resident memory in kilobytes, `NotFound` where there is no process,
/// `OutOfRange` where the total does not fit in 64 bits.
pub open spec fn memory_sample_of(statuses: Seq<Option<String>>) -> Result<u64, HealthError> {
    if statuses.len() == 0 {
        Err(HealthError::NotFound)
    } else if resident_total(statuses) > u64::MAX {
        Err(HealthError::OutOfRange)
    } else {
        Ok(resident_total(statuses) as u64)
    }
}

/// Megabytes with one decimal place, cut off: `kilobytes / 1024` in tenths.
pub open spec fn megabytes_tenths(kilobytes: nat) -> nat {
    kilobytes * 10 / 1024
}

/// The total up to a process is at most the total over all.
proof fn lemma_resident_total_grows(statuses: Seq<Option<String>>, k: int)
    requires
        0 <= k <= statuses.len(),
    ensures
        resident_total(statuses.take(k)) <= resident_total(statuses),
    decreases statuses.len(),
{
    if k < statuses.len() {
        lemma_resident_total_grows(statuses.drop_last(), k);
        assert(statuses.drop_last().take(k) == statuses.take(k));
    } else {
        assert(statuses.take(k) == statuses);
    }
}

/// Reads the resident set size off a status record.
fn read_resident(status: &str) -> (kilobytes: Option<u128>)
    ensures
        kilobytes is Some <==> resident_of_status(status@) is Some,
        kilobytes matches Some(k) ==> resident_of_status(status@) == Some(k as nat),
{
    let text = chars_of(status);
    let all = split_lines(&text);
    let key = chars_of("VmRSS:");
    let mut sum: u128 = 0;
    let mut well_formed = true;
    let mut i: usize = 0;
    while i < all.len()
        invariant
            i <= all.len(),
            key@ == "VmRSS:"@,
            sum <= i * 0xffff_ffff_ffff_ffff,
            well_formed ==> resident_of_lines(views(all@).take(i as int)) == Some(sum as nat),
            !well_formed ==> resident_of_lines(views(all@).take(i as int)) is None,
        decreases all.len() - i,
    {
        let line = &all[i];
        proof {
            let seen = views(all@).take(i + 1);
            assert(seen.drop_last() == views(all@).take(i as int));
            assert(seen.last() == line@);
        }
        if starts_with(line, &key) {
            let w = split_words(line);
            if w.len() >= 2 {
                assert(views(w@)[1] == w@[1]@);
                match read_unsigned(&w[1], u64::MAX) {
                    Some(kilobytes) => {
                        sum = sum + kilobytes as u128;
                    },
                    None => {
                        well_formed = false;
                    },
                }
            } else {
                well_formed = false;
            }
        }
        i = i + 1;
    }
    assert(views(all@).take(all.len() as int) == views(all@));
    if well_formed {
        Some(sum)
    } else {
        None
    }
}

impl MemorySample {
    /// The sample in megabytes with one decimal place, cut off, in tenths.
    pub fn megabytes_tenths(&self) -> (tenths: u64)
        ensures
            tenths == megabytes_tenths(self.resident_kb as nat),
    {
        (self.resident_kb / 1024) * 10 + (self.resident_kb % 1024) * 10 / 1024
    }
}

impl CmdHealCheck {
    /// The resident memory of `service`, whose processes have the status
    /// records `statuses`: one entry for each process that matches, `None`
    /// where the process was gone before its record could be read. A record
    /// that is missing or malformed adds nothing.
    ///
    /// Fails with `NotFound` where no process matches, and with `OutOfRange`
    /// where the total does not fit in 64 bits. No threshold is enforced.
    pub fn cmd_check_memory_usage_mb(
        &self,
        service: &str,
        statuses: &Vec<Option<String>>,
        _threshold_mb: Option<u64>,
    ) -> (sample: Result<MemorySample, HealthError>)
        ensures
            match memory_sample_of(statuses@) {
                Ok(kilobytes) => sample is Ok && sample->Ok_0.service@ == service@
                    && sample->Ok_0.resident_kb == kilobytes,
                Err(e) => sample == Err::<MemorySample, HealthError>(e),
            },
    {
        if statuses.len() == 0 {
            return Err(HealthError::NotFound);
        }
        let mut total: u64 = 0;
        let mut i: usize = 0;
        while i < statuses.len()
            invariant
                0 < statuses.len(),
                i <= statuses.len(),
                total == resident_total(statuses@.take(i as int)),
            decreases statuses.len() - i,
        {
            proof {
                let seen = statuses@.take(i + 1);
                assert(seen.drop_last() == statuses@.take(i as int));
                assert(seen.last() == statuses@[i as int]);
                lemma_resident_total_grows(statuses@, i + 1);
            }
            let share: u128 = match &statuses[i] {
                Some(record) => match read_resident(record.as_str()) {
                    Some(kilobytes) => kilobytes,
                    None => 0,
                },
                None => 0,
            };
            if share > (u64::MAX - total) as u128 {
                return Err(HealthError::OutOfRange);
            }
            total = total + share as u64;
            i = i + 1;
        }
        assert(statuses@.take(statuses.len() as int) == statuses@);
        Ok(MemorySample { service: String::from_str(service), resident_kb: total })
    }
}

} // verus!
