//! CPU load of a service: the ticks that its processes gained between two
//! snapshots, as a percentage of the time between them.

use crate::cmd_health_check::{stat_ticks, CmdHealCheck};
use crate::error::HealthError;
use vstd::arithmetic::div_mod::{
    lemma_div_is_ordered, lemma_div_multiples_vanish, lemma_div_multiples_vanish_quotient,
    lemma_fundamental_div_mod, lemma_mod_bound,
};
use vstd::prelude::*;
use vstd::string::StringExecFns;

verus! {

/// The kernel counts CPU time in ticks of a hundredth of a second.
pub const CLOCK_TICKS_PER_SECOND: u64 = 100;

/// The CPU time that one process had used when it was read.
#[derive(Clone, Copy, Debug, PartialEq, Eq, Structural)]
pub struct ProcessSnapshot {
    pub pid: u32,
    pub user_cpu_ticks: u64,
    pub kernel_cpu_ticks: u64,
    /// The host's uptime when the process was read, in hundredths of a
    /// second.
    pub captured_at_uptime: u64,
}

impl ProcessSnapshot {
    /// User and kernel ticks together.
    pub open spec fn total_ticks(self) -> int {
        self.user_cpu_ticks + self.kernel_cpu_ticks
    }
}

/// The processes of a service that could be read at one moment, and the
/// host's uptime at that moment in hundredths of a second.
#[derive(Clone, Debug, PartialEq, Eq)]
pub struct Snapshot {
    pub processes: Vec<ProcessSnapshot>,
    pub uptime: u64,
}

/// The CPU load of a service over a window of time.
#[derive(Clone, Debug, PartialEq, Eq)]
pub struct CpuUtilizationSample {
    pub service: String,
    /// The load in tenths of a percent; above 1000 where the service keeps
    /// more than one core busy.
    pub percent_tenths: i64,
    /// The length of the window in hundredths of a second.
    pub window: u64,
}

/// `n / d` rounded towards zero, for a positive `d`.
pub open spec fn truncated_quotient(n: int, d: int) -> int {
    if n >= 0 {
        n / d
    } else {
        -((-n) / d)
    }
}

/// The load, in tenths of a percent and rounded towards zero, of processes
/// that gained `ticks` ticks during `window` hundredths of a second:
/// `100 * ticks / (clock_ticks_per_second * seconds)` percent. A window that
/// is not positive gives 0.
pub open spec fn cpu_load_tenths(ticks: int, clock_ticks_per_second: int, window: int) -> int {
    if window <= 0 {
        0
    } else {
        truncated_quotient(100_000 * ticks, clock_ticks_per_second * window)
    }
}

/// The first reading of process `pid` among `processes`.
pub open spec fn reading_of(processes: Seq<ProcessSnapshot>, pid: u32) -> Option<ProcessSnapshot>
    decreases processes.len(),
{
    if processes.len() == 0 {
        None
    } else if processes[0].pid == pid {
        Some(processes[0])
    } else {
        reading_of(processes.drop_first(), pid)
    }
}

/// The ticks that process `pid` gained from `first` to `second`; 0 where
/// either lacks it.
pub open spec fn ticks_between(
    first: Seq<ProcessSnapshot>,
    second: Seq<ProcessSnapshot>,
    pid: u32,
) -> int {
    match (reading_of(first, pid), reading_of(second, pid)) {
        (Some(a), Some(b)) => b.total_ticks() - a.total_ticks(),
        _ => 0,
    }
}

/// The ticks that the processes `pids` gained from `first` to `second`, all
/// together.
pub open spec fn ticks_delta(
    pids: Seq<u32>,
    first: Seq<ProcessSnapshot>,
    second: Seq<ProcessSnapshot>,
) -> int
    decreases pids.len(),
{
    if pids.len() == 0 {
        0
    } else {
        ticks_delta(pids.drop_last(), first, second) + ticks_between(first, second, pids.last())
    }
}

/// The part of `ticks_delta` that comes from processes whose count rose.
pub open spec fn ticks_gained(
    pids: Seq<u32>,
    first: Seq<ProcessSnapshot>,
    second: Seq<ProcessSnapshot>,
) -> int
    decreases pids.len(),
{
    if pids.len() == 0 {
        0
    } else {
        let d = ticks_between(first, second, pids.last());
        ticks_gained(pids.drop_last(), first, second) + if d > 0 {
            d
        } else {
            0
        }
    }
}

/// The part of `ticks_delta` that comes from processes whose count fell,
/// taken as a positive number.
pub open spec fn ticks_lost(
    pids: Seq<u32>,
    first: Seq<ProcessSnapshot>,
    second: Seq<ProcessSnapshot>,
) -> int
    decreases pids.len(),
{
    if pids.len() == 0 {
        0
    } else {
        let d = ticks_between(first, second, pids.last());
        ticks_lost(pids.drop_last(), first, second) + if d < 0 {
            -d
        } else {
            0
        }
    }
}

/// The readings that the scheduling records `records`, read at the uptime
/// `uptime`, give: one for each process whose record is there and well
/// formed, in order.
pub open spec fn readings_of(records: Seq<(u32, Option<String>)>, uptime: u64) -> Seq<
    ProcessSnapshot,
>
    decreases records.len(),
{
    if records.len() == 0 {
        Seq::empty()
    } else {
        let rest = readings_of(records.drop_last(), uptime);
        match records.last().1 {
            Some(stat) => match stat_ticks(stat@) {
                Some(ticks) => rest.push(
                    ProcessSnapshot {
                        pid: records.last().0,
                        user_cpu_ticks: ticks.0,
                        kernel_cpu_ticks: ticks.1,
                        captured_at_uptime: uptime,
                    },
                ),
                None => rest,
            },
            None => rest,
        }
    }
}

/// Whether the sums that `cmd_check_cpu_load` forms stay within its
/// integers: what was gained and what was lost within 127 bits each, and the
/// load within 64.
pub open spec fn load_in_range(
    pids: Seq<u32>,
    first: Seq<ProcessSnapshot>,
    second: Seq<ProcessSnapshot>,
    window: int,
) -> bool {
    &&& ticks_gained(pids, first, second) <= i128::MAX
    &&& ticks_lost(pids, first, second) <= i128::MAX
    &&& i64::MIN <= cpu_load_tenths(
        ticks_delta(pids, first, second),
        CLOCK_TICKS_PER_SECOND as int,
        window,
    ) <= i64::MAX
}

/// What was gained less what was lost is the difference, and neither is
/// negative.
pub proof fn lemma_ticks_delta_parts(
    pids: Seq<u32>,
    first: Seq<ProcessSnapshot>,
    second: Seq<ProcessSnapshot>,
)
    ensures
        ticks_delta(pids, first, second) == ticks_gained(pids, first, second) - ticks_lost(
            pids,
            first,
            second,
        ),
        ticks_gained(pids, first, second) >= 0,
        ticks_lost(pids, first, second) >= 0,
    decreases pids.len(),
{
    if pids.len() > 0 {
        lemma_ticks_delta_parts(pids.drop_last(), first, second);
    }
}

/// Processes that lost no ticks give a load that is not negative.
pub proof fn lemma_load_not_negative(ticks: int, clock_ticks_per_second: int, window: int)
    requires
        ticks >= 0,
        clock_ticks_per_second > 0,
    ensures
        cpu_load_tenths(ticks, clock_ticks_per_second, window) >= 0,
{
    if window > 0 {
        let d = clock_ticks_per_second * window;
        assert(d > 0) by (nonlinear_arith)
            requires
                clock_ticks_per_second > 0,
                window > 0,
                d == clock_ticks_per_second * window,
        ;
        lemma_fundamental_div_mod(100_000 * ticks, d);
        lemma_mod_bound(100_000 * ticks, d);
        assert((100_000 * ticks) / d >= 0) by (nonlinear_arith)
            requires
                d > 0,
                100_000 * ticks >= 0,
                100_000 * ticks == d * ((100_000 * ticks) / d) + (100_000 * ticks) % d,
                0 <= (100_000 * ticks) % d < d,
        ;
    }
}

/// A second snapshot that is not later than the first gives a load of
/// exactly 0.
pub proof fn lemma_load_of_clock_anomaly(ticks: int, clock_ticks_per_second: int, window: int)
    requires
        window <= 0,
    ensures
        cpu_load_tenths(ticks, clock_ticks_per_second, window) == 0,
{
}

/// The load is the percentage cut off after its first decimal place: for
/// processes that lost no ticks it is the largest number of tenths that is
/// not above `100 * ticks / (clock_ticks_per_second * seconds)` percent,
/// where the window is `window / 100` seconds.
pub proof fn lemma_load_is_truncated(ticks: int, clock_ticks_per_second: int, window: int)
    requires
        ticks >= 0,
        clock_ticks_per_second > 0,
        window > 0,
    ensures
        ({
            let tenths = cpu_load_tenths(ticks, clock_ticks_per_second, window);
            tenths * (clock_ticks_per_second * window) <= 100_000 * ticks < (tenths + 1) * (
            clock_ticks_per_second * window)
        }),
{
    let d = clock_ticks_per_second * window;
    let n = 100_000 * ticks;
    assert(d > 0) by (nonlinear_arith)
        requires
            clock_ticks_per_second > 0,
            window > 0,
            d == clock_ticks_per_second * window,
    ;
    lemma_fundamental_div_mod(n, d);
    lemma_mod_bound(n, d);
    assert((n / d) * d <= n < (n / d + 1) * d) by (nonlinear_arith)
        requires
            d > 0,
            n == d * (n / d) + n % d,
            0 <= n % d < d,
    ;
}

/// The load in tenths of a percent, where it fits in 64 bits.
pub open spec fn load_of(ticks: int, window: int) -> Option<i64> {
    let tenths = cpu_load_tenths(ticks, CLOCK_TICKS_PER_SECOND as int, window);
    if i64::MIN <= tenths <= i64::MAX {
        Some(tenths as i64)
    } else {
        None
    }
}

/// The time from the first snapshot to the second in hundredths of a second;
/// 0 where the second is not later.
pub open spec fn window_of(first: &Snapshot, second: &Snapshot) -> int {
    if second.uptime > first.uptime {
        second.uptime - first.uptime
    } else {
        0
    }
}

/// What sampling the processes `pids` over two snapshots gives: the load in
/// tenths of a percent, `NotFound` where there is no process, `OutOfRange`
/// where the window is positive and a sum leaves its integer.
pub open spec fn load_sample_of(pids: Seq<u32>, first: &Snapshot, second: &Snapshot) -> Result<
    i64,
    HealthError,
> {
    if pids.len() == 0 {
        Err(HealthError::NotFound)
    } else if second.uptime > first.uptime && !load_in_range(
        pids,
        first.processes@,
        second.processes@,
        second.uptime - first.uptime,
    ) {
        Err(HealthError::OutOfRange)
    } else {
        Ok(
            cpu_load_tenths(
                ticks_delta(pids, first.processes@, second.processes@),
                CLOCK_TICKS_PER_SECOND as int,
                second.uptime - first.uptime,
            ) as i64,
        )
    }
}

/// Between snapshots of which the second is later, processes of which none
/// lost ticks have a load that is not negative.
pub proof fn lemma_sample_not_negative(pids: Seq<u32>, first: &Snapshot, second: &Snapshot)
    requires
        second.uptime > first.uptime,
        forall|i: int|
            0 <= i < pids.len() ==> ticks_between(
                first.processes@,
                second.processes@,
                #[trigger] pids[i],
            ) >= 0,
    ensures
        ticks_delta(pids, first.processes@, second.processes@) >= 0,
        load_sample_of(pids, first, second) matches Ok(tenths) ==> tenths >= 0,
    decreases pids.len(),
{
    if pids.len() > 0 {
        lemma_sample_not_negative(pids.drop_last(), first, second);
        assert(pids.last() == pids[pids.len() - 1]);
    }
    lemma_load_not_negative(
        ticks_delta(pids, first.processes@, second.processes@),
        CLOCK_TICKS_PER_SECOND as int,
        second.uptime - first.uptime,
    );
}

/// Between snapshots of which the second is not later than the first, the
/// load of any processes is exactly 0.
pub proof fn lemma_sample_of_clock_anomaly(pids: Seq<u32>, first: &Snapshot, second: &Snapshot)
    requires
        second.uptime <= first.uptime,
    ensures
        pids.len() > 0 ==> load_sample_of(pids, first, second) == Ok::<i64, HealthError>(0),
        load_sample_of(pids, first, second) matches Ok(tenths) ==> tenths == 0,
{
}

/// Looks up the first reading of process `pid`.
fn find_reading(processes: &Vec<ProcessSnapshot>, pid: u32) -> (found: Option<ProcessSnapshot>)
    ensures
        found == reading_of(processes@, pid),
{
    let mut i: usize = 0;
    assert(processes@.skip(0) == processes@);
    while i < processes.len()
        invariant
            i <= processes.len(),
            reading_of(processes@, pid) == reading_of(processes@.skip(i as int), pid),
        decreases processes.len() - i,
    {
        if processes[i].pid == pid {
            return Some(processes[i]);
        }
        assert(processes@.skip(i as int).drop_first() == processes@.skip(i + 1));
        i = i + 1;
    }
    None
}

impl CmdHealCheck {
    /// The load of processes that gained `ticks` ticks between two readings
    /// of the host's uptime, in tenths of a percent; `None` where that does
    /// not fit in 64 bits. Where the second uptime is not later than the
    /// first the load is 0.
    pub fn calculate_cpu_usage(&self, ticks: i128, first_uptime: u64, second_uptime: u64) -> (load:
        Option<i64>)
        ensures
            load == load_of(ticks as int, second_uptime - first_uptime),
    {
        if second_uptime <= first_uptime {
            return Some(0);
        }
        let window: u64 = second_uptime - first_uptime;
        let size: u128 = if ticks < 0 {
            (-(ticks + 1)) as u128 + 1
        } else {
            ticks as u128
        };
        let ghost exact: int = (100_000 * size) / (CLOCK_TICKS_PER_SECOND * window);
        proof {
            lemma_div_multiples_vanish_quotient(100, 1000 * size, window as int);
            assert(exact == (1000 * size) / (window as int));
            assert(cpu_load_tenths(ticks as int, CLOCK_TICKS_PER_SECOND as int, window as int)
                == if ticks >= 0 {
                exact
            } else {
                -exact
            });
        }
        match size.checked_mul(1000) {
            None => {
                proof {
                    let most: int = 0x1_0000_0000_0000_0000 * window;
                    lemma_div_is_ordered(most, 1000 * size, window as int);
                    lemma_div_multiples_vanish(0x1_0000_0000_0000_0000, window as int);
                    assert(most == window * 0x1_0000_0000_0000_0000);
                    assert(exact >= 0x1_0000_0000_0000_0000);
                }
                None
            },
            Some(scaled) => {
                let quotient: u128 = scaled / (window as u128);
                if ticks >= 0 {
                    if quotient > 0x7fff_ffff_ffff_ffff {
                        None
                    } else {
                        Some(quotient as i64)
                    }
                } else if quotient > 0x8000_0000_0000_0000 {
                    None
                } else if quotient == 0x8000_0000_0000_0000 {
                    Some(i64::MIN)
                } else {
                    Some(-(quotient as i64))
                }
            },
        }
    }

    /// Puts a snapshot together from the scheduling records of a service's
    /// processes and the uptime record. A process whose record is missing or
    /// malformed is left out; a malformed uptime record is the only error.
    pub fn take_snapshot(&self, records: &Vec<(u32, Option<String>)>, uptime: &str) -> (snapshot:
        Result<Snapshot, HealthError>)
        ensures
            match crate::cmd_health_check::uptime_of(uptime@) {
                Some(hundredths) => snapshot is Ok && snapshot->Ok_0.uptime == hundredths
                    && snapshot->Ok_0.processes@ == readings_of(records@, hundredths),
                None => snapshot == Err::<Snapshot, HealthError>(HealthError::ParseError),
            },
    {
        let uptime = match self.read_uptime(uptime) {
            Ok(uptime) => uptime,
            Err(e) => {
                return Err(e);
            },
        };
        let mut processes: Vec<ProcessSnapshot> = Vec::new();
        let mut i: usize = 0;
        while i < records.len()
            invariant
                i <= records.len(),
                processes@ == readings_of(records@.take(i as int), uptime),
            decreases records.len() - i,
        {
            assert(records@.take(i + 1).drop_last() == records@.take(i as int));
            assert(records@.take(i + 1).last() == records@[i as int]);
            let stat = match &records[i].1 {
                Some(stat) => Some(stat.as_str()),
                None => None,
            };
            match self.read_stat(stat) {
                Ok(ticks) => {
                    processes.push(
                        ProcessSnapshot {
                            pid: records[i].0,
                            user_cpu_ticks: ticks.0,
                            kernel_cpu_ticks: ticks.1,
                            captured_at_uptime: uptime,
                        },
                    );
                },
                Err(_) => {},
            }
            i = i + 1;
        }
        assert(records@.take(records.len() as int) == records@);
        Ok(Snapshot { processes, uptime })
    }

    /// The CPU load of `service` between two snapshots of the processes
    /// `pids`: the ticks that the processes found in both gained, as a
    /// percentage of the time between the snapshots, cut off after the first
    /// decimal place.
    ///
    /// Fails with `NotFound` where `pids` is empty, and with `OutOfRange`
    /// where the window is positive and a sum leaves its integer. No
    /// threshold is enforced.
    pub fn cmd_check_cpu_load(
        &self,
        service: &str,
        pids: &Vec<u32>,
        first: &Snapshot,
        second: &Snapshot,
        _threshold: Option<i64>,
    ) -> (sample: Result<CpuUtilizationSample, HealthError>)
        ensures
            match load_sample_of(pids@, first, second) {
                Ok(tenths) => sample is Ok && sample->Ok_0.service@ == service@
                    && sample->Ok_0.percent_tenths == tenths && sample->Ok_0.window
                    == window_of(first, second),
                Err(e) => sample == Err::<CpuUtilizationSample, HealthError>(e),
            },
            sample matches Ok(s) ==> (second.uptime <= first.uptime ==> s.percent_tenths == 0) && (
            ticks_delta(pids@, first.processes@, second.processes@) >= 0 ==> s.percent_tenths
                >= 0),
    {
        if pids.len() == 0 {
            return Err(HealthError::NotFound);
        }
        if second.uptime <= first.uptime {
            return Ok(
                CpuUtilizationSample {
                    service: String::from_str(service),
                    percent_tenths: 0,
                    window: 0,
                },
            );
        }
        let mut gained: i128 = 0;
        let mut lost: i128 = 0;
        let mut i: usize = 0;
        while i < pids.len()
            invariant
                0 < pids.len(),
                i <= pids.len(),
                second.uptime > first.uptime,
                gained == ticks_gained(pids@.take(i as int), first.processes@, second.processes@),
                lost == ticks_lost(pids@.take(i as int), first.processes@, second.processes@),
            decreases pids.len() - i,
        {
            let pid = pids[i];
            let ghost seen = pids@.take(i + 1);
            proof {
                assert(seen.drop_last() == pids@.take(i as int));
                assert(seen.last() == pid);
                lemma_ticks_delta_parts(pids@.take(i as int), first.processes@, second.processes@);
                lemma_parts_grow(pids@, i + 1, first.processes@, second.processes@);
            }
            match (find_reading(&first.processes, pid), find_reading(&second.processes, pid)) {
                (Some(a), Some(b)) => {
                    let before: i128 = a.user_cpu_ticks as i128 + a.kernel_cpu_ticks as i128;
                    let after: i128 = b.user_cpu_ticks as i128 + b.kernel_cpu_ticks as i128;
                    if after >= before {
                        match gained.checked_add(after - before) {
                            Some(sum) => {
                                gained = sum;
                            },
                            None => {
                                return Err(HealthError::OutOfRange);
                            },
                        }
                    } else {
                        match lost.checked_add(before - after) {
                            Some(sum) => {
                                lost = sum;
                            },
                            None => {
                                return Err(HealthError::OutOfRange);
                            },
                        }
                    }
                },
                _ => {},
            }
            i = i + 1;
        }
        proof {
            assert(pids@.take(pids.len() as int) == pids@);
            lemma_ticks_delta_parts(pids@, first.processes@, second.processes@);
            if ticks_delta(pids@, first.processes@, second.processes@) >= 0 {
                lemma_load_not_negative(
                    ticks_delta(pids@, first.processes@, second.processes@),
                    CLOCK_TICKS_PER_SECOND as int,
                    second.uptime - first.uptime,
                );
            }
        }
        match self.calculate_cpu_usage(gained - lost, first.uptime, second.uptime) {
            Some(percent_tenths) => Ok(
                CpuUtilizationSample {
                    service: String::from_str(service),
                    percent_tenths,
                    window: second.uptime - first.uptime,
                },
            ),
            None => Err(HealthError::OutOfRange),
        }
    }
}

/// What was gained and what was lost up to a process are at most what they
/// are over all processes.
proof fn lemma_parts_grow(
    pids: Seq<u32>,
    k: int,
    first: Seq<ProcessSnapshot>,
    second: Seq<ProcessSnapshot>,
)
    requires
        0 <= k <= pids.len(),
    ensures
        ticks_gained(pids.take(k), first, second) <= ticks_gained(pids, first, second),
        ticks_lost(pids.take(k), first, second) <= ticks_lost(pids, first, second),
    decreases pids.len(),
{
    if k < pids.len() {
        lemma_parts_grow(pids.drop_last(), k, first, second);
        assert(pids.drop_last().take(k) == pids.take(k));
    } else {
        assert(pids.take(k) == pids);
    }
}

} // verus!
