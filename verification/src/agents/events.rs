//! The bounded, append-only report log agents write their summaries into.

use vstd::prelude::*;

use crate::agents::astro_agent::AstroAgentKind;

verus! {

/// Default capacity a log adopts on its first push when none was configured.
pub const REPORT_LOG_DEFAULT_CAP: usize = 128;

/// One change summary: the galaxy's aggregate statistics at the tick the
/// change was noticed.
#[derive(Clone, Copy, Debug, PartialEq, Eq)]
pub struct AstroReport {
    pub tick: u64,
    pub agent_id: u32,
    pub agent_kind: AstroAgentKind,
    /// The galaxy's total mass when the report was made.
    pub galaxy_mass: i64,
    /// Absolute mass change against the previous sample.
    pub mass_change: i64,
    /// Stars counted within the galaxy's radius.
    pub star_count: u32,
    /// Black holes counted within the galaxy's radius.
    pub black_hole_count: u32,
}

/// A log trimmed to its capacity, oldest reports dropped first.
pub open spec fn trim_log(s: Seq<AstroReport>, max: int) -> Seq<AstroReport> {
    if s.len() <= max {
        s
    } else {
        s.skip(s.len() - max)
    }
}

/// One push into a bounded log: an unconfigured capacity becomes the default,
/// the report is appended, and the oldest entries beyond the capacity drop.
pub open spec fn log_push(log: Seq<AstroReport>, max: int, rep: AstroReport) -> (
    Seq<AstroReport>,
    int,
) {
    let cap = if max == 0 {
        REPORT_LOG_DEFAULT_CAP as int
    } else {
        max
    };
    (trim_log(log.push(rep), cap), cap)
}

/// Capacity-limited ring of reports: oldest entries are dropped once the
/// configured maximum is exceeded.
#[derive(Clone, Debug)]
pub struct AstroReportLog {
    pub reports: Vec<AstroReport>,
    pub max_reports: usize,
}

impl Default for AstroReportLog {
    fn default() -> (log: Self)
        ensures
            log.reports@ == Seq::<AstroReport>::empty(),
            log.max_reports == 0,
    {
        AstroReportLog { reports: Vec::new(), max_reports: 0 }
    }
}

impl AstroReportLog {
    /// Append a report, adopting the default capacity if none is configured
    /// and evicting the oldest entries beyond the capacity.
    pub fn push(&mut self, report: AstroReport)
        ensures
            final(self).reports@ == log_push(
                old(self).reports@,
                old(self).max_reports as int,
                report,
            ).0,
            final(self).max_reports as int == log_push(
                old(self).reports@,
                old(self).max_reports as int,
                report,
            ).1,
    {
        if self.max_reports == 0 {
            self.max_reports = REPORT_LOG_DEFAULT_CAP;
        }
        let ghost pushed = self.reports@.push(report);
        let ghost cap = self.max_reports as int;
        self.reports.push(report);
        while self.reports.len() > self.max_reports
            invariant
                self.max_reports as int == cap,
                trim_log(self.reports@, cap) == trim_log(pushed, cap),
            decreases self.reports@.len(),
        {
            let ghost before = self.reports@;
            self.reports.remove(0);
            proof {
                assert(self.reports@ =~= before.skip(1));
                assert(trim_log(before.skip(1), cap) =~= trim_log(before, cap));
            }
        }
    }
}

} // verus!
