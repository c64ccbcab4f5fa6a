//! Decision state of the live reporter: the cadence mode switched by inbound
//! control messages, and the sleep duration read at the top of every cycle.
//! The background task itself (socket, timer, cancellation handle) lives
//! outside the core and consults this state each cycle, so a mode change is
//! observed on the next cycle boundary, never mid-sleep.

use crate::monitoring_data::MonitoringData;
use vstd::prelude::*;

verus! {

/// Cadence modes of the live reporter: a fixed 1 s cadence, or the
/// configurable interval cadence.
#[derive(Copy, Clone, Debug, PartialEq, Eq, Structural)]
pub enum ReportMode {
    Realtime,
    Interval,
}

/// Control calls the transport layer makes on the reporter task.
#[derive(Debug)]
pub enum Call {
    Start,
}

/// The outbound envelope of one report cycle.
#[derive(Clone, Debug, PartialEq)]
pub struct EventModel {
    pub event: String,
    pub data: MonitoringData,
}

/// The mode after one inbound plain-text control message: "realtime" and
/// "interval" switch the mode, anything else leaves it unchanged.
pub open spec fn spec_mode_after(m: ReportMode, text: Seq<char>) -> ReportMode {
    if text == "realtime"@ {
        ReportMode::Realtime
    } else if text == "interval"@ {
        ReportMode::Interval
    } else {
        m
    }
}

/// The sleep duration of the next cycle, in seconds: one second in realtime
/// mode, the configured interval otherwise.
pub open spec fn spec_cadence(mode: ReportMode, interval_secs: u64) -> u64 {
    if mode == ReportMode::Realtime {
        1
    } else {
        interval_secs
    }
}

/// Decision state of the live reporter.
pub struct Reporter {
    mode: ReportMode,
    interval_secs: u64,
}

impl Reporter {
    pub closed spec fn spec_mode(self) -> ReportMode {
        self.mode
    }

    pub closed spec fn spec_interval(self) -> u64 {
        self.interval_secs
    }

    /// Fresh reporter state: interval mode, with the supplied interval or the
    /// default of 60 seconds.
    pub fn new(interval_secs: Option<u64>) -> (r: Reporter)
        ensures
            r.spec_mode() == ReportMode::Interval,
            r.spec_interval() == (match interval_secs {
                Some(s) => s,
                None => 60u64,
            }),
    {
        Reporter {
            mode: ReportMode::Interval,
            interval_secs: match interval_secs {
                Some(s) => s,
                None => 60,
            },
        }
    }

    pub fn set_mode(&mut self, mode: ReportMode)
        ensures
            final(self).spec_mode() == mode,
            final(self).spec_interval() == old(self).spec_interval(),
    {
        self.mode = mode;
    }

    pub fn set_interval(&mut self, interval_secs: u64)
        ensures
            final(self).spec_mode() == old(self).spec_mode(),
            final(self).spec_interval() == interval_secs,
    {
        self.interval_secs = interval_secs;
    }

    /// Applies one inbound control message from the remote peer.
    pub fn on_text(&mut self, text: &str)
        ensures
            final(self).spec_mode() == spec_mode_after(old(self).spec_mode(), text@),
            final(self).spec_interval() == old(self).spec_interval(),
    {
        let t: String = text.to_owned();
        let rt: String = "realtime".to_owned();
        let iv: String = "interval".to_owned();
        if t == rt {
            self.mode = ReportMode::Realtime;
        } else if t == iv {
            self.mode = ReportMode::Interval;
        }
    }

    /// The sleep duration for the next cycle, re-read at the start of every
    /// cycle so that a mode change takes effect on the next cycle boundary.
    pub fn sleep_secs(&self) -> (s: u64)
        ensures
            s == spec_cadence(self.spec_mode(), self.spec_interval()),
    {
        if self.mode == ReportMode::Realtime {
            1
        } else {
            self.interval_secs
        }
    }
}

/// Builds the outbound envelope around one snapshot-derived payload.
pub fn report_event(data: MonitoringData) -> (e: EventModel)
    ensures
        e.event@ == "report"@,
        e.data == data,
{
    EventModel { event: "report".to_owned(), data }
}

/// Law (cadence switch): whatever the current mode, after the control message
/// "realtime" the next cycle sleeps exactly one second, and after "interval"
/// it sleeps exactly the configured interval.
pub proof fn lemma_cadence_switch(mode: ReportMode, interval_secs: u64)
    ensures
        spec_cadence(spec_mode_after(mode, "realtime"@), interval_secs) == 1,
        spec_cadence(spec_mode_after(mode, "interval"@), interval_secs) == interval_secs,
{
    reveal_strlit("realtime");
    reveal_strlit("interval");
    assert("realtime"@[0] == 'r' && "interval"@[0] == 'i');
}

} // verus!
