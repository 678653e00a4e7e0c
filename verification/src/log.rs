//! Bounded record of operational log lines.

use std::collections::VecDeque;
use vstd::prelude::*;

verus! {

/// Most lines the ring keeps; the oldest line leaves when one more arrives.
pub const LOG_CAPACITY: usize = 256;

/// Severity of a log line.
#[derive(Clone, Copy, Debug, PartialEq, Eq, Structural)]
pub enum LogLevel {
    Error,
    Warn,
    Info,
}

/// One line of the operational log.
#[derive(Debug)]
pub struct LogRecord {
    /// Milliseconds since the Unix epoch at which the line was written.
    pub time: i64,
    pub level: LogLevel,
    pub msg: String,
}

/// Reads the wall clock with `chrono::Local::now` and hands the instant out as
/// milliseconds since the Unix epoch (`DateTime::timestamp_millis`). The instant
/// differs from call to call, so nothing is claimed about it.
#[verifier::external_body]
pub(crate) fn now_millis() -> (now: i64) {
    chrono::Local::now().timestamp_millis()
}

/// The mathematical value of a [`LogRecord`].
pub struct LogRecordView {
    pub time: i64,
    pub level: LogLevel,
    pub msg: Seq<char>,
}

impl View for LogRecord {
    type V = LogRecordView;

    open spec fn view(&self) -> LogRecordView {
        LogRecordView { time: self.time, level: self.level, msg: self.msg@ }
    }
}

impl LogRecord {
    /// A record with the given instant, level and text.
    pub fn at(time: i64, level: LogLevel, msg: String) -> (record: LogRecord)
        ensures
            record@ == (LogRecordView { time, level, msg: msg@ }),
    {
        LogRecord { time, level, msg }
    }

    /// A record stamped with the current local time.
    pub fn new(level: LogLevel, msg: String) -> (record: LogRecord)
        ensures
            record@.level == level,
            record@.msg == msg@,
    {
        LogRecord::at(now_millis(), level, msg)
    }
}

/// The last `n` lines of `lines`, or all of them where there are fewer.
pub open spec fn newest(lines: Seq<LogRecordView>, n: nat) -> Seq<LogRecordView> {
    if lines.len() <= n {
        lines
    } else {
        lines.skip(lines.len() - n)
    }
}

/// What the ring holds after `record` arrived: the newest lines up to the
/// capacity, the new one last.
pub open spec fn appended(lines: Seq<LogRecordView>, record: LogRecordView) -> Seq<LogRecordView> {
    newest(lines.push(record), LOG_CAPACITY as nat)
}

/// What the ring holds after every line of `arrivals` arrived in turn.
pub open spec fn appended_all(lines: Seq<LogRecordView>, arrivals: Seq<LogRecordView>) -> Seq<
    LogRecordView,
>
    decreases arrivals.len(),
{
    if arrivals.len() == 0 {
        lines
    } else {
        appended(appended_all(lines, arrivals.drop_last()), arrivals.last())
    }
}

/// Whatever arrives, the ring holds the newest lines of all that it has seen,
/// in the order of their arrival, and never more than its capacity.
pub proof fn theorem_ring_keeps_the_newest(lines: Seq<LogRecordView>, arrivals: Seq<LogRecordView>)
    requires
        lines.len() <= LOG_CAPACITY,
    ensures
        appended_all(lines, arrivals) == newest(lines + arrivals, LOG_CAPACITY as nat),
        appended_all(lines, arrivals).len() <= LOG_CAPACITY,
    decreases arrivals.len(),
{
    if arrivals.len() == 0 {
        assert(lines + arrivals =~= lines);
    } else {
        let before = arrivals.drop_last();
        theorem_ring_keeps_the_newest(lines, before);
        assert((lines + before).push(arrivals.last()) =~= lines + arrivals);
        assert(appended(newest(lines + before, LOG_CAPACITY as nat), arrivals.last()) =~= newest(
            lines + arrivals,
            LOG_CAPACITY as nat,
        ));
    }
}

/// The log: a ring of at most [`LOG_CAPACITY`] lines, oldest first. A line that
/// arrives at a full ring drives out the oldest.
#[derive(Debug)]
pub struct LogRing {
    records: VecDeque<LogRecord>,
}

impl View for LogRing {
    type V = Seq<LogRecordView>;

    closed spec fn view(&self) -> Seq<LogRecordView> {
        self.records@.map_values(|r: LogRecord| r@)
    }
}

impl LogRing {
    /// The ring holds no more than its capacity.
    pub closed spec fn wf(&self) -> bool {
        self.records@.len() <= LOG_CAPACITY
    }

    /// A well-formed ring is within its capacity.
    pub proof fn lemma_within_capacity(&self)
        requires
            self.wf(),
        ensures
            self@.len() <= LOG_CAPACITY,
    {
    }

    /// An empty ring.
    pub fn new() -> (ring: LogRing)
        ensures
            ring.wf(),
            ring@ == Seq::<LogRecordView>::empty(),
    {
        let ring = LogRing { records: VecDeque::with_capacity(LOG_CAPACITY) };
        assert(ring@ =~= Seq::<LogRecordView>::empty());
        ring
    }

    /// The number of lines held.
    pub fn len(&self) -> (n: usize)
        ensures
            n == self@.len(),
    {
        self.records.len()
    }

    /// The line at the index, counted from the oldest.
    pub fn get(&self, i: usize) -> (record: Option<&LogRecord>)
        ensures
            i >= self@.len() ==> record is None,
            i < self@.len() ==> record is Some && record->0@ == self@[i as int],
    {
        if i < self.records.len() {
            Some(&self.records[i])
        } else {
            None
        }
    }

    /// Takes a line in; the oldest leaves where the ring was full.
    pub fn push(&mut self, record: LogRecord)
        requires
            old(self).wf(),
        ensures
            final(self).wf(),
            final(self)@ == appended(old(self)@, record@),
    {
        let ghost before = self@;
        if self.records.len() >= LOG_CAPACITY {
            let _ = self.records.pop_front();
        }
        self.records.push_back(record);
        assert(self@ =~= appended(before, record@));
    }

    /// Writes a line with the current time. Of the time nothing is known; level
    /// and text are as given.
    pub fn log(&mut self, level: LogLevel, msg: String)
        requires
            old(self).wf(),
        ensures
            final(self).wf(),
            final(self)@.len() > 0,
            final(self)@.last().level == level,
            final(self)@.last().msg == msg@,
            final(self)@ == appended(old(self)@, final(self)@.last()),
    {
        self.push(LogRecord::new(level, msg));
    }
}

} // verus!
