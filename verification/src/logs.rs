//! The daemon's own recent events, kept for support.

use std::collections::VecDeque;

use vstd::prelude::*;

use crate::snapshot::{DaemonLogEntry, DaemonLogLevel};

verus! {

/// Events kept by default.
pub const DEFAULT_DAEMON_LOG_CAPACITY: usize = 64;

/// Events shown by default.
pub const DEFAULT_DAEMON_LOGS_TAIL_LIMIT: usize = 25;

/// One event.
pub struct LogModel {
    pub sequence: u64,
    pub level: DaemonLogLevel,
    pub event: Seq<char>,
    pub message: Seq<char>,
}

/// What an entry says.
pub open spec fn entry_model(entry: DaemonLogEntry) -> LogModel {
    LogModel {
        sequence: entry.sequence,
        level: entry.level,
        event: entry.event@,
        message: entry.message@,
    }
}

/// What entries say.
pub open spec fn entry_models(entries: Seq<DaemonLogEntry>) -> Seq<LogModel> {
    entries.map_values(|entry: DaemonLogEntry| entry_model(entry))
}

/// What a buffer holds: its events, oldest first, the number of the next event and how many it keeps.
pub struct LogBufferModel {
    pub entries: Seq<LogModel>,
    pub next_sequence: u64,
    pub capacity: nat,
}

/// The newest so many items.
pub open spec fn newest<A>(items: Seq<A>, count: nat) -> Seq<A> {
    if count < items.len() {
        items.subrange(items.len() - count, items.len() as int)
    } else {
        items
    }
}

/// The smaller of two counts.
pub open spec fn smaller(a: nat, b: nat) -> nat {
    if a < b {
        a
    } else {
        b
    }
}

impl LogBufferModel {
    /// Whether the buffer keeps no more than it may.
    pub open spec fn wf(self) -> bool {
        self.entries.len() <= self.capacity
    }

    /// The buffer after one more event: the oldest makes room where the buffer is full.
    pub open spec fn recorded(self, level: DaemonLogLevel, event: Seq<char>, message: Seq<char>) -> Self {
        if self.capacity == 0 {
            self
        } else {
            let kept = if self.entries.len() == self.capacity {
                self.entries.drop_first()
            } else {
                self.entries
            };
            LogBufferModel {
                entries: kept.push(
                    LogModel { sequence: self.next_sequence, level, event, message },
                ),
                next_sequence: if self.next_sequence == u64::MAX {
                    u64::MAX
                } else {
                    (self.next_sequence + 1) as u64
                },
                capacity: self.capacity,
            }
        }
    }

    /// The newest events, oldest first.
    pub open spec fn tail(self, limit: nat) -> Seq<LogModel> {
        newest(self.entries, smaller(limit, self.capacity))
    }
}

/// A bounded list of events. Every event is one of the daemon's own fixed texts, never a value that
/// a user or a peer supplied.
#[derive(Debug)]
pub struct DaemonLogBuffer {
    entries: VecDeque<DaemonLogEntry>,
    next_sequence: u64,
    capacity: usize,
}

impl View for DaemonLogBuffer {
    type V = LogBufferModel;

    closed spec fn view(&self) -> LogBufferModel {
        LogBufferModel {
            entries: entry_models(self.entries@),
            next_sequence: self.next_sequence,
            capacity: self.capacity as nat,
        }
    }
}

impl DaemonLogBuffer {
    /// An empty buffer.
    pub fn new(capacity: usize) -> (result: Self)
        ensures
            result@ == (LogBufferModel {
                entries: Seq::empty(),
                next_sequence: 1,
                capacity: capacity as nat,
            }),
    {
        let result = DaemonLogBuffer { entries: VecDeque::new(), next_sequence: 1, capacity };
        proof {
            assert(result@.entries =~= Seq::empty());
        }
        result
    }

    /// Add an event.
    pub fn record(&mut self, level: DaemonLogLevel, event: &str, message: &str)
        ensures
            final(self)@ == old(self)@.recorded(level, event@, message@),
    {
        if self.capacity == 0 {
            return;
        }
        if self.entries.len() == self.capacity {
            let _ = self.entries.pop_front();
        }
        let ghost kept = self.entries@;
        self.entries.push_back(
            DaemonLogEntry {
                sequence: self.next_sequence,
                level,
                event: event.to_owned(),
                message: message.to_owned(),
            },
        );
        if self.next_sequence < u64::MAX {
            self.next_sequence = self.next_sequence + 1;
        }
        proof {
            let before = entry_models(old(self).entries@);
            assert(entry_models(kept) =~= (if before.len() == old(self).capacity {
                before.drop_first()
            } else {
                before
            }));
            assert(self@.entries =~= old(self)@.recorded(level, event@, message@).entries);
        }
    }

    /// The newest events, oldest first.
    pub fn tail(&self, limit: usize) -> (result: Vec<DaemonLogEntry>)
        ensures
            entry_models(result@) == self@.tail(limit as nat),
    {
        let limit: usize = if limit < self.capacity {
            limit
        } else {
            self.capacity
        };
        let count: usize = self.entries.len();
        let start: usize = if limit < count {
            count - limit
        } else {
            0
        };
        let mut result: Vec<DaemonLogEntry> = Vec::new();
        let mut i: usize = start;
        while i < count
            invariant
                start <= i <= count,
                count == self.entries@.len(),
                result@ =~= self.entries@.subrange(start as int, i as int),
            decreases count - i,
        {
            result.push(self.entries[i].clone());
            i = i + 1;
        }
        proof {
            assert(entry_models(result@) =~= newest(self@.entries, limit as nat));
        }
        result
    }
}

/// Add an event, where there is a buffer to add it to.
pub open spec fn logged(
    before: Option<DaemonLogBuffer>,
    level: DaemonLogLevel,
    event: Seq<char>,
    message: Seq<char>,
    after: Option<DaemonLogBuffer>,
) -> bool {
    match before {
        None => after is None,
        Some(buffer) => after is Some && after->Some_0@ == buffer@.recorded(level, event, message),
    }
}

/// Add an event, where there is a buffer to add it to.
pub fn record_daemon_event(
    logs: &mut Option<DaemonLogBuffer>,
    level: DaemonLogLevel,
    event: &'static str,
    message: &'static str,
)
    ensures
        logged(*old(logs), level, event@, message@, *final(logs)),
{
    match logs.take() {
        None => {},
        Some(buffer) => {
            let mut buffer = buffer;
            buffer.record(level, event, message);
            *logs = Some(buffer);
        },
    }
}

/// The newest events, where there is a buffer.
pub open spec fn log_tail(logs: Option<DaemonLogBuffer>, requested: Option<usize>) -> Seq<LogModel> {
    match logs {
        None => Seq::empty(),
        Some(buffer) => buffer@.tail(
            match requested {
                Some(limit) => limit as nat,
                None => DEFAULT_DAEMON_LOGS_TAIL_LIMIT as nat,
            },
        ),
    }
}

/// The newest events, where there is a buffer.
pub fn daemon_log_tail(logs: &Option<DaemonLogBuffer>, requested_limit: Option<usize>) -> (result:
    Vec<DaemonLogEntry>)
    ensures
        entry_models(result@) == log_tail(*logs, requested_limit),
{
    match logs {
        None => {
            let result: Vec<DaemonLogEntry> = Vec::new();
            proof {
                assert(entry_models(result@) =~= Seq::empty());
            }
            result
        },
        Some(buffer) => buffer.tail(
            match requested_limit {
                Some(limit) => limit,
                None => DEFAULT_DAEMON_LOGS_TAIL_LIMIT,
            },
        ),
    }
}

/// A buffer never keeps more events than it may, keeps the newest ones, and shows no more than it was
/// asked for.
pub proof fn log_stays_bounded(
    buffer: LogBufferModel,
    level: DaemonLogLevel,
    event: Seq<char>,
    message: Seq<char>,
    limit: nat,
)
    requires
        buffer.wf(),
    ensures
        buffer.recorded(level, event, message).wf(),
        buffer.tail(limit).len() <= limit,
        buffer.capacity > 0 ==> buffer.recorded(level, event, message).entries.last() == (LogModel {
            sequence: buffer.next_sequence,
            level,
            event,
            message,
        }),
{
}

/// Whether the events of a buffer are numbered one after the other, up to the next number.
pub open spec fn numbered(buffer: LogBufferModel) -> bool {
    &&& buffer.entries.len() < buffer.next_sequence
    &&& forall|i: int|
        0 <= i < buffer.entries.len() ==> (#[trigger] buffer.entries[i]).sequence
            == buffer.next_sequence - buffer.entries.len() + i
}

/// Events are numbered without gaps, starting with one, as long as numbers last.
pub proof fn log_numbers_have_no_gaps(
    buffer: LogBufferModel,
    level: DaemonLogLevel,
    event: Seq<char>,
    message: Seq<char>,
)
    requires
        numbered(buffer),
        buffer.next_sequence < u64::MAX,
    ensures
        numbered(buffer.recorded(level, event, message)),
        numbered(
            LogBufferModel { entries: Seq::empty(), next_sequence: 1, capacity: buffer.capacity },
        ),
{
}

/// Whether an event and its message are texts of the daemon's own about a request.
pub open spec fn is_request_text(event: Seq<char>, message: Seq<char>) -> bool {
    ||| event == "daemon.status"@ && message == "Daemon status requested."@
    ||| event == "permissions.probe"@ && message == "Permissions probe requested."@
    ||| event == "permissions.probe.failed"@ && message == "Permissions probe failed."@
    ||| event == "diagnostics.screenTopology"@ && message
        == "Screen topology diagnostics requested."@
    ||| event == "diagnostics.screenTopology.failed"@ && message
        == "Screen topology diagnostics failed."@
    ||| event == "diagnostics.keyboardLayout"@ && message
        == "Keyboard layout diagnostics requested."@
    ||| event == "diagnostics.keyboardLayout.failed"@ && message
        == "Keyboard layout diagnostics failed."@
    ||| event == "daemon.logs.tail"@ && message == "Daemon logs tail requested."@
    ||| event == "daemon.shutdown"@ && message == "Daemon shutdown requested."@
    ||| event == "daemon.shutdown.failed"@ && message == "Daemon shutdown failed."@
    ||| event == "input.releaseAll"@ && message == "Input release requested."@
    ||| event == "input.releaseAll.failed"@ && message == "Input release failed."@
    ||| event == "session.connect"@ && message == "Peer session connect requested."@
    ||| event == "session.connect.failed"@ && message == "Peer session connect failed."@
    ||| event == "session.discoveryCandidates"@ && message
        == "Peer session discovery candidates requested."@
    ||| event == "session.disconnect"@ && message == "Peer session disconnect requested."@
    ||| event == "session.disconnect.failed"@ && message == "Peer session disconnect failed."@
}

/// Whether an event and its message are texts of the daemon's own about captured input.
pub open spec fn is_capture_text(event: Seq<char>, message: Seq<char>) -> bool {
    ||| event == "input.capture.idle"@ && message
        == "Input capture made no progress before the watchdog timeout."@
    ||| event == "input.capture.layoutProbe.failed"@ && message
        == "Input capture screen layout probe failed."@
    ||| event == "input.capture.permissionProbe.failed"@ && message
        == "Input capture permission probe failed."@
    ||| exists|interrupt: crate::recovery::RuntimeRecoveryInterrupt|
        event == #[trigger] interrupt.success_event() && message == interrupt.success_text()
}

/// Whether a log holds nothing but texts of the daemon's own.
pub open spec fn tells_own_texts(logs: Option<DaemonLogBuffer>) -> bool {
    logs matches Some(buffer) ==> forall|i: int|
        0 <= i < buffer@.entries.len() ==> is_request_text(
            (#[trigger] buffer@.entries[i]).event,
            buffer@.entries[i].message,
        ) || is_capture_text(buffer@.entries[i].event, buffer@.entries[i].message)
}

/// A log that one more text of the daemon's own was added to holds nothing else, where it held nothing
/// else before.
pub proof fn lemma_own_text_logged(
    before: Option<DaemonLogBuffer>,
    level: DaemonLogLevel,
    event: Seq<char>,
    message: Seq<char>,
    after: Option<DaemonLogBuffer>,
)
    requires
        logged(before, level, event, message, after),
        is_request_text(event, message) || is_capture_text(event, message),
        tells_own_texts(before),
    ensures
        tells_own_texts(after),
{
    if before is Some {
        let kept = before->Some_0@;
        let told = after->Some_0@;
        assert forall|i: int| 0 <= i < told.entries.len() implies is_request_text(
            (#[trigger] told.entries[i]).event,
            told.entries[i].message,
        ) || is_capture_text(told.entries[i].event, told.entries[i].message) by {
            if kept.capacity == 0 {
                assert(told.entries[i] == kept.entries[i]);
            } else if i < told.entries.len() - 1 {
                if kept.entries.len() == kept.capacity {
                    assert(told.entries[i] == kept.entries[i + 1]);
                } else {
                    assert(told.entries[i] == kept.entries[i]);
                }
            }
        }
    }
}

/// Whether an event is the newest of a log: it has the number that was next, and the events before it
/// are the newest of those that the log held. Where there is no log, nothing is noted.
pub open spec fn is_noted(
    before: Option<DaemonLogBuffer>,
    level: DaemonLogLevel,
    event: Seq<char>,
    message: Seq<char>,
    after: Option<DaemonLogBuffer>,
) -> bool {
    match (before, after) {
        (None, None) => true,
        (Some(before), Some(after)) => {
            &&& after@.capacity == before@.capacity
            &&& before@.capacity > 0 ==> {
                let held = after@.entries;
                &&& held.len() > 0
                &&& held.last().sequence == before@.next_sequence
                &&& held.last().level == level
                &&& held.last().event == event
                &&& held.last().message == message
                &&& before@.next_sequence < u64::MAX ==> after@.next_sequence
                    == before@.next_sequence + 1
            }
            &&& before@.capacity == 0 ==> after@.entries == before@.entries
        },
        _ => false,
    }
}

/// An event that is recorded is the newest one. The others stay as they were and in their order, and
/// only where the log is full does the oldest make room.
pub proof fn a_recorded_event_is_the_newest(
    buffer: &mut DaemonLogBuffer,
    level: DaemonLogLevel,
    event: &str,
    message: &str,
)
    requires
        call_ensures(DaemonLogBuffer::record, (buffer, level, event, message), ()),
        old(buffer)@.wf(),
    ensures
        is_noted(Some(*old(buffer)), level, event@, message@, Some(*final(buffer))),
        old(buffer)@.entries.len() < old(buffer)@.capacity ==> final(buffer)@.entries.len()
            == old(buffer)@.entries.len() + 1,
        old(buffer)@.entries.len() == old(buffer)@.capacity ==> final(buffer)@.entries.len()
            == old(buffer)@.entries.len(),
        old(buffer)@.capacity > 0 ==> {
            let held = final(buffer)@.entries;
            let gone = old(buffer)@.entries.len() + 1 - held.len();
            forall|i: int|
                0 <= i < held.len() - 1 ==> #[trigger] held[i] == old(buffer)@.entries[i + gone]
        },
{
}

/// What the daemon notes goes into its log, where it has one.
pub proof fn the_daemon_notes_events(
    logs: &mut Option<DaemonLogBuffer>,
    level: DaemonLogLevel,
    event: &'static str,
    message: &'static str,
)
    requires
        call_ensures(record_daemon_event, (logs, level, event, message), ()),
    ensures
        is_noted(*old(logs), level, event@, message@, *final(logs)),
{
}

/// What is shown of a log is its newest events, oldest first, as many as were asked for and are there.
pub proof fn the_newest_events_are_shown(
    buffer: DaemonLogBuffer,
    limit: usize,
    shown: Vec<DaemonLogEntry>,
)
    requires
        call_ensures(DaemonLogBuffer::tail, (&buffer, limit), shown),
        buffer@.wf(),
    ensures
        shown@.len() == limit || shown@.len() == buffer@.entries.len(),
        shown@.len() <= limit,
        shown@.len() <= buffer@.entries.len(),
        forall|i: int|
            0 <= i < shown@.len() ==> {
                let entry = #[trigger] shown@[i];
                let held = buffer@.entries[buffer@.entries.len() - shown@.len() + i];
                &&& entry.sequence == held.sequence
                &&& entry.level == held.level
                &&& entry.event@ == held.event
                &&& entry.message@ == held.message
            },
{
    let models = entry_models(shown@);
    assert(models.len() == shown@.len());
    assert forall|i: int| 0 <= i < shown@.len() implies {
        let entry = #[trigger] shown@[i];
        let held = buffer@.entries[buffer@.entries.len() - shown@.len() + i];
        &&& entry.sequence == held.sequence
        &&& entry.level == held.level
        &&& entry.event@ == held.event
        &&& entry.message@ == held.message
    } by {
        assert(models[i] == entry_model(shown@[i]));
    }
}

/// An event that is recorded is shown last, behind what was shown before it.
pub proof fn a_recorded_event_is_shown(
    buffer: &mut DaemonLogBuffer,
    level: DaemonLogLevel,
    event: &str,
    message: &str,
    fewer: usize,
    limit: usize,
    earlier: Vec<DaemonLogEntry>,
    later: Vec<DaemonLogEntry>,
)
    requires
        call_ensures(DaemonLogBuffer::tail, (&*old(buffer), fewer), earlier),
        call_ensures(DaemonLogBuffer::record, (buffer, level, event, message), ()),
        call_ensures(DaemonLogBuffer::tail, (&*final(buffer), limit), later),
        old(buffer)@.wf(),
        limit == fewer + 1,
        limit <= old(buffer)@.capacity,
    ensures
        later@.len() == earlier@.len() + 1,
        later@.last().level == level,
        later@.last().event@ == event@,
        later@.last().message@ == message@,
        forall|i: int|
            0 <= i < earlier@.len() ==> {
                &&& (#[trigger] later@[i]).sequence == earlier@[i].sequence
                &&& later@[i].level == earlier@[i].level
                &&& later@[i].event@ == earlier@[i].event@
                &&& later@[i].message@ == earlier@[i].message@
            },
{
    the_newest_events_are_shown(*old(buffer), fewer, earlier);
    the_newest_events_are_shown(*final(buffer), limit, later);
    assert(entry_models(earlier@).len() == earlier@.len());
    assert(entry_models(later@).len() == later@.len());
    assert forall|i: int| 0 <= i < earlier@.len() implies {
        &&& (#[trigger] later@[i]).sequence == earlier@[i].sequence
        &&& later@[i].level == earlier@[i].level
        &&& later@[i].event@ == earlier@[i].event@
        &&& later@[i].message@ == earlier@[i].message@
    } by {
        assert(earlier@[i].sequence == earlier@[i].sequence);
    }
}

/// A new log is empty and begins to count at one. Without a limit, twenty-five events are shown of
/// what there is, and none where there is no log.
pub proof fn logs_begin_empty(
    capacity: usize,
    fresh: DaemonLogBuffer,
    logs: Option<DaemonLogBuffer>,
    requested: Option<usize>,
    shown: Vec<DaemonLogEntry>,
    tail: Vec<DaemonLogEntry>,
)
    requires
        call_ensures(DaemonLogBuffer::new, (capacity,), fresh),
        call_ensures(daemon_log_tail, (&logs, requested), shown),
        logs matches Some(buffer) ==> buffer@.wf(),
        logs matches Some(buffer) ==> call_ensures(
            DaemonLogBuffer::tail,
            (
                &buffer,
                match requested {
                    Some(limit) => limit,
                    None => 25,
                },
            ),
            tail,
        ),
    ensures
        fresh@.entries.len() == 0,
        fresh@.next_sequence == 1,
        fresh@.capacity == capacity,
        logs is None ==> shown@.len() == 0,
        logs is Some ==> shown@.len() == tail@.len() && forall|i: int|
            0 <= i < shown@.len() ==> {
                &&& (#[trigger] shown@[i]).sequence == tail@[i].sequence
                &&& shown@[i].level == tail@[i].level
                &&& shown@[i].event@ == tail@[i].event@
                &&& shown@[i].message@ == tail@[i].message@
            },
{
    assert(entry_models(shown@).len() == shown@.len());
    assert(entry_models(tail@).len() == tail@.len());
    if logs is Some {
        assert forall|i: int| 0 <= i < shown@.len() implies {
            &&& (#[trigger] shown@[i]).sequence == tail@[i].sequence
            &&& shown@[i].level == tail@[i].level
            &&& shown@[i].event@ == tail@[i].event@
            &&& shown@[i].message@ == tail@[i].message@
        } by {
            assert(entry_models(shown@)[i] == entry_model(shown@[i]));
            assert(entry_models(tail@)[i] == entry_model(tail@[i]));
        }
    }
}

} // verus!
