//! A trace of events in a ring of fixed capacity: the newest events displace
//! the oldest, and the trace is read out oldest first, each event with the
//! cycles gone since the first one read.
use super::instant::Instant;
use vstd::prelude::*;

verus! {

/// Total number of events that a buffer retains.
pub const BUFFER_SIZE: usize = 1_048_576;

/// One entry of the trace.
#[derive(Debug, Clone, PartialEq, Eq)]
pub struct Event {
    /// When the event occurred, in cycles.
    pub timestamp: u64,
    /// The description of the event; `None` in a slot that was never used.
    pub format: Option<String>,
}

/// One line of the trace as it is read out.
#[derive(Debug, Clone, Copy, PartialEq, Eq)]
pub struct TraceLine {
    /// The slot of the event.
    pub index: usize,
    /// The cycles from the first event read out to this one.
    pub cycles: u64,
}

/// The trace as it is read out.
#[derive(Debug, Clone, PartialEq, Eq)]
pub struct Trace {
    /// The timestamp of the first event read out.
    pub start_cycles: u64,
    /// The events, oldest first.
    pub lines: Vec<TraceLine>,
}

/// The slot after `index` in the ring.
pub open spec fn next_slot(index: int) -> int {
    (index + 1) % (BUFFER_SIZE as int)
}

/// A sequence of events of fixed capacity, whose slots are used again on a
/// circular basis.
#[derive(Debug)]
pub struct Buffer {
    /// The most recent events.
    events: Vec<Event>,
    /// The slot that the next event goes to.
    next_index: usize,
    /// Whether an event was ever recorded.
    has_record: bool,
}

impl Buffer {
    /// The events in their slots.
    pub closed spec fn events(&self) -> Seq<Event> {
        self.events@
    }

    /// The slot that the next event goes to.
    pub closed spec fn next_index(&self) -> int {
        self.next_index as int
    }

    /// Whether an event was ever recorded.
    pub closed spec fn has_record(&self) -> bool {
        self.has_record
    }

    /// The buffer has all its slots, and the next slot is one of them.
    pub open spec fn wf(&self) -> bool {
        &&& self.events().len() == BUFFER_SIZE
        &&& 0 <= self.next_index() < BUFFER_SIZE
    }

    /// The slot from which the trace is read out: the one after the slot
    /// that the next event goes to, if it was ever used, and the first slot
    /// of the buffer if it was not.
    pub open spec fn first_slot(&self) -> int {
        if self.events()[next_slot(self.next_index())].format is Some {
            next_slot(self.next_index())
        } else {
            0
        }
    }

    /// The timestamp that the trace counts from: that of the first event read
    /// out, and zero if its slot was never used.
    pub open spec fn start_cycles(&self) -> u64 {
        if self.events()[self.first_slot()].format is Some {
            self.events()[self.first_slot()].timestamp
        } else {
            0
        }
    }

    /// The slot of line `i` of the trace.
    pub open spec fn slot_of_line(&self, i: int) -> int {
        (self.first_slot() + i) % (BUFFER_SIZE as int)
    }

    /// Whether `line` is line `i` of the trace: it names the slot of that
    /// line, whose event does not lie before the start, and holds the cycles
    /// from the start to that event.
    pub open spec fn is_line(&self, line: TraceLine, i: int) -> bool {
        &&& line.index == self.slot_of_line(i)
        &&& self.events()[self.slot_of_line(i)].timestamp >= self.start_cycles()
        &&& line.cycles == self.events()[self.slot_of_line(i)].timestamp - self.start_cycles()
    }

    /// Whether `lines` is the trace of this buffer: the slots in their order
    /// from the first one on, each with the cycles since the start, up to
    /// the first slot whose timestamp lies before the start, and once round
    /// the ring at most.
    pub open spec fn traces(&self, lines: Seq<TraceLine>) -> bool {
        &&& lines.len() <= BUFFER_SIZE
        &&& forall|i: int| 0 <= i < lines.len() ==> #[trigger] self.is_line(lines[i], i)
        &&& lines.len() < BUFFER_SIZE ==> self.events()[self.slot_of_line(
            lines.len() as int,
        )].timestamp < self.start_cycles()
    }

    /// A buffer in which no slot was ever used.
    pub fn new() -> (buffer: Buffer)
        ensures
            buffer.wf(),
            buffer.next_index() == 0,
            !buffer.has_record(),
            forall|i: int|
                0 <= i < BUFFER_SIZE ==> buffer.events()[i] == (Event {
                    timestamp: 0,
                    format: None,
                }),
    {
        let mut events: Vec<Event> = Vec::new();
        let mut index: usize = 0;
        while index < BUFFER_SIZE
            invariant
                index <= BUFFER_SIZE,
                events@.len() == index,
                forall|i: int|
                    0 <= i < index ==> events@[i] == (Event { timestamp: 0, format: None }),
            decreases BUFFER_SIZE - index,
        {
            events.push(Event { timestamp: 0, format: None });
            index = index + 1;
        }
        Buffer { events, next_index: 0, has_record: false }
    }

    /// Decides whether the buffer has all its slots and its next slot is one
    /// of them, as every buffer made by `new` has.
    pub fn check_wf(&self) -> (r: bool)
        ensures
            r == self.wf(),
    {
        self.events.len() == BUFFER_SIZE && self.next_index < BUFFER_SIZE
    }

    /// The event in slot `index`.
    pub fn event(&self, index: usize) -> (event: &Event)
        requires
            self.wf(),
            index < BUFFER_SIZE,
        ensures
            *event == self.events()[index as int],
    {
        &self.events[index]
    }

    /// Records an event in the slot that is next, displacing what was there.
    pub fn record(&mut self, timestamp: u64, format: String)
        requires
            old(self).wf(),
        ensures
            final(self).wf(),
            final(self).events() == old(self).events().update(
                old(self).next_index(),
                Event { timestamp, format: Some(format) },
            ),
            final(self).next_index() == next_slot(old(self).next_index()),
            final(self).has_record(),
    {
        let index: usize = self.next_index;
        self.events[index] = Event { timestamp, format: Some(format) };
        self.next_index = if index + 1 == BUFFER_SIZE {
            0
        } else {
            index + 1
        };
        self.has_record = true;
    }

    /// Reads out the trace, if an event was ever recorded.
    pub fn print(&self) -> (trace: Option<Trace>)
        requires
            self.wf(),
        ensures
            trace is Some <==> self.has_record(),
            trace matches Some(t) ==> t.start_cycles == self.start_cycles() && self.traces(
                t.lines@,
            ),
    {
        if self.has_record {
            Some(self.print_internal())
        } else {
            None
        }
    }

    /// Reads out the trace: the events from the first slot on, each with the
    /// cycles since the first one, until a slot is reached whose timestamp
    /// lies before the start.
    pub fn print_internal(&self) -> (trace: Trace)
        requires
            self.wf(),
        ensures
            trace.start_cycles == self.start_cycles(),
            self.traces(trace.lines@),
    {
        let index: usize = if self.next_index + 1 == BUFFER_SIZE {
            0
        } else {
            self.next_index + 1
        };
        let first: usize = if self.events[index].format.is_some() {
            index
        } else {
            0
        };
        let start_time: u64 = if self.events[first].format.is_some() {
            self.events[first].timestamp
        } else {
            0
        };

        let mut lines: Vec<TraceLine> = Vec::new();
        let mut current: usize = first;
        let mut count: usize = 0;
        let mut ended: bool = false;
        while count < BUFFER_SIZE && !ended
            invariant
                self.wf(),
                first == self.first_slot(),
                start_time == self.start_cycles(),
                count == lines@.len(),
                count <= BUFFER_SIZE,
                current < BUFFER_SIZE,
                current == self.slot_of_line(count as int),
                ended ==> self.events()[current as int].timestamp < start_time,
                forall|i: int| 0 <= i < lines@.len() ==> #[trigger] self.is_line(lines@[i], i),
            decreases BUFFER_SIZE - count + if ended { 0int } else { 1int },
        {
            let timestamp: u64 = self.events[current].timestamp;
            if timestamp < start_time {
                ended = true;
            } else {
                lines.push(TraceLine { index: current, cycles: timestamp - start_time });
                current = if current + 1 == BUFFER_SIZE {
                    0
                } else {
                    current + 1
                };
                count = count + 1;
            }
        }
        Trace { start_cycles: start_time, lines }
    }
}

/// A trace of the events of one thread.
#[derive(Debug)]
pub struct TimeTrace {
    /// The events recorded.
    pub buffer: Buffer,
}

impl TimeTrace {
    /// A trace without events.
    pub fn new() -> (trace: TimeTrace)
        ensures
            trace.buffer.wf(),
            trace.buffer.next_index() == 0,
            !trace.buffer.has_record(),
            forall|i: int|
                0 <= i < BUFFER_SIZE ==> trace.buffer.events()[i] == (Event {
                    timestamp: 0,
                    format: None,
                }),
    {
        TimeTrace { buffer: Buffer::new() }
    }

    /// Records an event that occurred at `now`.
    pub fn record(&mut self, now: Instant, format: String)
        requires
            old(self).buffer.wf(),
        ensures
            final(self).buffer.wf(),
            final(self).buffer.events() == old(self).buffer.events().update(
                old(self).buffer.next_index(),
                Event { timestamp: now.cycles(), format: Some(format) },
            ),
            final(self).buffer.next_index() == next_slot(old(self).buffer.next_index()),
            final(self).buffer.has_record(),
    {
        self.buffer.record(now.as_cycles(), format);
    }

    /// Reads out the trace, if an event was ever recorded.
    pub fn print(&self) -> (trace: Option<Trace>)
        requires
            self.buffer.wf(),
        ensures
            trace is Some <==> self.buffer.has_record(),
            trace matches Some(t) ==> t.start_cycles == self.buffer.start_cycles()
                && self.buffer.traces(t.lines@),
    {
        self.buffer.print()
    }
}

/// Records an event that occurred at `now` in `trace`.
pub fn record(trace: &mut TimeTrace, now: Instant, format: String)
    requires
        old(trace).buffer.wf(),
    ensures
        final(trace).buffer.wf(),
        final(trace).buffer.events() == old(trace).buffer.events().update(
            old(trace).buffer.next_index(),
            Event { timestamp: now.cycles(), format: Some(format) },
        ),
        final(trace).buffer.next_index() == next_slot(old(trace).buffer.next_index()),
        final(trace).buffer.has_record(),
{
    trace.record(now, format);
}

/// Reads out `trace`, if an event was ever recorded in it.
pub fn trace_print(trace: &TimeTrace) -> (read: Option<Trace>)
    requires
        trace.buffer.wf(),
    ensures
        read is Some <==> trace.buffer.has_record(),
        read matches Some(t) ==> t.start_cycles == trace.buffer.start_cycles()
            && trace.buffer.traces(t.lines@),
{
    trace.print()
}

} // verus!
