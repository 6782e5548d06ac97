//! The output aggregator: one pass per tick over the occupied capture slots,
//! reading at most one line from each and collecting the lines into a batch.
//!
//! Reading a stream blocks, so the pass is written as a state machine. The
//! caller reads one byte from the slot that [`TickAction::Read`] names, hands
//! what came back to [`Tick::feed`], and does what the next action says. The
//! pass moves to the next slot only when the current one has ended its line,
//! and the batch is handed out only after the last slot has.

use crate::capture::{occupied_indices, trimmed, CaptureRegistry};
use crate::console::{appended, texts, ConsoleLog};
use crate::text::copy_lines;
use vstd::prelude::*;

verus! {

/// The name of the event that carries a published batch to the user
/// interface.
pub const CONSOLE_TEXT_EVENT: &'static str = "new-console-text";

/// The pause between two passes, in milliseconds.
pub const TICK_INTERVAL_MILLIS: u64 = 100;

/// The byte that ends a line. It is not part of the line.
pub const LINE_FEED: u8 = 10;

/// What reading a single byte from a stream came to.
#[derive(Clone, Copy, Debug, PartialEq, Eq, Structural)]
pub enum ReadOutcome {
    /// The stream is closed: the read returned no byte.
    Closed,
    /// The read returned this byte.
    Byte(u8),
    /// The read failed.
    Failed,
}

/// The character that a byte read on its own stands for: itself when it is
/// ASCII, the replacement character when it is not.
pub open spec fn decoded(byte: u8) -> char {
    if byte < 0x80 {
        byte as char
    } else {
        '\u{FFFD}'
    }
}

/// Whether `outcome` ends the line being assembled. A line feed does, and so
/// does the end of the stream; a failed read counts as the end of the stream.
pub open spec fn ends_line(outcome: ReadOutcome) -> bool {
    match outcome {
        ReadOutcome::Byte(byte) => byte == LINE_FEED,
        ReadOutcome::Closed => true,
        ReadOutcome::Failed => true,
    }
}

/// The state of a pass, as plain values.
pub struct TickView {
    /// The slots to read, in increasing order: those occupied when the pass
    /// began.
    pub slots: Seq<usize>,
    /// How many of them have ended their line.
    pub cursor: int,
    /// The line assembled so far from the current slot.
    pub line: Seq<char>,
    /// The lines completed so far, in slot order. Empty lines are left out.
    pub batch: Seq<Seq<char>>,
}

/// What the caller of a pass does next, as plain values.
pub enum StepView {
    Read(usize),
    Publish(Seq<Seq<char>>),
    Sleep,
}

/// The state in which a pass over `slots` begins.
pub open spec fn started(slots: Seq<usize>) -> TickView {
    TickView { slots, cursor: 0, line: Seq::empty(), batch: Seq::empty() }
}

/// Whether every slot of the pass has ended its line.
pub open spec fn complete(tick: TickView) -> bool {
    tick.cursor >= tick.slots.len()
}

/// The state after the current slot has ended its line: the line joins the
/// batch unless it is empty, and the pass moves to the next slot.
pub open spec fn line_ended(tick: TickView) -> TickView {
    TickView {
        slots: tick.slots,
        cursor: tick.cursor + 1,
        line: Seq::empty(),
        batch: if tick.line.len() > 0 {
            tick.batch.push(tick.line)
        } else {
            tick.batch
        },
    }
}

/// The state after `outcome` was read from the current slot. A complete pass
/// takes no more input.
pub open spec fn fed(tick: TickView, outcome: ReadOutcome) -> TickView {
    if complete(tick) {
        tick
    } else {
        match outcome {
            ReadOutcome::Byte(byte) if byte != LINE_FEED => TickView {
                slots: tick.slots,
                cursor: tick.cursor,
                line: tick.line.push(decoded(byte)),
                batch: tick.batch,
            },
            _ => line_ended(tick),
        }
    }
}

/// The state after each of `outcomes` was read in turn.
pub open spec fn fed_all(tick: TickView, outcomes: Seq<ReadOutcome>) -> TickView
    decreases outcomes.len(),
{
    if outcomes.len() == 0 {
        tick
    } else {
        fed(fed_all(tick, outcomes.drop_last()), outcomes.last())
    }
}

/// The outcomes of reading `bytes` one by one.
pub open spec fn bytes_read(bytes: Seq<u8>) -> Seq<ReadOutcome> {
    bytes.map_values(|byte: u8| ReadOutcome::Byte(byte))
}

/// The text that `bytes` stand for, each byte decoded on its own.
pub open spec fn decoded_text(bytes: Seq<u8>) -> Seq<char> {
    bytes.map_values(|byte: u8| decoded(byte))
}

/// What to do when a pass begins in state `tick`: read the first slot, or
/// sleep when there is none.
pub open spec fn first_step(tick: TickView) -> StepView {
    if complete(tick) {
        StepView::Sleep
    } else {
        StepView::Read(tick.slots[tick.cursor])
    }
}

/// What to do after `outcome` was read in state `tick`. While a slot is left,
/// read it. When this outcome ended the last slot's line, publish the batch if
/// it holds a line. In every other case there is nothing to do but sleep.
pub open spec fn step_after(tick: TickView, outcome: ReadOutcome) -> StepView {
    let next = fed(tick, outcome);
    if !complete(next) {
        StepView::Read(next.slots[next.cursor])
    } else if !complete(tick) && next.batch.len() > 0 {
        StepView::Publish(next.batch)
    } else {
        StepView::Sleep
    }
}

/// What the caller of a pass does next.
#[derive(Debug, PartialEq, Eq)]
pub enum TickAction {
    /// Read one byte from this slot's stream, waiting for it if need be, and
    /// feed the outcome.
    Read(usize),
    /// The pass is over and these lines were appended to the console: publish
    /// them as one update, then sleep until the next tick.
    Publish(Vec<String>),
    /// The pass is over and produced nothing: sleep until the next tick.
    Sleep,
}

impl View for TickAction {
    type V = StepView;

    open spec fn view(&self) -> StepView {
        match self {
            TickAction::Read(slot) => StepView::Read(*slot),
            TickAction::Publish(lines) => StepView::Publish(texts(lines@)),
            TickAction::Sleep => StepView::Sleep,
        }
    }
}

/// One pass of the aggregator over the capture slots.
pub struct Tick {
    slots: Vec<usize>,
    cursor: usize,
    line: String,
    batch: Vec<String>,
}

impl View for Tick {
    type V = TickView;

    closed spec fn view(&self) -> TickView {
        TickView {
            slots: self.slots@,
            cursor: self.cursor as int,
            line: self.line@,
            batch: texts(self.batch@),
        }
    }
}

impl Tick {
    #[verifier::type_invariant]
    spec fn cursor_in_range(self) -> bool {
        self.cursor <= self.slots@.len()
    }

    /// Begins a pass. Trailing empty slots are removed from the table first;
    /// the pass then covers the slots that are occupied at this moment, in
    /// index order. With no occupied slot there is nothing to read.
    pub fn begin<T>(registry: &mut CaptureRegistry<T>) -> (begun: (Tick, TickAction))
        ensures
            final(registry)@ == trimmed(old(registry)@),
            begun.0@ == started(occupied_indices(final(registry)@)),
            begun.1@ == first_step(begun.0@),
    {
        registry.compact_trailing();
        let slots = registry.occupied();
        let action = if slots.len() > 0 {
            TickAction::Read(slots[0])
        } else {
            TickAction::Sleep
        };
        let tick = Tick { slots, cursor: 0, line: String::new(), batch: Vec::new() };
        assert(tick@.batch =~= Seq::<Seq<char>>::empty());
        (tick, action)
    }

    /// The slot whose stream is to be read next, if the pass is not over.
    pub fn pending(&self) -> (slot: Option<usize>)
        ensures
            slot == if complete(self@) {
                None
            } else {
                Some(self@.slots[self@.cursor])
            },
    {
        proof {
            use_type_invariant(&*self);
        }
        if self.cursor < self.slots.len() {
            Some(self.slots[self.cursor])
        } else {
            None
        }
    }

    /// Takes what reading one byte from the pending slot came to.
    ///
    /// A byte other than the line feed joins the current line, and the same
    /// slot is read again. A line feed, the end of the stream or a failed read
    /// ends the line, which joins the batch unless it is empty; the pass moves
    /// on. When that was the last slot, a batch that holds a line is appended
    /// to `log` and handed out for publishing. Once the pass is over, feeding
    /// changes nothing.
    pub fn feed(&mut self, outcome: ReadOutcome, log: &mut ConsoleLog) -> (action: TickAction)
        ensures
            final(self)@ == fed(old(self)@, outcome),
            action@ == step_after(old(self)@, outcome),
            final(log)@ == if action is Publish {
                appended(old(log)@, final(self)@.batch)
            } else {
                old(log)@
            },
    {
        proof {
            use_type_invariant(&*self);
        }
        if self.cursor >= self.slots.len() {
            return TickAction::Sleep;
        }
        match outcome {
            ReadOutcome::Byte(byte) if byte != LINE_FEED => {
                let ch: char = if byte < 0x80 {
                    byte as char
                } else {
                    '\u{FFFD}'
                };
                let mut line = String::new();
                std::mem::swap(&mut line, &mut self.line);
                line.push(ch);
                self.line = line;
                TickAction::Read(self.slots[self.cursor])
            },
            _ => {
                let mut line = String::new();
                std::mem::swap(&mut line, &mut self.line);
                if !line.as_str().is_empty() {
                    let mut batch: Vec<String> = Vec::new();
                    std::mem::swap(&mut batch, &mut self.batch);
                    batch.push(line);
                    self.batch = batch;
                    assert(texts(self.batch@) =~= texts(old(self).batch@).push(old(self).line@));
                }
                self.cursor = self.cursor + 1;
                if self.cursor < self.slots.len() {
                    TickAction::Read(self.slots[self.cursor])
                } else if self.batch.len() > 0 {
                    log.append(self.batch.as_slice());
                    let lines = copy_lines(&self.batch);
                    TickAction::Publish(lines)
                } else {
                    TickAction::Sleep
                }
            },
        }
    }
}

/// Bytes that hold no line feed only lengthen the current line: the pass
/// stays at its slot and the batch is untouched.
pub proof fn law_bytes_extend_the_line(tick: TickView, bytes: Seq<u8>)
    requires
        !complete(tick),
        forall|i: int| 0 <= i < bytes.len() ==> bytes[i] != LINE_FEED,
    ensures
        fed_all(tick, bytes_read(bytes)) == (TickView {
            slots: tick.slots,
            cursor: tick.cursor,
            line: tick.line + decoded_text(bytes),
            batch: tick.batch,
        }),
    decreases bytes.len(),
{
    if bytes.len() > 0 {
        law_bytes_extend_the_line(tick, bytes.drop_last());
        assert(bytes_read(bytes).drop_last() =~= bytes_read(bytes.drop_last()));
        assert((tick.line + decoded_text(bytes.drop_last())).push(decoded(bytes.last()))
            =~= tick.line + decoded_text(bytes));
    }
}

/// One line per slot and pass: when a slot yields `bytes` without a line feed
/// and then ends its line, by a line feed, by closing or by failing, the pass
/// moves on by exactly one slot, and the batch gains the decoded line, or
/// nothing when that line is empty.
pub proof fn law_one_line_per_slot(tick: TickView, bytes: Seq<u8>, last: ReadOutcome)
    requires
        !complete(tick),
        forall|i: int| 0 <= i < bytes.len() ==> bytes[i] != LINE_FEED,
        ends_line(last),
    ensures
        fed_all(tick, bytes_read(bytes).push(last)) == (TickView {
            slots: tick.slots,
            cursor: tick.cursor + 1,
            line: Seq::empty(),
            batch: if (tick.line + decoded_text(bytes)).len() > 0 {
                tick.batch.push(tick.line + decoded_text(bytes))
            } else {
                tick.batch
            },
        }),
{
    law_bytes_extend_the_line(tick, bytes);
    assert(bytes_read(bytes).push(last).drop_last() =~= bytes_read(bytes));
}

/// The batch is handed out only by the outcome that ends the last slot's
/// line: while a slot of the pass has not ended its line, the next step is to
/// read that slot, whatever was completed before it.
pub proof fn law_no_partial_batch(tick: TickView, outcome: ReadOutcome)
    ensures
        step_after(tick, outcome) is Publish ==> !complete(tick) && ends_line(outcome)
            && tick.cursor + 1 >= tick.slots.len(),
        !complete(fed(tick, outcome)) ==> step_after(tick, outcome) == StepView::Read(
            tick.slots[fed(tick, outcome).cursor],
        ),
{
}

} // verus!
