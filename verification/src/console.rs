//! The console log: an ordered, bounded history of text lines.

use vstd::prelude::*;

verus! {

/// The most lines the console keeps.
pub const CONSOLE_CAPACITY: usize = 1200;

/// The views of a sequence of strings, one line each.
pub open spec fn texts(lines: Seq<String>) -> Seq<Seq<char>> {
    lines.map_values(|line: String| line@)
}

/// The newest `limit` lines of `lines`, in the order they came in; all of them
/// when there are no more than `limit`.
pub open spec fn newest(lines: Seq<Seq<char>>, limit: nat) -> Seq<Seq<char>> {
    if lines.len() > limit {
        lines.skip(lines.len() - limit)
    } else {
        lines
    }
}

/// What the console holds after `added` is appended to `history`.
pub open spec fn appended(history: Seq<Seq<char>>, added: Seq<Seq<char>>) -> Seq<Seq<char>> {
    newest(history + added, CONSOLE_CAPACITY as nat)
}

/// The line a fresh console greets its reader with.
pub open spec fn welcome_line() -> Seq<char> {
    "Welcome to the RLBot Console!"@
}

/// Ordered text history with a hard capacity of [`CONSOLE_CAPACITY`] lines.
/// Writers append at the tail; overflow is evicted from the head.
pub struct ConsoleLog {
    lines: Vec<String>,
}

impl View for ConsoleLog {
    type V = Seq<Seq<char>>;

    closed spec fn view(&self) -> Seq<Seq<char>> {
        newest(texts(self.lines@), CONSOLE_CAPACITY as nat)
    }
}

impl ConsoleLog {
    #[verifier::type_invariant]
    spec fn within_capacity(self) -> bool {
        self.lines@.len() <= CONSOLE_CAPACITY
    }

    /// The history is within the capacity at all times.
    pub proof fn bounded(&self)
        ensures
            self@.len() <= CONSOLE_CAPACITY,
            appended(self@, Seq::empty()) == self@,
    {
    }

    /// A console without any line.
    pub fn empty() -> (log: Self)
        ensures
            log@ == Seq::<Seq<char>>::empty(),
    {
        let log = ConsoleLog { lines: Vec::new() };
        log
    }

    /// A console that holds the welcome line and nothing else.
    pub fn new() -> (log: Self)
        ensures
            log@ == seq![welcome_line()],
    {
        let mut lines: Vec<String> = Vec::new();
        lines.push("Welcome to the RLBot Console!".to_string());
        let log = ConsoleLog { lines };
        log
    }

    /// The number of lines held, never more than [`CONSOLE_CAPACITY`].
    pub fn len(&self) -> (n: usize)
        ensures
            n == self@.len(),
            n <= CONSOLE_CAPACITY,
    {
        proof {
            use_type_invariant(&*self);
        }
        self.lines.len()
    }

    /// Appends copies of `lines` in order. When the history then exceeds the
    /// capacity, the oldest lines beyond it are dropped from the front in one
    /// batch.
    pub fn append(&mut self, lines: &[String])
        ensures
            final(self)@ == appended(old(self)@, texts(lines@)),
            final(self)@.len() <= CONSOLE_CAPACITY,
    {
        proof {
            use_type_invariant(&*self);
        }
        let mut all: Vec<String> = Vec::new();
        std::mem::swap(&mut all, &mut self.lines);
        let mut i: usize = 0;
        while i < lines.len()
            invariant
                i <= lines@.len(),
                all@ == old(self).lines@ + lines@.take(i as int),
            decreases lines@.len() - i,
        {
            all.push(lines[i].clone());
            i += 1;
        }
        if all.len() > CONSOLE_CAPACITY {
            let excess: usize = all.len() - CONSOLE_CAPACITY;
            let kept = all.split_off(excess);
            self.lines = kept;
        } else {
            self.lines = all;
        }
    }

    /// The whole history, oldest line first.
    pub fn snapshot(&self) -> (lines: Vec<String>)
        ensures
            texts(lines@) == self@,
            lines@.len() <= CONSOLE_CAPACITY,
    {
        proof {
            use_type_invariant(&*self);
        }
        let mut copy: Vec<String> = Vec::new();
        let mut i: usize = 0;
        while i < self.lines.len()
            invariant
                i <= self.lines@.len(),
                copy@ == self.lines@.take(i as int),
            decreases self.lines@.len() - i,
        {
            copy.push(self.lines[i].clone());
            i += 1;
        }
        copy
    }
}

/// Prints one line of text to the console, through the same bounded append as
/// every other writer.
pub fn ccprintln(log: &mut ConsoleLog, text: String)
    ensures
        final(log)@ == appended(old(log)@, seq![text@]),
        final(log)@.len() <= CONSOLE_CAPACITY,
{
    let mut lines: Vec<String> = Vec::new();
    lines.push(text);
    log.append(lines.as_slice());
}

/// The console never holds more than its capacity. What it holds after an
/// append is the tail of everything offered so far: once history and new lines
/// together reach the capacity it holds exactly the newest
/// [`CONSOLE_CAPACITY`] of them, each in the place it had relative to the
/// others.
pub proof fn law_append_keeps_newest(history: Seq<Seq<char>>, added: Seq<Seq<char>>)
    ensures
        appended(history, added).len() <= CONSOLE_CAPACITY,
        (history + added).len() <= CONSOLE_CAPACITY ==> appended(history, added) == history + added,
        (history + added).len() >= CONSOLE_CAPACITY ==> appended(history, added).len()
            == CONSOLE_CAPACITY,
        forall|i: int|
            0 <= i < appended(history, added).len() ==> #[trigger] appended(history, added)[i] == (
            history + added)[(history + added).len() - appended(history, added).len() + i],
{
}

/// Appending in two batches leaves the console exactly as appending both
/// batches at once: over any sequence of appends the console holds the newest
/// lines of the whole stream.
pub proof fn law_appends_compose(
    history: Seq<Seq<char>>,
    first: Seq<Seq<char>>,
    second: Seq<Seq<char>>,
)
    ensures
        appended(appended(history, first), second) == appended(history, first + second),
{
}

} // verus!
