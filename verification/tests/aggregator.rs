use rlbot_gui::aggregator::{ReadOutcome, Tick, TickAction, LINE_FEED};
use rlbot_gui::capture::CaptureRegistry;
use rlbot_gui::console::ConsoleLog;

/// A stream that yields its bytes one by one and is closed after them.
struct Script {
    bytes: Vec<u8>,
    at: usize,
}

fn script(text: &[u8]) -> Script {
    Script { bytes: text.to_vec(), at: 0 }
}

fn read_one(stream: &mut Script) -> ReadOutcome {
    if stream.at < stream.bytes.len() {
        stream.at += 1;
        ReadOutcome::Byte(stream.bytes[stream.at - 1])
    } else {
        ReadOutcome::Closed
    }
}

/// Runs one whole pass over `streams`, reading what each slot asks for, and
/// returns what the pass ended with together with the slots in the order in
/// which they were read.
fn run_tick(registry: &mut CaptureRegistry<usize>, streams: &mut Vec<Script>, log: &mut ConsoleLog) -> (TickAction, Vec<usize>) {
    let (mut tick, mut action) = Tick::begin(registry);
    let mut reads = Vec::new();
    loop {
        match action {
            TickAction::Read(slot) => {
                reads.push(slot);
                let stream = *registry.stream(slot).unwrap();
                action = tick.feed(read_one(&mut streams[stream]), log);
            }
            other => return (other, reads),
        }
    }
}

fn lines(texts: &[&str]) -> Vec<String> {
    texts.iter().map(|text| text.to_string()).collect()
}

#[test]
fn the_line_feed_is_byte_ten() {
    assert_eq!(LINE_FEED, b'\n');
}

#[test]
fn a_written_line_is_logged_and_published_once() {
    let mut registry = CaptureRegistry::new();
    let mut streams = vec![script(b"hello\n")];
    let mut log = ConsoleLog::empty();
    assert_eq!(registry.acquire(0), 0);
    let (action, reads) = run_tick(&mut registry, &mut streams, &mut log);
    assert_eq!(action, TickAction::Publish(lines(&["hello"])));
    assert_eq!(log.snapshot(), lines(&["hello"]));
    assert_eq!(reads, vec![0; 6]);
    let (action, reads) = run_tick(&mut registry, &mut streams, &mut log);
    assert_eq!(action, TickAction::Sleep);
    assert_eq!(reads, vec![0]);
    assert_eq!(log.snapshot(), lines(&["hello"]));
}

#[test]
fn no_batch_is_handed_out_while_a_slot_is_silent() {
    let mut registry = CaptureRegistry::new();
    let mut log = ConsoleLog::empty();
    registry.acquire("first");
    registry.acquire("second");
    let (mut tick, action) = Tick::begin(&mut registry);
    assert_eq!(action, TickAction::Read(0));
    assert_eq!(tick.feed(ReadOutcome::Byte(b'a'), &mut log), TickAction::Read(0));
    assert_eq!(tick.feed(ReadOutcome::Byte(b'\n'), &mut log), TickAction::Read(1));
    assert_eq!(tick.pending(), Some(1));
    assert!(log.snapshot().is_empty());
    assert_eq!(tick.feed(ReadOutcome::Closed, &mut log), TickAction::Publish(lines(&["a"])));
    assert_eq!(tick.pending(), None);
    assert_eq!(log.snapshot(), lines(&["a"]));
}

#[test]
fn a_silent_slot_that_speaks_at_last_joins_the_same_batch() {
    let mut registry = CaptureRegistry::new();
    let mut log = ConsoleLog::new();
    registry.acquire(());
    registry.acquire(());
    let (mut tick, _) = Tick::begin(&mut registry);
    tick.feed(ReadOutcome::Byte(b'a'), &mut log);
    assert_eq!(tick.feed(ReadOutcome::Byte(b'\n'), &mut log), TickAction::Read(1));
    assert_eq!(tick.feed(ReadOutcome::Byte(b'b'), &mut log), TickAction::Read(1));
    assert_eq!(log.len(), 1);
    assert_eq!(tick.feed(ReadOutcome::Byte(b'\n'), &mut log), TickAction::Publish(lines(&["a", "b"])));
    assert_eq!(log.snapshot(), lines(&["Welcome to the RLBot Console!", "a", "b"]));
}

#[test]
fn each_slot_gives_one_line_per_pass_in_slot_order() {
    let mut registry = CaptureRegistry::new();
    let mut streams = vec![script(b"one\ntwo\n"), script(b"uno\ndos\n"), script(b"eins\n")];
    let mut log = ConsoleLog::empty();
    for stream in 0..3 {
        registry.acquire(stream);
    }
    let (action, _) = run_tick(&mut registry, &mut streams, &mut log);
    assert_eq!(action, TickAction::Publish(lines(&["one", "uno", "eins"])));
    let (action, _) = run_tick(&mut registry, &mut streams, &mut log);
    assert_eq!(action, TickAction::Publish(lines(&["two", "dos"])));
    let (action, _) = run_tick(&mut registry, &mut streams, &mut log);
    assert_eq!(action, TickAction::Sleep);
    assert_eq!(log.snapshot(), lines(&["one", "uno", "eins", "two", "dos"]));
}

#[test]
fn empty_slots_are_skipped_and_trailing_ones_removed() {
    let mut registry = CaptureRegistry::new();
    let mut streams = vec![script(b"a\n"), script(b"b\n"), script(b"c\n"), script(b"d\n")];
    let mut log = ConsoleLog::empty();
    for stream in 0..4 {
        registry.acquire(stream);
    }
    registry.release(1);
    registry.release(3);
    let (action, reads) = run_tick(&mut registry, &mut streams, &mut log);
    assert_eq!(action, TickAction::Publish(lines(&["a", "c"])));
    assert_eq!(reads, vec![0, 0, 2, 2]);
    assert_eq!(registry.len(), 3);
}

#[test]
fn a_table_without_occupied_slots_gives_nothing_to_read() {
    let mut registry: CaptureRegistry<u8> = CaptureRegistry::new();
    let mut log = ConsoleLog::new();
    let (tick, action) = Tick::begin(&mut registry);
    assert_eq!(action, TickAction::Sleep);
    assert_eq!(tick.pending(), None);
    registry.acquire(1);
    registry.acquire(2);
    registry.release(0);
    registry.release(1);
    let (mut tick, action) = Tick::begin(&mut registry);
    assert_eq!(action, TickAction::Sleep);
    assert!(registry.is_empty());
    assert_eq!(tick.feed(ReadOutcome::Byte(b'x'), &mut log), TickAction::Sleep);
    assert_eq!(log.len(), 1);
}

#[test]
fn empty_lines_are_left_out_of_the_batch() {
    let mut registry = CaptureRegistry::new();
    let mut streams = vec![script(b"\n"), script(b"text\n"), script(b"")];
    let mut log = ConsoleLog::empty();
    for stream in 0..3 {
        registry.acquire(stream);
    }
    let (action, reads) = run_tick(&mut registry, &mut streams, &mut log);
    assert_eq!(action, TickAction::Publish(lines(&["text"])));
    assert_eq!(reads, vec![0, 1, 1, 1, 1, 1, 2]);
}

#[test]
fn a_pass_of_empty_lines_publishes_nothing() {
    let mut registry = CaptureRegistry::new();
    let mut streams = vec![script(b"\n"), script(b"")];
    let mut log = ConsoleLog::new();
    registry.acquire(0);
    registry.acquire(1);
    let (action, _) = run_tick(&mut registry, &mut streams, &mut log);
    assert_eq!(action, TickAction::Sleep);
    assert_eq!(log.len(), 1);
}

#[test]
fn a_closed_stream_flushes_the_line_it_had_begun() {
    let mut registry = CaptureRegistry::new();
    let mut streams = vec![script(b"no newline")];
    let mut log = ConsoleLog::empty();
    registry.acquire(0);
    let (action, _) = run_tick(&mut registry, &mut streams, &mut log);
    assert_eq!(action, TickAction::Publish(lines(&["no newline"])));
}

#[test]
fn a_failed_read_ends_the_line_as_a_closed_stream_does() {
    let mut registry = CaptureRegistry::new();
    let mut log = ConsoleLog::empty();
    registry.acquire(());
    registry.acquire(());
    let (mut tick, _) = Tick::begin(&mut registry);
    tick.feed(ReadOutcome::Byte(b'o'), &mut log);
    tick.feed(ReadOutcome::Byte(b'k'), &mut log);
    assert_eq!(tick.feed(ReadOutcome::Failed, &mut log), TickAction::Read(1));
    assert_eq!(tick.feed(ReadOutcome::Failed, &mut log), TickAction::Publish(lines(&["ok"])));
}

#[test]
fn a_byte_that_is_not_ascii_becomes_the_replacement_character() {
    let mut registry = CaptureRegistry::new();
    let mut streams = vec![script(&[b'a', 0x7f, 0x80, 0xc3, 0xa9, 0xff, b'z', b'\n'])];
    let mut log = ConsoleLog::empty();
    registry.acquire(0);
    let (action, _) = run_tick(&mut registry, &mut streams, &mut log);
    assert_eq!(action, TickAction::Publish(lines(&["a\u{7f}\u{fffd}\u{fffd}\u{fffd}\u{fffd}z"])));
}

#[test]
fn other_control_bytes_stay_in_the_line() {
    let mut registry = CaptureRegistry::new();
    let mut streams = vec![script(b"a\r\n\tb\0\n")];
    let mut log = ConsoleLog::empty();
    registry.acquire(0);
    let (action, _) = run_tick(&mut registry, &mut streams, &mut log);
    assert_eq!(action, TickAction::Publish(lines(&["a\r"])));
    let (action, _) = run_tick(&mut registry, &mut streams, &mut log);
    assert_eq!(action, TickAction::Publish(lines(&["\tb\0"])));
}

#[test]
fn feeding_a_finished_pass_changes_nothing() {
    let mut registry = CaptureRegistry::new();
    let mut log = ConsoleLog::empty();
    registry.acquire(());
    let (mut tick, _) = Tick::begin(&mut registry);
    tick.feed(ReadOutcome::Byte(b'x'), &mut log);
    assert_eq!(tick.feed(ReadOutcome::Closed, &mut log), TickAction::Publish(lines(&["x"])));
    assert_eq!(tick.feed(ReadOutcome::Byte(b'y'), &mut log), TickAction::Sleep);
    assert_eq!(tick.feed(ReadOutcome::Closed, &mut log), TickAction::Sleep);
    assert_eq!(log.snapshot(), lines(&["x"]));
}

#[test]
fn a_published_batch_goes_through_the_bounded_append() {
    let mut registry = CaptureRegistry::new();
    let mut streams = vec![script(b"first\n"), script(b"second\n")];
    let mut log = ConsoleLog::empty();
    let old: Vec<String> = (0..1199).map(|n| n.to_string()).collect();
    log.append(&old);
    registry.acquire(0);
    registry.acquire(1);
    let (action, _) = run_tick(&mut registry, &mut streams, &mut log);
    assert_eq!(action, TickAction::Publish(lines(&["first", "second"])));
    let kept = log.snapshot();
    assert_eq!(kept.len(), 1200);
    assert_eq!(kept[0], "1");
    assert_eq!(kept[1197], "1198");
    assert_eq!(kept[1198], "first");
    assert_eq!(kept[1199], "second");
}

#[test]
fn a_pass_reads_only_the_slots_occupied_when_it_began() {
    let mut registry = CaptureRegistry::new();
    let mut log = ConsoleLog::empty();
    registry.acquire("early");
    let (mut tick, action) = Tick::begin(&mut registry);
    assert_eq!(action, TickAction::Read(0));
    registry.acquire("late");
    assert_eq!(tick.feed(ReadOutcome::Byte(b'e'), &mut log), TickAction::Read(0));
    assert_eq!(tick.feed(ReadOutcome::Byte(b'\n'), &mut log), TickAction::Publish(lines(&["e"])));
}

#[test]
fn a_pass_is_made_every_hundred_milliseconds() {
    assert_eq!(rlbot_gui::aggregator::TICK_INTERVAL_MILLIS, 100);
    assert_eq!(rlbot_gui::aggregator::CONSOLE_TEXT_EVENT, "new-console-text");
}
