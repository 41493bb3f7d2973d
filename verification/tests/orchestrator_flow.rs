use jamo_backspace::orchestrator::{
    capture_script, ordinary_delete, Event, Orchestrator, Phase, READ_ATTEMPTS,
};
use jamo_backspace::typist::{type_sequence, Action};

fn key(vk: u16, down: bool) -> Action {
    Action::Key { vk, down }
}

fn pause(millis: u64) -> Action {
    Action::Pause { millis }
}

fn read(text: &str) -> Event {
    Event::ClipboardRead { text: Some(text.to_string()) }
}

fn failed() -> Event {
    Event::ClipboardRead { text: None }
}

/// Runs a trigger up to the point where the capture is in and the snapshot
/// is about to be put back.
fn captured(saved: &str, text: &str) -> Orchestrator {
    let mut o = Orchestrator::new();
    assert_eq!(o.step(Event::Trigger), vec![Action::ReadClipboard]);
    assert_eq!(o.step(read(saved)), capture_script());
    assert_eq!(o.step(read(text)), vec![Action::RestoreClipboard]);
    assert_eq!(o.phase(), Phase::Deciding);
    assert_eq!(o.saved_clipboard(), saved);
    o
}

#[test]
fn capture_script_selects_then_copies() {
    assert_eq!(
        capture_script(),
        vec![
            Action::ClearClipboard,
            pause(50),
            key(0x10, true),
            pause(10),
            key(0x25, true),
            pause(10),
            key(0x25, false),
            pause(10),
            key(0x10, false),
            pause(10),
            pause(50),
            key(0x11, true),
            pause(10),
            key(0x43, true),
            pause(10),
            key(0x43, false),
            pause(10),
            key(0x11, false),
            pause(10),
            pause(100),
            Action::ReadClipboard,
        ]
    );
}

#[test]
fn ordinary_delete_is_one_backspace() {
    assert_eq!(ordinary_delete(), vec![key(0x08, true), key(0x08, false)]);
}

#[test]
fn trigger_starts_the_capture() {
    let mut o = Orchestrator::new();
    assert_eq!(o.phase(), Phase::Idle);
    assert_eq!(o.step(Event::Trigger), vec![Action::ReadClipboard]);
    assert_eq!(o.phase(), Phase::CapturingSelection { snapshot_taken: false, failed_reads: 0 });
    assert_eq!(o.step(read("old")), capture_script());
    assert_eq!(o.phase(), Phase::CapturingSelection { snapshot_taken: true, failed_reads: 0 });
    assert_eq!(o.saved_clipboard(), "old");
}

#[test]
fn one_syllable_is_deleted_and_retyped() {
    let mut o = captured("old", "\u{C77D}");
    assert_eq!(o.step(Event::Performed), vec![key(0x08, true), key(0x08, false), pause(50)]);
    assert_eq!(o.phase(), Phase::Deleting);
    assert_eq!(o.retype_letters(), "\u{3147}\u{3163}\u{3139}");
    assert_eq!(o.step(Event::Performed), type_sequence("\u{3147}\u{3163}\u{3139}"));
    assert_eq!(o.phase(), Phase::Retyping);
    assert_eq!(o.step(Event::Performed), Vec::new());
    assert_eq!(o.phase(), Phase::Idle);
    assert_eq!(o.saved_clipboard(), "");
    assert_eq!(o.retype_letters(), "");
}

#[test]
fn standalone_jamo_is_deleted_and_nothing_retyped() {
    let mut o = captured("", "\u{3131}");
    assert_eq!(o.step(Event::Performed), vec![key(0x08, true), key(0x08, false), pause(50)]);
    assert_eq!(o.step(Event::Performed), Vec::new());
    assert_eq!(o.phase(), Phase::Retyping);
    assert_eq!(o.step(Event::Performed), Vec::new());
    assert_eq!(o.phase(), Phase::Idle);
}

#[test]
fn empty_capture_falls_back_to_plain_delete() {
    let mut o = captured("old", "");
    assert_eq!(o.step(Event::Performed), vec![key(0x08, true), key(0x08, false)]);
    assert_eq!(o.phase(), Phase::Idle);
    assert_eq!(o.step(Event::Performed), Vec::new());
    assert_eq!(o.phase(), Phase::Idle);
}

#[test]
fn long_capture_falls_back_to_plain_delete() {
    let mut o = captured("old", "\u{AC00}\u{AC01}");
    assert_eq!(o.step(Event::Performed), vec![key(0x08, true), key(0x08, false)]);
    assert_eq!(o.phase(), Phase::Idle);
    assert_eq!(o.retype_letters(), "");
}

#[test]
fn failed_capture_falls_back_to_plain_delete() {
    let mut o = Orchestrator::new();
    o.step(Event::Trigger);
    o.step(read("old"));
    for n in 1..READ_ATTEMPTS {
        assert_eq!(o.step(failed()), vec![pause(50), Action::ReadClipboard]);
        assert_eq!(
            o.phase(),
            Phase::CapturingSelection { snapshot_taken: true, failed_reads: n }
        );
    }
    assert_eq!(o.step(failed()), vec![pause(50), Action::RestoreClipboard]);
    assert_eq!(o.phase(), Phase::Deciding);
    assert_eq!(o.saved_clipboard(), "old");
    assert_eq!(o.step(Event::Performed), vec![key(0x08, true), key(0x08, false)]);
    assert_eq!(o.phase(), Phase::Idle);
}

#[test]
fn failed_snapshot_counts_as_empty() {
    let mut o = Orchestrator::new();
    o.step(Event::Trigger);
    for _ in 1..READ_ATTEMPTS {
        assert_eq!(o.step(failed()), vec![pause(50), Action::ReadClipboard]);
    }
    let mut expected = vec![pause(50)];
    expected.extend(capture_script());
    assert_eq!(o.step(failed()), expected);
    assert_eq!(o.phase(), Phase::CapturingSelection { snapshot_taken: true, failed_reads: 0 });
    assert_eq!(o.saved_clipboard(), "");
}

#[test]
fn read_succeeds_after_retries() {
    let mut o = Orchestrator::new();
    o.step(Event::Trigger);
    o.step(read("old"));
    assert_eq!(o.step(failed()), vec![pause(50), Action::ReadClipboard]);
    assert_eq!(o.step(failed()), vec![pause(50), Action::ReadClipboard]);
    assert_eq!(o.step(read("\u{AC00}")), vec![Action::RestoreClipboard]);
    assert_eq!(o.step(Event::Performed), vec![key(0x08, true), key(0x08, false), pause(50)]);
    assert_eq!(o.retype_letters(), "\u{3131}");
}

#[test]
fn events_out_of_turn_change_nothing() {
    let mut o = Orchestrator::new();
    assert_eq!(o.step(Event::Performed), Vec::new());
    assert_eq!(o.step(read("x")), Vec::new());
    assert_eq!(o.phase(), Phase::Idle);
    o.step(Event::Trigger);
    assert_eq!(o.step(Event::Trigger), Vec::new());
    assert_eq!(o.step(Event::Performed), Vec::new());
    assert_eq!(o.phase(), Phase::CapturingSelection { snapshot_taken: false, failed_reads: 0 });
    let mut o = captured("old", "\u{AC01}");
    assert_eq!(o.step(Event::Trigger), Vec::new());
    assert_eq!(o.step(failed()), Vec::new());
    assert_eq!(o.phase(), Phase::Deciding);
    assert_eq!(o.saved_clipboard(), "old");
}
