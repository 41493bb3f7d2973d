//! The orchestrator: one trigger's way from capturing the character before
//! the caret to typing what is left of it, as a state machine. The caller
//! performs the actions a step hands out and reports back with an event.

use crate::jamo::{canonical_decomposition, delete_one_jamo, retype_sequence};
use crate::typist::{
    combination_steps, send_key_combination, sequence_steps, type_sequence, Action,
    COPY_PAUSE_MS, SETTLE_PAUSE_MS, VK_BACK, VK_C, VK_CONTROL, VK_LEFT, VK_SHIFT,
};
use vstd::prelude::*;
use vstd::string::StrSliceExecFns;

verus! {

/// How often a clipboard read is tried before the text counts as empty.
pub const READ_ATTEMPTS: u8 = 5;

/// Where the handling of a trigger stands.
#[derive(Clone, Copy, Debug, PartialEq, Eq, Structural)]
pub enum Phase {
    /// Waiting for a trigger.
    Idle,
    /// Reading the clipboard: first the text to save, then, once
    /// `snapshot_taken`, the copied selection. `failed_reads` counts the
    /// reads of the current text that gave nothing.
    CapturingSelection { snapshot_taken: bool, failed_reads: u8 },
    /// The capture is in; the saved text is being put back.
    Deciding,
    /// The captured character is being deleted.
    Deleting,
    /// What is left of the character is being typed.
    Retyping,
}

/// What the caller reports to the orchestrator.
pub enum Event {
    /// The hotkey fired.
    Trigger,
    /// A `ReadClipboard` action was performed; `None` where the read failed.
    ClipboardRead { text: Option<String> },
    /// The actions of the last step, which held no read, were performed.
    Performed,
}

/// An event with its text as a sequence of characters.
pub enum EventView {
    Trigger,
    ClipboardRead { text: Option<Seq<char>> },
    Performed,
}

impl View for Event {
    type V = EventView;

    open spec fn view(&self) -> EventView {
        match self {
            Event::Trigger => EventView::Trigger,
            Event::ClipboardRead { text: Some(t) } => EventView::ClipboardRead { text: Some(t@) },
            Event::ClipboardRead { text: None } => EventView::ClipboardRead { text: None },
            Event::Performed => EventView::Performed,
        }
    }
}

/// The state of one trigger's handling.
pub struct Orchestrator {
    phase: Phase,
    saved: String,
    captured: String,
    retype: String,
}

/// The orchestrator's state as plain values.
pub struct OrchestratorView {
    /// Where the handling stands.
    pub phase: Phase,
    /// The clipboard text to put back.
    pub saved: Seq<char>,
    /// The text copied from before the caret.
    pub captured: Seq<char>,
    /// The letters to type after the deletion.
    pub retype: Seq<char>,
}

impl View for Orchestrator {
    type V = OrchestratorView;

    closed spec fn view(&self) -> OrchestratorView {
        OrchestratorView {
            phase: self.phase,
            saved: self.saved@,
            captured: self.captured@,
            retype: self.retype@,
        }
    }
}

/// The state between triggers: nothing saved, captured or left to type.
pub open spec fn idle_view() -> OrchestratorView {
    OrchestratorView {
        phase: Phase::Idle,
        saved: Seq::empty(),
        captured: Seq::empty(),
        retype: Seq::empty(),
    }
}

/// Shift held while the caret moves one character to the left.
pub open spec fn select_previous_keys() -> Seq<(u16, bool)> {
    seq![(VK_SHIFT, true), (VK_LEFT, true), (VK_LEFT, false), (VK_SHIFT, false)]
}

/// Control held while C is tapped.
pub open spec fn copy_keys() -> Seq<(u16, bool)> {
    seq![(VK_CONTROL, true), (VK_C, true), (VK_C, false), (VK_CONTROL, false)]
}

/// The pause that lets things settle.
pub open spec fn settle_pause() -> Action {
    Action::Pause { millis: SETTLE_PAUSE_MS }
}

/// The pause after the copy.
pub open spec fn copy_pause() -> Action {
    Action::Pause { millis: COPY_PAUSE_MS }
}

/// Clearing the clipboard, selecting the character before the caret,
/// copying it and asking for what was copied, each followed by a pause,
/// the one after the copy longer than the one after the selection.
pub open spec fn capture_steps() -> Seq<Action> {
    seq![Action::ClearClipboard, settle_pause()] + combination_steps(select_previous_keys())
        + seq![settle_pause()] + combination_steps(copy_keys()) + seq![
        copy_pause(),
        Action::ReadClipboard,
    ]
}

/// One ordinary delete: backspace pressed and released.
pub open spec fn delete_steps() -> Seq<Action> {
    seq![Action::Key { vk: VK_BACK, down: true }, Action::Key { vk: VK_BACK, down: false }]
}

/// What a read comes to after `failed_reads` earlier failures: the text that
/// was read, the empty text once the attempts are used up, or `None` where
/// the read is to be tried again.
pub open spec fn settle_read(failed_reads: u8, text: Option<Seq<char>>) -> Option<Seq<char>> {
    match text {
        Some(t) => Some(t),
        None => if failed_reads >= READ_ATTEMPTS - 1 {
            Some(Seq::empty())
        } else {
            None
        },
    }
}

/// The step taken on a reported read while capturing. A failed read is
/// followed by a pause. A read that is not settled is asked for again. The
/// settled snapshot is saved and the capture begun; the settled capture is
/// kept and the snapshot put back.
pub open spec fn after_read(
    s: OrchestratorView,
    snapshot_taken: bool,
    failed_reads: u8,
    text: Option<Seq<char>>,
) -> (OrchestratorView, Seq<Action>) {
    let wait = if text.is_none() {
        seq![settle_pause()]
    } else {
        Seq::empty()
    };
    match settle_read(failed_reads, text) {
        None => (
            OrchestratorView {
                phase: Phase::CapturingSelection {
                    snapshot_taken,
                    failed_reads: (failed_reads + 1) as u8,
                },
                ..s
            },
            wait.push(Action::ReadClipboard),
        ),
        Some(t) => if snapshot_taken {
            (
                OrchestratorView { phase: Phase::Deciding, captured: t, ..s },
                wait.push(Action::RestoreClipboard),
            )
        } else {
            (
                OrchestratorView {
                    phase: Phase::CapturingSelection { snapshot_taken: true, failed_reads: 0 },
                    saved: t,
                    ..s
                },
                wait + capture_steps(),
            )
        },
    }
}

/// The step taken once the snapshot is back in place: anything but exactly
/// one captured character gets one ordinary delete and nothing more; one
/// character gets the delete, a pause, and its remaining letters to type.
pub open spec fn after_capture(s: OrchestratorView) -> (OrchestratorView, Seq<Action>) {
    if s.captured.len() != 1 {
        (idle_view(), delete_steps())
    } else {
        (
            OrchestratorView {
                phase: Phase::Deleting,
                retype: retype_sequence(s.captured[0], canonical_decomposition(s.captured[0])),
                ..s
            },
            delete_steps().push(settle_pause()),
        )
    }
}

/// The state after `e` is reported in state `s`, and the actions handed out.
/// An event that the phase does not wait for changes nothing and hands out
/// nothing.
pub open spec fn next(s: OrchestratorView, e: EventView) -> (OrchestratorView, Seq<Action>) {
    match (s.phase, e) {
        (Phase::Idle, EventView::Trigger) => (
            OrchestratorView {
                phase: Phase::CapturingSelection { snapshot_taken: false, failed_reads: 0 },
                ..s
            },
            seq![Action::ReadClipboard],
        ),
        (
            Phase::CapturingSelection { snapshot_taken, failed_reads },
            EventView::ClipboardRead { text },
        ) => after_read(s, snapshot_taken, failed_reads, text),
        (Phase::Deciding, EventView::Performed) => after_capture(s),
        (Phase::Deleting, EventView::Performed) => (
            OrchestratorView { phase: Phase::Retyping, ..s },
            sequence_steps(s.retype),
        ),
        (Phase::Retyping, EventView::Performed) => (idle_view(), Seq::empty()),
        _ => (s, Seq::empty()),
    }
}

/// In the capture, the pause that follows the copy is longer than the one
/// that follows the selection.
pub proof fn lemma_copy_pause_is_longer()
    ensures
        capture_steps().len() == 21,
        capture_steps()[8] == (Action::Key { vk: VK_SHIFT, down: false }),
        capture_steps()[10] == settle_pause(),
        capture_steps()[17] == (Action::Key { vk: VK_CONTROL, down: false }),
        capture_steps()[19] == copy_pause(),
        COPY_PAUSE_MS > SETTLE_PAUSE_MS,
{
}

/// The actions of the capture, from clearing the clipboard to reading it.
pub fn capture_script() -> (steps: Vec<Action>)
    ensures
        steps@ == capture_steps(),
{
    let mut select: Vec<(u16, bool)> = Vec::new();
    select.push((VK_SHIFT, true));
    select.push((VK_LEFT, true));
    select.push((VK_LEFT, false));
    select.push((VK_SHIFT, false));
    assert(select@ =~= select_previous_keys());
    let mut copy: Vec<(u16, bool)> = Vec::new();
    copy.push((VK_CONTROL, true));
    copy.push((VK_C, true));
    copy.push((VK_C, false));
    copy.push((VK_CONTROL, false));
    assert(copy@ =~= copy_keys());
    let mut steps: Vec<Action> = Vec::new();
    steps.push(Action::ClearClipboard);
    steps.push(Action::Pause { millis: SETTLE_PAUSE_MS });
    let mut selecting = send_key_combination(select.as_slice());
    steps.append(&mut selecting);
    steps.push(Action::Pause { millis: SETTLE_PAUSE_MS });
    let mut copying = send_key_combination(copy.as_slice());
    steps.append(&mut copying);
    steps.push(Action::Pause { millis: COPY_PAUSE_MS });
    steps.push(Action::ReadClipboard);
    assert(steps@ =~= capture_steps());
    steps
}

/// One ordinary delete as actions.
pub fn ordinary_delete() -> (steps: Vec<Action>)
    ensures
        steps@ == delete_steps(),
{
    let mut steps: Vec<Action> = Vec::new();
    steps.push(Action::Key { vk: VK_BACK, down: true });
    steps.push(Action::Key { vk: VK_BACK, down: false });
    assert(steps@ =~= delete_steps());
    steps
}

impl Orchestrator {
    /// An orchestrator that waits for a trigger.
    pub fn new() -> (r: Self)
        ensures
            r@ == idle_view(),
    {
        Orchestrator {
            phase: Phase::Idle,
            saved: String::new(),
            captured: String::new(),
            retype: String::new(),
        }
    }

    /// Where the handling stands.
    pub fn phase(&self) -> (r: Phase)
        ensures
            r == self@.phase,
    {
        self.phase
    }

    /// The text that a `RestoreClipboard` action puts back.
    pub fn saved_clipboard(&self) -> (r: &str)
        ensures
            r@ == self@.saved,
    {
        self.saved.as_str()
    }

    /// The letters that are, or are about to be, typed again.
    pub fn retype_letters(&self) -> (r: &str)
        ensures
            r@ == self@.retype,
    {
        self.retype.as_str()
    }

    /// Drops everything kept for the trigger and goes back to idle.
    fn reset(&mut self)
        ensures
            final(self)@ == idle_view(),
    {
        self.phase = Phase::Idle;
        self.saved = String::new();
        self.captured = String::new();
        self.retype = String::new();
    }

    /// Handles a reported read while capturing.
    fn read_reported(
        &mut self,
        snapshot_taken: bool,
        failed_reads: u8,
        text: Option<String>,
    ) -> (actions: Vec<Action>)
        ensures
            (final(self)@, actions@) == after_read(
                old(self)@,
                snapshot_taken,
                failed_reads,
                match text {
                    Some(t) => Some(t@),
                    None => None,
                },
            ),
    {
        let mut actions: Vec<Action> = Vec::new();
        let settled: Option<String> = match text {
            Some(t) => Some(t),
            None => {
                actions.push(Action::Pause { millis: SETTLE_PAUSE_MS });
                if failed_reads >= READ_ATTEMPTS - 1 {
                    Some(String::new())
                } else {
                    None
                }
            },
        };
        match settled {
            None => {
                self.phase = Phase::CapturingSelection {
                    snapshot_taken,
                    failed_reads: failed_reads + 1,
                };
                actions.push(Action::ReadClipboard);
            },
            Some(t) => {
                if snapshot_taken {
                    self.captured = t;
                    self.phase = Phase::Deciding;
                    actions.push(Action::RestoreClipboard);
                } else {
                    self.saved = t;
                    self.phase = Phase::CapturingSelection { snapshot_taken: true, failed_reads: 0 };
                    let mut script = capture_script();
                    actions.append(&mut script);
                }
            },
        }
        actions
    }

    /// Decides between the plain delete and the delete with retyping.
    fn capture_settled(&mut self) -> (actions: Vec<Action>)
        ensures
            (final(self)@, actions@) == after_capture(old(self)@),
    {
        let mut actions = ordinary_delete();
        if self.captured.as_str().unicode_len() != 1 {
            self.reset();
        } else {
            let ch = self.captured.as_str().get_char(0);
            self.retype = delete_one_jamo(ch);
            self.phase = Phase::Deleting;
            actions.push(Action::Pause { millis: SETTLE_PAUSE_MS });
        }
        actions
    }

    /// Takes one event and hands out the actions to perform, in order,
    /// before the next event is reported: a `ClipboardRead` where the
    /// actions end in a read, `Performed` otherwise, until the phase is
    /// idle again.
    pub fn step(&mut self, event: Event) -> (actions: Vec<Action>)
        ensures
            (final(self)@, actions@) == next(old(self)@, event@),
            consistent(old(self)@) ==> consistent(final(self)@),
    {
        proof {
            if consistent(self@) {
                lemma_step_keeps_consistency(self@, event@);
            }
        }
        match (self.phase, event) {
            (Phase::Idle, Event::Trigger) => {
                self.phase = Phase::CapturingSelection { snapshot_taken: false, failed_reads: 0 };
                let mut actions: Vec<Action> = Vec::new();
                actions.push(Action::ReadClipboard);
                assert(actions@ =~= seq![Action::ReadClipboard]);
                actions
            },
            (
                Phase::CapturingSelection { snapshot_taken, failed_reads },
                Event::ClipboardRead { text },
            ) => self.read_reported(snapshot_taken, failed_reads, text),
            (Phase::Deciding, Event::Performed) => self.capture_settled(),
            (Phase::Deleting, Event::Performed) => {
                self.phase = Phase::Retyping;
                type_sequence(self.retype.as_str())
            },
            (Phase::Retyping, Event::Performed) => {
                self.reset();
                Vec::new()
            },
            _ => Vec::new(),
        }
    }
}

/// A capture that does not settle on exactly one character, be it empty,
/// longer, or a read that failed to the last attempt, ends in one ordinary
/// delete: putting the snapshot back injects no key, the step after it
/// hands out the delete alone, and the orchestrator is idle again with
/// nothing left to type.
pub proof fn lemma_ambiguous_capture_falls_back(
    s: OrchestratorView,
    failed_reads: u8,
    text: Option<Seq<char>>,
)
    requires
        s.phase == (Phase::CapturingSelection { snapshot_taken: true, failed_reads }),
        settle_read(failed_reads, text) matches Some(t) && t.len() != 1,
    ensures
        ({
            let (restoring, restore) = next(s, EventView::ClipboardRead { text });
            let (after, delete) = next(restoring, EventView::Performed);
            &&& forall|i: int| 0 <= i < restore.len() ==> !(#[trigger] restore[i] is Key)
            &&& delete == delete_steps()
            &&& after == idle_view()
            &&& next(after, EventView::Performed) == (after, Seq::<Action>::empty())
        }),
{
}

/// Whatever was captured, exactly one ordinary delete is handed out when the
/// decision is taken: the delete's two key events come first, and no other
/// key event comes with them.
pub proof fn lemma_one_delete_per_capture(s: OrchestratorView)
    requires
        s.phase == Phase::Deciding,
    ensures
        ({
            let actions = next(s, EventView::Performed).1;
            &&& actions.len() >= 2
            &&& actions.take(2) == delete_steps()
            &&& forall|i: int| 2 <= i < actions.len() ==> !(#[trigger] actions[i] is Key)
        }),
{
    let actions = next(s, EventView::Performed).1;
    assert(actions.take(2) =~= delete_steps());
}

/// What holds of every state that is reached from idle: between triggers
/// nothing is kept; while capturing, fewer reads have failed than there are
/// attempts and nothing is captured yet; while deleting and retyping, exactly
/// one character was captured and the letters to type are those that taking
/// one jamo off it leaves.
pub open spec fn consistent(s: OrchestratorView) -> bool {
    match s.phase {
        Phase::Idle => s == idle_view(),
        Phase::CapturingSelection { snapshot_taken, failed_reads } => {
            &&& failed_reads < READ_ATTEMPTS
            &&& !snapshot_taken ==> s.saved.len() == 0
            &&& s.captured.len() == 0
            &&& s.retype.len() == 0
        },
        Phase::Deciding => s.retype.len() == 0,
        Phase::Deleting | Phase::Retyping => {
            &&& s.captured.len() == 1
            &&& s.retype == retype_sequence(s.captured[0], canonical_decomposition(s.captured[0]))
        },
    }
}

/// The idle state is consistent, and no event leads from a consistent state
/// to one that is not.
pub proof fn lemma_step_keeps_consistency(s: OrchestratorView, e: EventView)
    requires
        consistent(s),
    ensures
        consistent(idle_view()),
        consistent(next(s, e).0),
{
}

/// While a trigger is being handled, another trigger is ignored: the state
/// stays as it is and nothing is handed out.
pub proof fn lemma_busy_ignores_trigger(s: OrchestratorView)
    requires
        s.phase != Phase::Idle,
    ensures
        next(s, EventView::Trigger) == (s, Seq::<Action>::empty()),
{
}

/// A read is asked for again only while attempts are left: after the last
/// attempt has failed, the text is settled as empty.
pub proof fn lemma_reads_are_bounded(failed_reads: u8, text: Option<Seq<char>>)
    ensures
        settle_read(failed_reads, text).is_none() ==> text.is_none() && failed_reads + 1
            < READ_ATTEMPTS,
        text.is_none() && failed_reads + 1 >= READ_ATTEMPTS ==> settle_read(failed_reads, text)
            == Some(Seq::<char>::empty()),
{
}

} // verus!
