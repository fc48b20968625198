//! The reveal sequencer: a timed walk through the phases that first show a
//! message and then the pattern of the round, before the player's turn.
use vstd::prelude::*;
use vstd::string::StringExecFns;

use crate::pattern::{all_symbols, gen_pattern, pattern_text};

verus! {

/// How long the screen stays empty before the message, in milliseconds.
pub const IDLE_DELAY_MS: u64 = 1000;

/// How long the message is shown, in milliseconds.
pub const MESSAGE_MS: u64 = 3000;

/// How long the pattern is shown, in milliseconds.
pub const PATTERN_MS: u64 = 5000;

/// The number of symbols in the pattern of a round.
pub const PATTERN_LEN: u32 = 8;

/// Why a reveal starts: the start of the game, or the verdict of the last round.
#[derive(Clone, Copy, Debug, PartialEq, Eq, Structural)]
pub enum Message {
    Welcome,
    Win,
    Loss,
}

/// The text shown for a message.
pub open spec fn message_text(m: Message) -> Seq<char> {
    match m {
        Message::Welcome => "welcome"@,
        Message::Win => "you win"@,
        Message::Loss => "you lose"@,
    }
}

impl Message {
    /// The text shown for this message.
    pub fn text(&self) -> (t: String)
        ensures
            t@ == message_text(*self),
    {
        match self {
            Message::Welcome => String::from_str("welcome"),
            Message::Win => String::from_str("you win"),
            Message::Loss => String::from_str("you lose"),
        }
    }
}

/// Which content the sequencer is showing.
#[derive(Clone, Copy, Debug, PartialEq, Eq, Structural)]
pub enum RevealPhase {
    Idle,
    ShowingMessage,
    ShowingPattern,
    Done,
}

/// The position of a phase in the order in which they are visited.
pub open spec fn phase_rank(p: RevealPhase) -> nat {
    match p {
        RevealPhase::Idle => 0,
        RevealPhase::ShowingMessage => 1,
        RevealPhase::ShowingPattern => 2,
        RevealPhase::Done => 3,
    }
}

/// The phase that follows `p` when its timer runs out.
pub open spec fn next_phase(p: RevealPhase) -> RevealPhase {
    match p {
        RevealPhase::Idle => RevealPhase::ShowingMessage,
        RevealPhase::ShowingMessage => RevealPhase::ShowingPattern,
        _ => RevealPhase::Done,
    }
}

/// The time armed on entering phase `p`, in milliseconds.
pub open spec fn phase_duration(p: RevealPhase) -> nat {
    match p {
        RevealPhase::Idle => IDLE_DELAY_MS as nat,
        RevealPhase::ShowingMessage => MESSAGE_MS as nat,
        RevealPhase::ShowingPattern => PATTERN_MS as nat,
        RevealPhase::Done => 0,
    }
}

/// A handle of a text widget that the user interface created for the sequencer.
pub type LabelHandle = u64;

/// The abstract state of a sequencer.
pub struct RevealView {
    pub phase: RevealPhase,
    pub remaining_ms: nat,
    pub message: Seq<char>,
    pub pattern: Seq<char>,
    pub label: Option<LabelHandle>,
}

/// The state after `elapsed` milliseconds have passed in state `v`.
pub open spec fn reveal_step(v: RevealView, elapsed: nat) -> RevealView {
    if v.phase == RevealPhase::Done {
        v
    } else if elapsed < v.remaining_ms {
        RevealView { remaining_ms: (v.remaining_ms - elapsed) as nat, ..v }
    } else {
        RevealView {
            phase: next_phase(v.phase),
            remaining_ms: phase_duration(next_phase(v.phase)),
            label: None,
            ..v
        }
    }
}

/// Whether `elapsed` milliseconds in state `v` end the current phase.
pub open spec fn expires(v: RevealView, elapsed: nat) -> bool {
    v.phase != RevealPhase::Done && v.remaining_ms <= elapsed
}

/// What the user interface is asked to do after one update.
#[derive(Debug)]
pub enum RevealAction {
    /// Nothing changes on screen.
    Wait,
    /// Delete the label in `release`, if any, then show `text` in a new one.
    ShowText { release: Option<LabelHandle>, text: String },
    /// Delete the label in `release`, if any, and hand `pattern` to the
    /// player's turn.
    HandOff { release: Option<LabelHandle>, pattern: Vec<char> },
}

impl RevealAction {
    /// The label that this action deletes.
    pub open spec fn released(&self) -> Option<LabelHandle> {
        match self {
            RevealAction::Wait => None,
            RevealAction::ShowText { release, .. } => *release,
            RevealAction::HandOff { release, .. } => *release,
        }
    }
}

/// Whether `a` is what an update of `elapsed` milliseconds in state `v` asks for.
pub open spec fn action_of_step(v: RevealView, elapsed: nat, a: RevealAction) -> bool {
    if !expires(v, elapsed) {
        a is Wait
    } else {
        match next_phase(v.phase) {
            RevealPhase::ShowingMessage => a matches RevealAction::ShowText { release, text }
                && release == v.label && text@ == v.message,
            RevealPhase::ShowingPattern => a matches RevealAction::ShowText { release, text }
                && release == v.label && text@ == v.pattern,
            _ => a matches RevealAction::HandOff { release, pattern }
                && release == v.label && pattern@ == v.pattern,
        }
    }
}

/// The state after a sequence of updates, the first update first.
pub open spec fn run_updates(v: RevealView, ticks: Seq<nat>) -> RevealView
    decreases ticks.len(),
{
    if ticks.len() == 0 {
        v
    } else {
        reveal_step(run_updates(v, ticks.drop_last()), ticks.last())
    }
}

proof fn lemma_step_rank(v: RevealView, elapsed: nat)
    ensures
        phase_rank(reveal_step(v, elapsed).phase) == phase_rank(v.phase)
            || phase_rank(reveal_step(v, elapsed).phase) == phase_rank(v.phase) + 1,
        reveal_step(v, elapsed).phase == v.phase
            || reveal_step(v, elapsed).phase == next_phase(v.phase),
{
}

/// Phases are visited strictly in the order idle, message, pattern, done,
/// whatever time passes between updates: one update keeps the phase or moves
/// to the one right after it, so no phase is skipped, and a later state never
/// stands at an earlier phase, so none is visited twice.
pub proof fn lemma_phases_in_order(v: RevealView, ticks: Seq<nat>, i: int, j: int)
    requires
        0 <= i <= j <= ticks.len(),
    ensures
        phase_rank(run_updates(v, ticks.take(i)).phase) <= phase_rank(
            run_updates(v, ticks.take(j)).phase,
        ),
        j == i + 1 ==> {
            let before = run_updates(v, ticks.take(i)).phase;
            let after = run_updates(v, ticks.take(j)).phase;
            &&& after == before || after == next_phase(before)
            &&& phase_rank(after) == phase_rank(before) || phase_rank(after) == phase_rank(
                before,
            ) + 1
        },
    decreases j - i,
{
    if i < j {
        let prev = run_updates(v, ticks.take(j - 1));
        assert(ticks.take(j).drop_last() =~= ticks.take(j - 1));
        assert(ticks.take(j).last() == ticks[j - 1]);
        lemma_step_rank(prev, ticks[j - 1]);
        lemma_phases_in_order(v, ticks, i, j - 1);
    }
}

/// At most one label is live at a time. An update that changes the phase
/// deletes exactly the label held before it and holds none afterwards, so no
/// label leaks and none that was deleted is kept; an update that does not
/// change the phase deletes nothing and keeps its label.
pub proof fn lemma_single_live_label(v: RevealView, elapsed: nat, a: RevealAction)
    requires
        action_of_step(v, elapsed, a),
    ensures
        expires(v, elapsed) ==> a.released() == v.label && reveal_step(v, elapsed).label is None,
        !expires(v, elapsed) ==> a.released() is None && reveal_step(v, elapsed).label == v.label,
{
}

/// The sequencer that reveals one round's pattern.
pub struct ShowState {
    remaining_ms: u64,
    message: String,
    phase: RevealPhase,
    pattern: Vec<char>,
    label: Option<LabelHandle>,
}

impl View for ShowState {
    type V = RevealView;

    closed spec fn view(&self) -> RevealView {
        RevealView {
            phase: self.phase,
            remaining_ms: self.remaining_ms as nat,
            message: self.message@,
            pattern: self.pattern@,
            label: self.label,
        }
    }
}

impl ShowState {
    /// A sequencer for message `m` that reveals a fresh random pattern.
    pub fn new(m: Message) -> (s: ShowState)
        ensures
            s@.phase == RevealPhase::Idle,
            s@.remaining_ms == IDLE_DELAY_MS,
            s@.message == message_text(m),
            s@.pattern.len() == PATTERN_LEN,
            all_symbols(s@.pattern),
            s@.label is None,
    {
        ShowState::with_pattern(m, gen_pattern(PATTERN_LEN))
    }

    /// A sequencer for message `m` that reveals `pattern`.
    pub fn with_pattern(m: Message, pattern: Vec<char>) -> (s: ShowState)
        ensures
            s@.phase == RevealPhase::Idle,
            s@.remaining_ms == IDLE_DELAY_MS,
            s@.message == message_text(m),
            s@.pattern == pattern@,
            s@.label is None,
    {
        ShowState {
            remaining_ms: IDLE_DELAY_MS,
            message: m.text(),
            phase: RevealPhase::Idle,
            pattern,
            label: None,
        }
    }

    /// The current phase.
    pub fn phase(&self) -> (p: RevealPhase)
        ensures
            p == self@.phase,
    {
        self.phase
    }

    /// The time left in the current phase, in milliseconds.
    pub fn remaining_ms(&self) -> (r: u64)
        ensures
            r == self@.remaining_ms,
    {
        self.remaining_ms
    }

    /// The pattern this sequencer reveals.
    pub fn pattern(&self) -> (p: &Vec<char>)
        ensures
            p@ == self@.pattern,
    {
        &self.pattern
    }

    /// The label the sequencer currently holds.
    pub fn label(&self) -> (l: Option<LabelHandle>)
        ensures
            l == self@.label,
    {
        self.label
    }

    /// Records the label that the user interface created for the text last
    /// asked for, and hands back the one it displaces, which the caller deletes.
    pub fn attach_label(&mut self, handle: LabelHandle) -> (displaced: Option<LabelHandle>)
        ensures
            displaced == old(self)@.label,
            final(self)@ == (RevealView { label: Some(handle), ..old(self)@ }),
    {
        let displaced = self.label;
        self.label = Some(handle);
        displaced
    }

    /// Lets `elapsed_ms` milliseconds pass. When the current phase's time is
    /// up, moves to the next phase, arms its timer, gives up the current
    /// label and says what to show next.
    pub fn update(&mut self, elapsed_ms: u64) -> (a: RevealAction)
        ensures
            final(self)@ == reveal_step(old(self)@, elapsed_ms as nat),
            action_of_step(old(self)@, elapsed_ms as nat, a),
    {
        if self.phase == RevealPhase::Done {
            return RevealAction::Wait;
        }
        if elapsed_ms < self.remaining_ms {
            self.remaining_ms = self.remaining_ms - elapsed_ms;
            return RevealAction::Wait;
        }
        let release = self.label;
        self.label = None;
        match self.phase {
            RevealPhase::Idle => {
                self.phase = RevealPhase::ShowingMessage;
                self.remaining_ms = MESSAGE_MS;
                RevealAction::ShowText { release, text: self.message.clone() }
            },
            RevealPhase::ShowingMessage => {
                self.phase = RevealPhase::ShowingPattern;
                self.remaining_ms = PATTERN_MS;
                RevealAction::ShowText { release, text: pattern_text(&self.pattern) }
            },
            _ => {
                self.phase = RevealPhase::Done;
                self.remaining_ms = 0;
                RevealAction::HandOff { release, pattern: self.pattern.clone() }
            },
        }
    }
}

} // verus!
