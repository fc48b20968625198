//! The whole game: a reveal, then the player's turn, then a reveal of the
//! verdict with the next round's pattern, and so on.
use vstd::prelude::*;

use crate::entry::{
    click_outcome, click_step, verdict_of, ClickOutcome, PlayState, PlayView, RegionId, RoundResult,
};
use crate::pattern::all_symbols;
use crate::sequencer::{
    action_of_step, message_text, reveal_step, LabelHandle, Message, RevealAction, RevealPhase,
    RevealView, ShowState, IDLE_DELAY_MS, PATTERN_LEN,
};

verus! {

/// The message that announces a verdict.
pub open spec fn verdict_message(r: RoundResult) -> Message {
    match r {
        RoundResult::Win => Message::Win,
        RoundResult::Loss => Message::Loss,
    }
}

/// The message that announces verdict `r`.
pub fn message_for(r: RoundResult) -> (m: Message)
    ensures
        m == verdict_message(r),
{
    match r {
        RoundResult::Win => Message::Win,
        RoundResult::Loss => Message::Loss,
    }
}

/// The abstract state of a game: the scene that is active.
pub enum SceneView {
    Reveal(RevealView),
    Entry(PlayView),
}

/// Whether `v` is a sequencer fresh from `ShowState::new(m)`.
pub open spec fn fresh_reveal(v: SceneView, m: Message) -> bool {
    v matches SceneView::Reveal(w) && w.phase == RevealPhase::Idle && w.remaining_ms
        == IDLE_DELAY_MS && w.message == message_text(m) && w.pattern.len() == PATTERN_LEN
        && all_symbols(w.pattern) && w.label is None
}

/// The scene that is active.
pub enum Scene {
    Reveal(ShowState),
    Entry(PlayState),
}

/// A game in progress: one scene active at a time.
pub struct Game {
    scene: Scene,
}

impl View for Game {
    type V = SceneView;

    closed spec fn view(&self) -> SceneView {
        match &self.scene {
            Scene::Reveal(s) => SceneView::Reveal(s@),
            Scene::Entry(p) => SceneView::Entry(p@),
        }
    }
}

impl Game {
    /// A game that starts with the welcome message and a fresh pattern.
    pub fn new() -> (g: Game)
        ensures
            fresh_reveal(g@, Message::Welcome),
    {
        Game { scene: Scene::Reveal(ShowState::new(Message::Welcome)) }
    }

    /// A game that starts with `reveal`.
    pub fn from_reveal(reveal: ShowState) -> (g: Game)
        ensures
            g@ == SceneView::Reveal(reveal@),
    {
        Game { scene: Scene::Reveal(reveal) }
    }

    /// Whether the player's turn is active.
    pub fn is_entry(&self) -> (r: bool)
        ensures
            r == (self@ is Entry),
    {
        match &self.scene {
            Scene::Reveal(_) => false,
            Scene::Entry(_) => true,
        }
    }

    /// Records the label created for the text last asked for, and hands back
    /// the one it displaces. Outside a reveal there is no label to hold: the
    /// handle is handed back at once.
    pub fn attach_label(&mut self, handle: LabelHandle) -> (displaced: Option<LabelHandle>)
        ensures
            old(self)@ matches SceneView::Reveal(v) ==> displaced == v.label && final(self)@
                == SceneView::Reveal(RevealView { label: Some(handle), ..v }),
            old(self)@ is Entry ==> displaced == Some(handle) && final(self)@ == old(self)@,
    {
        match &mut self.scene {
            Scene::Reveal(s) => s.attach_label(handle),
            Scene::Entry(_) => Some(handle),
        }
    }

    /// Lets `elapsed_ms` milliseconds pass. A reveal advances its timer and,
    /// when its last phase ends, hands its pattern to a new turn of the player. A turn
    /// whose verdict is already known (on an empty pattern) gives way to the
    /// reveal of that verdict.
    pub fn tick(&mut self, elapsed_ms: u64) -> (a: RevealAction)
        ensures
            old(self)@ matches SceneView::Reveal(v) ==> {
                let w = reveal_step(v, elapsed_ms as nat);
                &&& action_of_step(v, elapsed_ms as nat, a)
                &&& !(a is HandOff) ==> final(self)@ == SceneView::Reveal(w)
                &&& a is HandOff ==> final(self)@ == SceneView::Entry(
                    PlayView { pattern: v.pattern, entered: Seq::empty() },
                )
            },
            old(self)@ matches SceneView::Entry(p) ==> {
                &&& a is Wait
                &&& verdict_of(p.pattern, p.entered) is None ==> final(self)@ == old(self)@
                &&& verdict_of(p.pattern, p.entered) matches Some(r) ==> fresh_reveal(
                    final(self)@,
                    verdict_message(r),
                )
            },
    {
        match &mut self.scene {
            Scene::Reveal(s) => {
                let a = s.update(elapsed_ms);
                match &a {
                    RevealAction::HandOff { pattern, .. } => {
                        self.scene = Scene::Entry(PlayState::new(pattern.clone()));
                    },
                    _ => {},
                }
                a
            },
            Scene::Entry(p) => {
                match p.verdict() {
                    Some(r) => {
                        self.scene = Scene::Reveal(ShowState::new(message_for(r)));
                    },
                    None => {},
                }
                RevealAction::Wait
            },
        }
    }

    /// Handles a click on region `id`. During a reveal clicks are ignored; in
    /// the player's turn the click is matched, and a verdict starts the reveal
    /// that announces it with the next round's pattern.
    pub fn click(&mut self, id: RegionId) -> (o: ClickOutcome)
        ensures
            old(self)@ is Reveal ==> o == ClickOutcome::Ignored && final(self)@ == old(self)@,
            old(self)@ matches SceneView::Entry(p) ==> {
                &&& o == click_outcome(p, id)
                &&& !(o is Decided) ==> final(self)@ == SceneView::Entry(click_step(p, id))
                &&& o matches ClickOutcome::Decided(r) ==> fresh_reveal(
                    final(self)@,
                    verdict_message(r),
                )
            },
    {
        match &mut self.scene {
            Scene::Reveal(_) => ClickOutcome::Ignored,
            Scene::Entry(p) => {
                let o = p.handle_click(id);
                match o {
                    ClickOutcome::Decided(r) => {
                        self.scene = Scene::Reveal(ShowState::new(message_for(r)));
                    },
                    _ => {},
                }
                o
            },
        }
    }
}

} // verus!
