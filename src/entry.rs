//! The player's turn: clicks on the three regions are resolved to symbols and
//! matched against the pattern of the round.
use vstd::prelude::*;

verus! {

/// The verdict of a round.
#[derive(Clone, Copy, Debug, PartialEq, Eq, Structural)]
pub enum RoundResult {
    Win,
    Loss,
}

/// What a click did.
#[derive(Clone, Copy, Debug, PartialEq, Eq, Structural)]
pub enum ClickOutcome {
    /// The click was not on a symbol's region, or the round was already over:
    /// nothing changed.
    Ignored,
    /// The symbol was added and the round goes on.
    Accepted,
    /// The symbol was added and completed the input, with this verdict.
    Decided(RoundResult),
}

/// The identity of a clickable region of the user interface.
pub type RegionId = u32;

/// The symbol that region `id` stands for, if any: regions 0, 1 and 2 are
/// `A`, `B` and `C`.
pub open spec fn region_symbol(id: RegionId) -> Option<char> {
    if id == 0 {
        Some('A')
    } else if id == 1 {
        Some('B')
    } else if id == 2 {
        Some('C')
    } else {
        None
    }
}

/// Resolves a region to its symbol.
pub fn symbol_for_region(id: RegionId) -> (c: Option<char>)
    ensures
        c == region_symbol(id),
{
    if id == 0 {
        Some('A')
    } else if id == 1 {
        Some('B')
    } else if id == 2 {
        Some('C')
    } else {
        None
    }
}

/// The verdict once `entered` is as long as `pattern`: a win when the two are
/// equal symbol for symbol.
pub open spec fn verdict_of(pattern: Seq<char>, entered: Seq<char>) -> Option<RoundResult> {
    if entered.len() != pattern.len() {
        None
    } else if entered == pattern {
        Some(RoundResult::Win)
    } else {
        Some(RoundResult::Loss)
    }
}

/// The abstract state of a player's turn.
pub struct PlayView {
    pub pattern: Seq<char>,
    pub entered: Seq<char>,
}

/// The state after a click on region `id` in state `v`.
pub open spec fn click_step(v: PlayView, id: RegionId) -> PlayView {
    if v.entered.len() >= v.pattern.len() || region_symbol(id) is None {
        v
    } else {
        PlayView { entered: v.entered.push(region_symbol(id).unwrap()), ..v }
    }
}

/// What a click on region `id` in state `v` reports.
pub open spec fn click_outcome(v: PlayView, id: RegionId) -> ClickOutcome {
    if v.entered.len() >= v.pattern.len() || region_symbol(id) is None {
        ClickOutcome::Ignored
    } else {
        match verdict_of(v.pattern, click_step(v, id).entered) {
            Some(r) => ClickOutcome::Decided(r),
            None => ClickOutcome::Accepted,
        }
    }
}

/// A click on a region that stands for no symbol is ignored: the input stays
/// as it was and the turn does not end.
pub proof fn lemma_unmapped_click_ignored(v: PlayView, id: RegionId)
    requires
        region_symbol(id) is None,
    ensures
        click_step(v, id) == v,
        click_outcome(v, id) == ClickOutcome::Ignored,
{
}

/// The input never grows past the pattern: clicks keep it at most as long.
pub proof fn lemma_input_bounded(v: PlayView, id: RegionId)
    requires
        v.entered.len() <= v.pattern.len(),
    ensures
        click_step(v, id).entered.len() <= click_step(v, id).pattern.len(),
        click_step(v, id).pattern == v.pattern,
{
}

/// The player's turn: the pattern to reproduce and the symbols entered so far.
pub struct PlayState {
    pattern: Vec<char>,
    entered: Vec<char>,
}

impl View for PlayState {
    type V = PlayView;

    closed spec fn view(&self) -> PlayView {
        PlayView { pattern: self.pattern@, entered: self.entered@ }
    }
}

/// Compares two sequences symbol for symbol.
fn same_symbols(a: &Vec<char>, b: &Vec<char>) -> (r: bool)
    ensures
        r == (a@ == b@),
{
    if a.len() != b.len() {
        return false;
    }
    let mut i: usize = 0;
    while i < a.len()
        invariant
            a.len() == b.len(),
            i <= a.len(),
            forall|k: int| 0 <= k < i ==> a@[k] == b@[k],
        decreases a.len() - i,
    {
        if a[i] != b[i] {
            return false;
        }
        i = i + 1;
    }
    assert(a@ =~= b@);
    true
}

impl PlayState {
    /// A turn on `pattern`, with nothing entered yet.
    pub fn new(pattern: Vec<char>) -> (s: PlayState)
        ensures
            s@.pattern == pattern@,
            s@.entered == Seq::<char>::empty(),
    {
        let s = PlayState { pattern, entered: Vec::new() };
        assert(s@.entered =~= Seq::<char>::empty());
        s
    }

    /// The pattern to reproduce.
    pub fn pattern(&self) -> (p: &Vec<char>)
        ensures
            p@ == self@.pattern,
    {
        &self.pattern
    }

    /// The symbols entered so far.
    pub fn entered(&self) -> (e: &Vec<char>)
        ensures
            e@ == self@.entered,
    {
        &self.entered
    }

    /// The verdict, once as many symbols were entered as the pattern holds;
    /// an empty pattern is won before any click.
    pub fn verdict(&self) -> (r: Option<RoundResult>)
        ensures
            r == verdict_of(self@.pattern, self@.entered),
    {
        if self.entered.len() != self.pattern.len() {
            None
        } else if same_symbols(&self.entered, &self.pattern) {
            Some(RoundResult::Win)
        } else {
            Some(RoundResult::Loss)
        }
    }

    /// Handles a click on region `id`: a region that stands for a symbol adds
    /// it to the input, and the input that reaches the pattern's length is
    /// judged at once. Other regions, and clicks after the input is complete,
    /// change nothing.
    pub fn handle_click(&mut self, id: RegionId) -> (o: ClickOutcome)
        ensures
            final(self)@ == click_step(old(self)@, id),
            o == click_outcome(old(self)@, id),
    {
        if self.entered.len() >= self.pattern.len() {
            return ClickOutcome::Ignored;
        }
        match symbol_for_region(id) {
            None => ClickOutcome::Ignored,
            Some(c) => {
                self.entered.push(c);
                match self.verdict() {
                    Some(r) => ClickOutcome::Decided(r),
                    None => ClickOutcome::Accepted,
                }
            },
        }
    }
}

} // verus!
