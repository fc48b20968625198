use simon_says::entry::{symbol_for_region, ClickOutcome, PlayState, RoundResult};
use simon_says::game::{message_for, Game};
use simon_says::pattern::{gen_pattern, pattern_from_draws, pattern_text, symbol_for_draw};
use simon_says::sequencer::{
    Message, RevealAction, RevealPhase, ShowState, IDLE_DELAY_MS, MESSAGE_MS, PATTERN_LEN,
    PATTERN_MS,
};

fn is_symbol(c: char) -> bool {
    c == 'A' || c == 'B' || c == 'C'
}

#[test]
fn generated_patterns_have_requested_length_and_symbols() {
    for n in [0u32, 1, 2, 8, 100] {
        let p = gen_pattern(n);
        assert_eq!(p.len(), n as usize);
        assert!(p.iter().all(|c| is_symbol(*c)));
    }
}

#[test]
fn generated_patterns_use_every_symbol_eventually() {
    let p = gen_pattern(600);
    assert!(p.contains(&'A'));
    assert!(p.contains(&'B'));
    assert!(p.contains(&'C'));
}

#[test]
fn draws_map_to_symbols() {
    assert_eq!(symbol_for_draw(1), 'A');
    assert_eq!(symbol_for_draw(2), 'B');
    assert_eq!(symbol_for_draw(3), 'C');
    assert_eq!(pattern_from_draws(&vec![3, 1, 2, 2]), vec!['C', 'A', 'B', 'B']);
    assert_eq!(pattern_from_draws(&vec![]), Vec::<char>::new());
}

#[test]
fn pattern_text_concatenates_symbols() {
    assert_eq!(pattern_text(&vec!['A', 'C', 'B']), "ACB");
    assert_eq!(pattern_text(&vec![]), "");
}

#[test]
fn message_texts() {
    assert_eq!(Message::Welcome.text(), "welcome");
    assert_eq!(Message::Win.text(), "you win");
    assert_eq!(Message::Loss.text(), "you lose");
    assert_eq!(message_for(RoundResult::Win), Message::Win);
    assert_eq!(message_for(RoundResult::Loss), Message::Loss);
}

#[test]
fn regions_map_to_symbols() {
    assert_eq!(symbol_for_region(0), Some('A'));
    assert_eq!(symbol_for_region(1), Some('B'));
    assert_eq!(symbol_for_region(2), Some('C'));
    assert_eq!(symbol_for_region(3), None);
    assert_eq!(symbol_for_region(4), None);
}

#[test]
fn correct_clicks_win() {
    let mut p = PlayState::new(vec!['A', 'B', 'C']);
    assert_eq!(p.handle_click(0), ClickOutcome::Accepted);
    assert_eq!(p.handle_click(1), ClickOutcome::Accepted);
    assert_eq!(p.handle_click(2), ClickOutcome::Decided(RoundResult::Win));
    assert_eq!(p.verdict(), Some(RoundResult::Win));
    assert_eq!(p.entered(), &vec!['A', 'B', 'C']);
}

#[test]
fn swapped_clicks_lose_at_third_click() {
    let mut p = PlayState::new(vec!['A', 'B', 'C']);
    assert_eq!(p.handle_click(0), ClickOutcome::Accepted);
    assert_eq!(p.handle_click(2), ClickOutcome::Accepted);
    assert_eq!(p.verdict(), None);
    assert_eq!(p.handle_click(1), ClickOutcome::Decided(RoundResult::Loss));
    assert_eq!(p.verdict(), Some(RoundResult::Loss));
}

#[test]
fn empty_pattern_is_won_without_clicks() {
    let p = PlayState::new(vec![]);
    assert_eq!(p.verdict(), Some(RoundResult::Win));
}

#[test]
fn unmapped_click_changes_nothing() {
    let mut p = PlayState::new(vec!['A', 'B']);
    assert_eq!(p.handle_click(0), ClickOutcome::Accepted);
    assert_eq!(p.handle_click(4), ClickOutcome::Ignored);
    assert_eq!(p.handle_click(99), ClickOutcome::Ignored);
    assert_eq!(p.entered(), &vec!['A']);
    assert_eq!(p.verdict(), None);
}

#[test]
fn clicks_after_verdict_are_ignored() {
    let mut p = PlayState::new(vec!['B']);
    assert_eq!(p.handle_click(0), ClickOutcome::Decided(RoundResult::Loss));
    assert_eq!(p.handle_click(1), ClickOutcome::Ignored);
    assert_eq!(p.entered(), &vec!['A']);
    assert_eq!(p.verdict(), Some(RoundResult::Loss));
}

#[test]
fn new_sequencer_starts_idle_with_fresh_pattern() {
    let s = ShowState::new(Message::Welcome);
    assert_eq!(s.phase(), RevealPhase::Idle);
    assert_eq!(s.remaining_ms(), IDLE_DELAY_MS);
    assert_eq!(s.pattern().len(), PATTERN_LEN as usize);
    assert!(s.pattern().iter().all(|c| is_symbol(*c)));
    assert_eq!(s.label(), None);
}

#[test]
fn sequencer_walks_phases_in_order() {
    let mut s = ShowState::with_pattern(Message::Win, vec!['C', 'A']);
    assert!(matches!(s.update(400), RevealAction::Wait));
    assert_eq!(s.phase(), RevealPhase::Idle);
    assert_eq!(s.remaining_ms(), 600);
    match s.update(600) {
        RevealAction::ShowText { release, text } => {
            assert_eq!(release, None);
            assert_eq!(text, "you win");
        }
        other => panic!("unexpected {:?}", other),
    }
    assert_eq!(s.phase(), RevealPhase::ShowingMessage);
    assert_eq!(s.remaining_ms(), MESSAGE_MS);
    assert_eq!(s.attach_label(10), None);
    assert!(matches!(s.update(2999), RevealAction::Wait));
    assert_eq!(s.phase(), RevealPhase::ShowingMessage);
    match s.update(5) {
        RevealAction::ShowText { release, text } => {
            assert_eq!(release, Some(10));
            assert_eq!(text, "CA");
        }
        other => panic!("unexpected {:?}", other),
    }
    assert_eq!(s.phase(), RevealPhase::ShowingPattern);
    assert_eq!(s.remaining_ms(), PATTERN_MS);
    assert_eq!(s.label(), None);
    assert_eq!(s.attach_label(11), None);
    match s.update(60_000) {
        RevealAction::HandOff { release, pattern } => {
            assert_eq!(release, Some(11));
            assert_eq!(pattern, vec!['C', 'A']);
        }
        other => panic!("unexpected {:?}", other),
    }
    assert_eq!(s.phase(), RevealPhase::Done);
    assert_eq!(s.label(), None);
    assert!(matches!(s.update(60_000), RevealAction::Wait));
    assert_eq!(s.phase(), RevealPhase::Done);
}

#[test]
fn a_huge_tick_moves_one_phase_only() {
    let mut s = ShowState::with_pattern(Message::Loss, vec!['A']);
    let mut seen = vec![s.phase()];
    for _ in 0..6 {
        s.update(u64::MAX);
        seen.push(s.phase());
    }
    assert_eq!(
        seen,
        vec![
            RevealPhase::Idle,
            RevealPhase::ShowingMessage,
            RevealPhase::ShowingPattern,
            RevealPhase::Done,
            RevealPhase::Done,
            RevealPhase::Done,
            RevealPhase::Done,
        ]
    );
}

#[test]
fn at_most_one_label_is_held() {
    let mut s = ShowState::with_pattern(Message::Welcome, vec!['B']);
    assert_eq!(s.attach_label(1), None);
    assert_eq!(s.attach_label(2), Some(1));
    assert_eq!(s.label(), Some(2));
    match s.update(IDLE_DELAY_MS) {
        RevealAction::ShowText { release, .. } => assert_eq!(release, Some(2)),
        other => panic!("unexpected {:?}", other),
    }
    assert_eq!(s.label(), None);
}

#[test]
fn game_runs_a_round_and_announces_the_verdict() {
    let mut g = Game::from_reveal(ShowState::with_pattern(Message::Welcome, vec!['A', 'C']));
    assert!(!g.is_entry());
    assert_eq!(g.click(0), ClickOutcome::Ignored);
    assert!(matches!(g.tick(IDLE_DELAY_MS), RevealAction::ShowText { .. }));
    assert_eq!(g.attach_label(5), None);
    assert!(matches!(g.tick(MESSAGE_MS), RevealAction::ShowText { release: Some(5), .. }));
    match g.tick(PATTERN_MS) {
        RevealAction::HandOff { release, pattern } => {
            assert_eq!(release, None);
            assert_eq!(pattern, vec!['A', 'C']);
        }
        other => panic!("unexpected {:?}", other),
    }
    assert!(g.is_entry());
    assert_eq!(g.attach_label(6), Some(6));
    assert!(matches!(g.tick(1000), RevealAction::Wait));
    assert_eq!(g.click(7), ClickOutcome::Ignored);
    assert_eq!(g.click(0), ClickOutcome::Accepted);
    assert_eq!(g.click(2), ClickOutcome::Decided(RoundResult::Win));
    assert!(!g.is_entry());
    assert!(matches!(g.tick(IDLE_DELAY_MS - 1), RevealAction::Wait));
    match g.tick(1) {
        RevealAction::ShowText { text, .. } => assert_eq!(text, "you win"),
        other => panic!("unexpected {:?}", other),
    }
}

#[test]
fn game_with_empty_pattern_is_won_without_clicks() {
    let mut g = Game::from_reveal(ShowState::with_pattern(Message::Welcome, vec![]));
    g.tick(IDLE_DELAY_MS);
    g.tick(MESSAGE_MS);
    assert!(matches!(g.tick(PATTERN_MS), RevealAction::HandOff { .. }));
    assert!(g.is_entry());
    assert!(matches!(g.tick(0), RevealAction::Wait));
    assert!(!g.is_entry());
    match g.tick(IDLE_DELAY_MS) {
        RevealAction::ShowText { text, .. } => assert_eq!(text, "you win"),
        other => panic!("unexpected {:?}", other),
    }
}

#[test]
fn new_game_welcomes() {
    let mut g = Game::new();
    assert!(!g.is_entry());
    match g.tick(IDLE_DELAY_MS) {
        RevealAction::ShowText { text, .. } => assert_eq!(text, "welcome"),
        other => panic!("unexpected {:?}", other),
    }
    match g.tick(MESSAGE_MS) {
        RevealAction::ShowText { text, .. } => {
            assert_eq!(text.len(), PATTERN_LEN as usize);
            assert!(text.chars().all(is_symbol));
        }
        other => panic!("unexpected {:?}", other),
    }
}
