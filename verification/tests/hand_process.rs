use poker_domain::hand_machine::{Action, BettingPhase, BlindKind, Command, Phase, PlayerState};
use poker_domain::hand_process::HandProcess;

fn two_players() -> Vec<PlayerState> {
    vec![
        PlayerState::new(0, "player-1".into(), 500),
        PlayerState::new(1, "player-2".into(), 500),
    ]
}

#[test]
fn hand_started_seats_players_and_enters_dealing() {
    let mut p = HandProcess::new();
    let players = two_players();
    p.on_hand_started(1, "TEXAS_HOLDEM", 0, 5, 10, &players);
    assert_eq!(p.phase, Phase::Dealing);
    assert_eq!(p.players.len(), 2);
    assert_eq!(p.dealer_position, 0);
}

#[test]
fn dealing_to_blinds_emits_post_small() {
    let mut p = HandProcess::new();
    p.on_hand_started(1, "TEXAS_HOLDEM", 0, 5, 10, &two_players());
    p.handle_event();
    assert_eq!(p.phase, Phase::PostingBlinds);
    assert!(matches!(
        p.emitted[0],
        Command::PostBlind {
            kind: BlindKind::Small
        }
    ));
}

fn three_players_after_blinds() -> HandProcess {
    // Dealer at 0, SB at 1 (posted 5), BB at 2 (posted 10).
    let mut p = HandProcess::new();
    p.players.insert(0, PlayerState::new(0, "p1".into(), 1000));
    let mut sb = PlayerState::new(1, "p2".into(), 995);
    sb.bet_this_round = 5;
    p.players.insert(1, sb);
    let mut bb = PlayerState::new(2, "p3".into(), 990);
    bb.bet_this_round = 10;
    p.players.insert(2, bb);
    p.dealer_position = 0;
    p.current_bet = 10;
    p.pot_total = 15;
    p.action_on = 0;
    p.betting_phase = Some(BettingPhase::Preflop);
    p.phase = Phase::Betting;
    p
}

#[test]
fn is_betting_complete_false_when_bb_has_option() {
    let mut p = three_players_after_blinds();
    p.apply_player_action(0, Action::Call, 10);
    p.apply_player_action(1, Action::Call, 5);
    assert!(
        !p.is_betting_complete(),
        "BB option should keep round open: {:?}",
        p.players
    );
}

#[test]
fn is_betting_complete_true_when_bb_acts() {
    let mut p = three_players_after_blinds();
    p.apply_player_action(0, Action::Call, 10);
    p.apply_player_action(1, Action::Call, 5);
    p.apply_player_action(2, Action::Check, 0);
    assert!(p.is_betting_complete());
}

#[test]
fn is_betting_complete_true_with_one_active_left() {
    let mut p = HandProcess::new();
    p.players.insert(0, PlayerState::new(0, "p1".into(), 500));
    let mut p2 = PlayerState::new(1, "p2".into(), 500);
    p2.has_folded = true;
    p.players.insert(1, p2);
    assert!(p.is_betting_complete());
}

#[test]
fn apply_player_action_call_updates_chip_state() {
    let mut p = three_players_after_blinds();
    let pot_before = p.pot_total;
    p.apply_player_action(0, Action::Call, 10);
    let actor = p.players.get(0).unwrap();
    assert_eq!(actor.bet_this_round, 10);
    assert_eq!(actor.stack, 990);
    assert!(actor.has_acted);
    assert_eq!(p.pot_total, pot_before + 10);
    assert_eq!(p.current_bet, 10, "CALL must not raise current_bet");
}

#[test]
fn apply_player_action_raise_lifts_current_bet_and_reopens_action() {
    let mut p = three_players_after_blinds();
    p.players.set_has_acted(0, true);
    p.players.set_has_acted(1, true);
    // BB raises to 30 (puts in 20 chips on top of their 10 blind).
    p.apply_player_action(2, Action::Raise, 20);
    assert_eq!(p.current_bet, 30);
    assert_eq!(p.players.get(2).unwrap().bet_this_round, 30);
    assert_eq!(p.players.get(2).unwrap().stack, 970);
    assert!(p.players.get(2).unwrap().has_acted, "raiser keeps has_acted=true");
    assert!(!p.players.get(0).unwrap().has_acted, "raise reopens action for dealer");
    assert!(!p.players.get(1).unwrap().has_acted, "raise reopens action for SB");
}

#[test]
fn advance_action_on_wraps_and_skips_folded() {
    let mut p = HandProcess::new();
    p.players.insert(0, PlayerState::new(0, "p1".into(), 500));
    let mut p2 = PlayerState::new(1, "p2".into(), 500);
    p2.has_folded = true;
    p.players.insert(1, p2);
    p.players.insert(2, PlayerState::new(2, "p3".into(), 500));
    p.action_on = 0;
    p.advance_action_on();
    assert_eq!(p.action_on, 2, "must skip folded seat 1");
    p.advance_action_on();
    assert_eq!(p.action_on, 0, "must wrap from highest seat back to 0");
}

#[test]
fn advance_action_on_handles_sparse_seats() {
    let mut p = HandProcess::new();
    p.players.insert(0, PlayerState::new(0, "p1".into(), 500));
    p.players.insert(3, PlayerState::new(3, "p2".into(), 500));
    p.action_on = 0;
    p.advance_action_on();
    assert_eq!(p.action_on, 3);
    p.advance_action_on();
    assert_eq!(p.action_on, 0);
}

#[test]
fn blinds_then_betting_puts_action_after_big_blind() {
    let mut p = HandProcess::new();
    let players = vec![
        PlayerState::new(0, "a".into(), 500),
        PlayerState::new(1, "b".into(), 500),
        PlayerState::new(2, "c".into(), 500),
    ];
    p.on_hand_started(7, "TEXAS_HOLDEM", 1, 5, 10, &players);
    p.handle_event();
    p.small_blind_posted = true;
    p.handle_event();
    assert_eq!(p.phase, Phase::PostingBlinds);
    assert_eq!(p.emitted, vec![Command::PostBlind { kind: BlindKind::Big }]);
    assert!(p.big_blind_posted);
    p.handle_event();
    assert_eq!(p.phase, Phase::Betting);
    assert!(p.emitted.is_empty());
    // (dealer + 2) mod 3 seats
    assert_eq!(p.action_on, 0);
}

#[test]
fn fold_and_all_in_take_the_seat_out_of_the_action() {
    let mut p = three_players_after_blinds();
    p.apply_player_action(0, Action::Fold, 0);
    p.apply_player_action(1, Action::AllIn, 995);
    let folded = p.players.get(0).unwrap();
    assert!(folded.has_folded && folded.has_acted);
    let all_in = p.players.get(1).unwrap();
    assert!(all_in.is_all_in);
    assert_eq!(all_in.stack, 0);
    assert_eq!(p.current_bet, 1000);
    assert_eq!(p.pot_total, 15 + 995);
    p.action_on = 2;
    p.advance_action_on();
    assert_eq!(p.action_on, 2, "only the big blind can still act");
}

#[test]
fn chips_in_play_are_conserved_by_an_action() {
    let mut p = three_players_after_blinds();
    let before: i64 = [0, 1, 2].iter().map(|k| p.players.get(*k).unwrap().stack).sum::<i64>() + p.pot_total;
    p.apply_player_action(1, Action::Raise, 45);
    let after: i64 = [0, 1, 2].iter().map(|k| p.players.get(*k).unwrap().stack).sum::<i64>() + p.pot_total;
    assert_eq!(before, after);
}

#[test]
fn timeout_folds_when_facing_a_bet_and_checks_otherwise() {
    let mut p = three_players_after_blinds();
    assert_eq!(p.timeout(), Command::PlayerAction { action: Action::Fold });
    p.action_on = 2;
    assert_eq!(p.timeout(), Command::PlayerAction { action: Action::Check });
    assert_eq!(p.emitted.len(), 1);
}

#[test]
fn community_cards_open_a_new_round_after_the_dealer() {
    let mut p = three_players_after_blinds();
    p.apply_player_action(0, Action::Call, 10);
    p.apply_community_cards_dealt(BettingPhase::Flop);
    assert_eq!(p.current_bet, 0);
    assert_eq!(p.betting_phase, Some(BettingPhase::Flop));
    assert_eq!(p.action_on, 1);
    let seat = p.players.get(0).unwrap();
    assert_eq!(seat.bet_this_round, 0);
    assert!(!seat.has_acted);
}

#[test]
fn phase_names_round_trip() {
    for phase in [
        Phase::AwaitingDeal,
        Phase::Dealing,
        Phase::PostingBlinds,
        Phase::Betting,
        Phase::DealingCommunity,
        Phase::Draw,
        Phase::Showdown,
        Phase::AwardingPot,
        Phase::Complete,
    ] {
        assert_eq!(Phase::parse(phase.as_str()), Some(phase));
    }
    assert_eq!(Phase::parse("WAITING_FOR_START"), Some(Phase::AwaitingDeal));
    assert_eq!(Phase::parse("betting"), None);
    for bp in [
        BettingPhase::Preflop,
        BettingPhase::Flop,
        BettingPhase::Turn,
        BettingPhase::River,
        BettingPhase::Draw,
    ] {
        assert_eq!(BettingPhase::parse(bp.as_str()), Some(bp));
    }
}

#[test]
fn actions_parse_in_any_case() {
    assert_eq!(Action::parse("fold"), Some(Action::Fold));
    assert_eq!(Action::parse("Raise"), Some(Action::Raise));
    assert_eq!(Action::parse("allin"), Some(Action::AllIn));
    assert_eq!(Action::parse("ALL_IN"), Some(Action::AllIn));
    assert_eq!(Action::parse("muck"), None);
}

#[test]
fn showdown_completes_the_hand() {
    let mut p = HandProcess::new();
    p.phase = Phase::Showdown;
    p.handle_event();
    assert_eq!(p.phase, Phase::Complete);
    assert_eq!(p.emitted, vec![Command::TimeoutCancel]);
}
