use cardmate::board::moves::MoveCalculator;
use cardmate::board::types::{Color, Piece, PieceModifier, PieceType, Square, SquareModifier};
use cardmate::board::utils::square_to_index;
use cardmate::board::Board;
use cardmate::cards::effects::{roulette_at, CardEffectApplier};
use cardmate::cards::registry::{all_card_defs, card_def, is_card_playable};
use cardmate::cards::types::{CardId, CardTarget};
use cardmate::commands::{parse_card_target, refreshes_opponent_hand, Reply, WsCommand};
use cardmate::game_loop::move_handler::MoveHandler;
use cardmate::game_loop::runner::{grace_over_after, loop_step_after, LoopAction};
use cardmate::game_loop::state::{add_player_cards, deck_or_common, GameLoop};
use cardmate::game_loop::timer::GameTimer;
use cardmate::lobby::PlayerId;

fn square(file: u8, rank: u8) -> Square {
    Square { file, rank }
}

fn started_game(deck: Vec<(CardId, u8)>) -> GameLoop {
    let mut g = GameLoop::new();
    g.set_custom_deck(deck);
    g.start();
    g.board.compute_allowed_moves();
    g
}

fn sorted(mut v: Vec<(CardId, u8)>) -> Vec<String> {
    let mut out: Vec<String> = v.drain(..).map(|(c, r)| format!("{}:{}", c.as_str(), r)).collect();
    out.sort();
    out
}

#[test]
fn new_game_starts_with_ten_minute_clocks() {
    let g = GameLoop::new();
    assert_eq!(g.get_times(), (600000, 600000));
    assert!(g.is_white_turn);
    assert!(!g.running && !g.started && !g.ended);
    assert!(g.white_hand.is_empty() && g.black_hand.is_empty());
    assert_eq!(g.get_time_multipliers(), (1, 1));
}

#[test]
fn initial_time_sets_both_clocks() {
    let mut g = GameLoop::new();
    g.set_initial_time(300000);
    assert_eq!(g.get_times(), (300000, 300000));
    assert_eq!(g.initial_time_ms, 300000);
}

#[test]
fn start_deals_five_cards_each_from_the_custom_deck() {
    let deck: Vec<(CardId, u8)> = vec![
        (CardId::Fog, 0), (CardId::Trash, 1), (CardId::Cannon, 2), (CardId::Sniper, 0), (CardId::Journey, 0),
        (CardId::Frog, 0), (CardId::Ninja, 1), (CardId::Traitor, 0), (CardId::TimeBoost, 0), (CardId::Garbage, 0),
        (CardId::PushBack, 0), (CardId::Annihilation, 2),
    ];
    let g = started_game(deck.clone());
    assert!(g.running && g.started);
    assert_eq!(g.white_hand.len(), 5);
    assert_eq!(g.black_hand.len(), 5);
    assert_eq!(g.global_deck.len(), 2);
    assert!(g.discard_pile.is_empty());
    assert!(g.custom_deck.is_none());
    let mut all = g.white_hand.clone();
    all.extend(g.black_hand.iter().copied());
    all.extend(g.global_deck.iter().copied());
    assert_eq!(sorted(all), sorted(deck));
}

#[test]
fn start_without_custom_deck_uses_the_common_deck() {
    let mut g = GameLoop::new();
    g.start();
    assert_eq!(g.white_hand.len() + g.black_hand.len() + g.global_deck.len(), 20);
    for c in g.white_hand.iter().chain(g.black_hand.iter()).chain(g.global_deck.iter()) {
        assert_eq!(c.1, 0);
    }
}

#[test]
fn a_short_deck_deals_what_it_has() {
    let g = started_game(vec![(CardId::Fog, 0), (CardId::Trash, 0), (CardId::Cannon, 0), (CardId::Sniper, 0), (CardId::Journey, 0), (CardId::Frog, 0)]);
    assert_eq!(g.white_hand.len(), 5);
    assert_eq!(g.black_hand.len(), 1);
    assert!(g.global_deck.is_empty());
}

#[test]
fn draws_take_forced_cards_first_then_the_deck_then_the_shuffled_pile() {
    let mut g = GameLoop::new();
    g.global_deck = vec![(CardId::Fog, 1), (CardId::Cannon, 2)];
    g.forced_draws.push(Color::White, (CardId::Garbage, 0));
    assert_eq!(g.draw_card(Color::White), Some((CardId::Garbage, 0)));
    assert_eq!(g.draw_card(Color::White), Some((CardId::Fog, 1)));
    assert_eq!(g.draw_card(Color::Black), Some((CardId::Cannon, 2)));
    assert_eq!(g.white_hand, vec![(CardId::Garbage, 0), (CardId::Fog, 1)]);
    assert_eq!(g.draw_card(Color::Black), None);
    g.discard_pile = vec![(CardId::Journey, 0)];
    assert_eq!(g.draw_card(Color::Black), Some((CardId::Journey, 0)));
    assert!(g.discard_pile.is_empty());
    assert!(g.global_deck.is_empty());
    assert_eq!(g.black_hand.len(), 2);
}

#[test]
fn discarding_follows_the_turn_and_the_hand() {
    let mut g = GameLoop::new();
    g.white_hand = vec![(CardId::Fog, 2), (CardId::Garbage, 0)];
    g.global_deck = vec![(CardId::Cannon, 1)];
    assert_eq!(g.discard_card(CardId::Fog, Color::Black), Err("not your turn"));
    assert_eq!(g.discard_card(CardId::Trash, Color::White), Err("card not in hand"));
    assert_eq!(g.discard_card(CardId::Fog, Color::White), Ok(2));
    assert_eq!(g.discard_pile, vec![(CardId::Fog, 2)]);
    assert_eq!(g.white_hand, vec![(CardId::Garbage, 0), (CardId::Cannon, 1)]);
    assert!(g.action_taken_this_turn);
    assert_eq!(g.discard_card(CardId::Garbage, Color::White), Err("you already used your card action this turn"));
}

#[test]
fn discarded_garbage_leaves_the_game() {
    let mut g = GameLoop::new();
    g.white_hand = vec![(CardId::Garbage, 0)];
    assert_eq!(g.discard_card(CardId::Garbage, Color::White), Ok(0));
    assert!(g.discard_pile.is_empty());
    assert!(g.white_hand.is_empty());
}

#[test]
fn trash_queues_two_garbage_cards_for_the_opponent() {
    let mut g = GameLoop::new();
    g.white_hand = vec![(CardId::Trash, 1)];
    g.global_deck = vec![(CardId::Fog, 0); 5];
    let (result, rarity) = g.play_card(CardId::Trash, Color::White, CardTarget::NoTarget).unwrap();
    assert_eq!(result.message_id, "trash_played");
    assert_eq!(rarity, 1);
    assert_eq!(g.forced_draws.black, vec![(CardId::Garbage, 0), (CardId::Garbage, 0)]);
    assert!(g.white_hand.is_empty());
    assert_eq!(g.card_played_this_turn, Some((CardId::Trash, 1)));
    assert_eq!(
        g.play_card(CardId::Trash, Color::White, CardTarget::NoTarget).err(),
        Some("you already played a card this turn")
    );
    g.discard_and_draw_if_needed(Color::White);
    assert_eq!(g.discard_pile, vec![(CardId::Trash, 1)]);
    assert_eq!(g.white_hand, vec![(CardId::Fog, 0); 5]);
    assert!(!g.action_taken_this_turn);
    assert!(g.card_played_this_turn.is_none());
}

#[test]
fn time_boost_doubles_the_opponents_clock() {
    let mut g = GameLoop::new();
    g.white_hand = vec![(CardId::TimeBoost, 0)];
    let (result, _) = g.play_card(CardId::TimeBoost, Color::White, CardTarget::NoTarget).unwrap();
    assert_eq!(result.message_id, "time_boost_activated");
    assert_eq!(g.get_time_multipliers(), (1, 2));
}

#[test]
fn unplayable_card_has_no_effect() {
    let mut g = GameLoop::new();
    g.white_hand = vec![(CardId::PushBack, 0)];
    assert!(!is_card_playable(&g.board, Color::White, CardId::PushBack));
    let (result, _) = g.play_card(CardId::PushBack, Color::White, CardTarget::NoTarget).unwrap();
    assert_eq!(result.message_id, "card_no_effect");
}

#[test]
fn wheel_of_fortune_deals_new_hands() {
    let mut g = GameLoop::new();
    g.white_hand = vec![(CardId::WheelOfFortune, 0), (CardId::Fog, 0)];
    g.black_hand = vec![(CardId::Cannon, 0)];
    g.global_deck = (0..12).map(|_| (CardId::Sniper, 1)).collect();
    let (result, _) = g.play_card(CardId::WheelOfFortune, Color::White, CardTarget::NoTarget).unwrap();
    assert_eq!(result.message_id, "wheel_of_fortune");
    assert_eq!(g.white_hand.len(), 5);
    assert_eq!(g.black_hand.len(), 5);
    assert_eq!(g.discard_pile, vec![(CardId::WheelOfFortune, 0), (CardId::Fog, 0), (CardId::Cannon, 0)]);
    assert_eq!(g.global_deck.len(), 2);
}

#[test]
fn first_white_move_starts_the_clocks_without_charge() {
    let mut g = GameLoop::new();
    g.record_move_after(5000);
    assert!(g.timer_running && g.first_move_played && !g.is_white_turn);
    assert_eq!(g.get_times(), (600000, 600000));
    g.record_move_after(7000);
    assert_eq!(g.get_times(), (600000, 593000));
    assert!(g.is_white_turn);
    g.board.card_state.set_time_multiplier(Color::White, 2);
    g.record_move_after(1000);
    assert_eq!(g.get_times(), (598000, 593000));
    assert_eq!(g.get_time_multipliers(), (1, 1));
}

#[test]
fn the_clock_runs_out() {
    let mut g = GameLoop::new();
    assert_eq!(g.tick_after(1000), None);
    assert_eq!(g.get_times(), (600000, 600000));
    g.record_move_after(0);
    assert_eq!(g.tick_after(599999), None);
    assert_eq!(g.get_times(), (600000, 1));
    assert_eq!(g.tick_after(5), Some(Color::Black));
    assert_eq!(g.get_times(), (600000, 0));
    g.reset_timer();
    assert_eq!(g.get_times(), (600000, 600000));
    assert!(!g.timer_running);
}

#[test]
fn restart_clears_cards_and_board() {
    let mut g = started_game(vec![(CardId::Fog, 0); 12]);
    g.record_move_after(0);
    g.restart();
    assert!(g.white_hand.is_empty() && g.black_hand.is_empty() && g.global_deck.is_empty());
    assert!(g.is_white_turn && !g.started && !g.timer_running);
    assert!(g.running);
}

#[test]
fn moves_are_played_through_commands() {
    let mut g = started_game(vec![(CardId::Fog, 0); 12]);
    let reply = g.handle_command(
        PlayerId::Player1,
        WsCommand::MovePiece { from: "e2".to_string(), to: "e4".to_string(), promotion: None },
    );
    match reply {
        Reply::Moved { report } => {
            assert_eq!(report.current_player, Color::Black);
            assert!(!report.check && !report.checkmate);
            assert_eq!(report.winner, None);
        }
        other => panic!("unexpected reply {:?}", other),
    }
    assert!(!g.is_white_turn);
    assert!(g.board.squares[square_to_index(square(5, 4))].is_some());
    let again = g.handle_command(
        PlayerId::Player1,
        WsCommand::MovePiece { from: "d2".to_string(), to: "d4".to_string(), promotion: None },
    );
    assert!(matches!(again, Reply::MoveRefused { reason: "not your turn" }));
    let bad = g.handle_command(
        PlayerId::Player2,
        WsCommand::MovePiece { from: "z9".to_string(), to: "d4".to_string(), promotion: None },
    );
    assert!(matches!(bad, Reply::MoveRefused { reason: "invalid source square" }));
    let illegal = g.handle_command(
        PlayerId::Player2,
        WsCommand::MovePiece { from: "d7".to_string(), to: "d3".to_string(), promotion: None },
    );
    assert!(matches!(illegal, Reply::MoveRefused { reason: "move not allowed" }));
    let promo = g.handle_command(
        PlayerId::Player2,
        WsCommand::MovePiece { from: "d7".to_string(), to: "d5".to_string(), promotion: Some("emperor".to_string()) },
    );
    assert!(matches!(promo, Reply::MoveRefused { reason: "invalid promotion piece" }));
}

#[test]
fn fools_mate_ends_the_game() {
    let mut g = started_game(vec![(CardId::Fog, 0); 12]);
    let moves = [("f2", "f3"), ("e7", "e5"), ("g2", "g4"), ("d8", "h4")];
    let mut last = None;
    for (i, (from, to)) in moves.iter().enumerate() {
        let id = if i % 2 == 0 { PlayerId::Player1 } else { PlayerId::Player2 };
        last = Some(g.handle_command(id, WsCommand::MovePiece { from: from.to_string(), to: to.to_string(), promotion: None }));
    }
    match last.unwrap() {
        Reply::Moved { report } => {
            assert!(report.check && report.checkmate);
            assert_eq!(report.winner, Some(Color::Black));
        }
        other => panic!("unexpected reply {:?}", other),
    }
    assert!(g.ended && !g.running);
}

#[test]
fn chat_goes_to_the_other_seat() {
    let mut g = GameLoop::new();
    match g.handle_command(PlayerId::Player2, WsCommand::Message { text: "hi".to_string() }) {
        Reply::Chat { to, text } => {
            assert_eq!(to, PlayerId::Player1);
            assert_eq!(text, "hi");
        }
        other => panic!("unexpected reply {:?}", other),
    }
    assert!(matches!(g.handle_command(PlayerId::Player1, WsCommand::Pong), Reply::Nothing));
    assert!(matches!(g.handle_command(PlayerId::Player1, WsCommand::GetHand), Reply::Hand));
}

#[test]
fn card_commands_check_card_and_target() {
    let mut g = GameLoop::new();
    g.white_hand = vec![(CardId::DeadlyZone, 1)];
    let unknown = g.handle_command(PlayerId::Player1, WsCommand::PlayCard { card_id: "99".to_string(), target: None });
    assert!(matches!(unknown, Reply::CardRefused { reason: "unknown card" }));
    let no_target = g.handle_command(PlayerId::Player1, WsCommand::PlayCard { card_id: "0".to_string(), target: None });
    assert!(matches!(no_target, Reply::CardRefused { reason: "err_need_target" }));
    let played = g.handle_command(
        PlayerId::Player1,
        WsCommand::PlayCard { card_id: "0".to_string(), target: Some("e4".to_string()) },
    );
    match played {
        Reply::CardPlayed { card, rarity, result, ends_turn } => {
            assert_eq!(card, CardId::DeadlyZone);
            assert_eq!(rarity, 1);
            assert!(!ends_turn);
            assert_eq!(result.message_id, "deadly_zone_placed");
            assert_eq!(result.effects.len(), 1);
            assert_eq!(result.effects[0].kind, "zone");
            assert_eq!(result.effects[0].square, "e4");
        }
        other => panic!("unexpected reply {:?}", other),
    }
    assert_eq!(
        g.board.squares[square_to_index(square(5, 4))].modifier,
        Some(SquareModifier::DeadlyZone { rarity: 1 })
    );
    let discard = g.handle_command(PlayerId::Player2, WsCommand::DiscardCard { card_id: "3".to_string() });
    assert!(matches!(discard, Reply::CardRefused { reason: "not your turn" }));
}

#[test]
fn card_targets_are_read_by_card() {
    assert_eq!(parse_card_target(CardId::Cannon, Some("a1")), Ok(CardTarget::Square(square(1, 1))));
    assert_eq!(parse_card_target(CardId::Cannon, None), Err("err_need_target"));
    assert_eq!(parse_card_target(CardId::Cannon, Some("a0")), Err("err_invalid_square"));
    assert_eq!(parse_card_target(CardId::Fog, Some("a1")), Ok(CardTarget::NoTarget));
    assert_eq!(parse_card_target(CardId::Traitor, None), Ok(CardTarget::NoTarget));
}

#[test]
fn card_codes_read_back() {
    let defs = all_card_defs();
    assert_eq!(defs.len(), 29);
    for d in defs.iter() {
        assert_eq!(CardId::from_str(d.id.as_str()), Some(d.id));
        assert_eq!(card_def(d.id).ends_turn, d.ends_turn);
    }
    assert_eq!(CardId::from_str("25"), None);
    assert_eq!(CardId::from_str("30"), Some(CardId::DesperateRescue));
    assert!(card_def(CardId::Journey).ends_turn);
    assert!(!card_def(CardId::Fog).ends_turn);
}

#[test]
fn roulette_takes_the_chosen_piece() {
    let mut board = Board::default();
    let idx = square_to_index(square(1, 2));
    let result = roulette_at(&mut board, idx).unwrap();
    assert_eq!(result.message_id, "russian_roulette_fired a2");
    assert!(board.squares[idx].is_none());
    assert_eq!(board.captured_pieces.len(), 1);
    assert_eq!(board.captured_pieces[0].piece_type, PieceType::Pawn);
}

#[test]
fn russian_roulette_spares_kings() {
    let mut board = Board::default();
    for cell in board.squares.iter_mut() {
        cell.piece = None;
    }
    board.squares[square_to_index(square(5, 1))].piece = Some(Piece::new(PieceType::King, Color::White));
    board.squares[square_to_index(square(5, 8))].piece = Some(Piece::new(PieceType::King, Color::Black));
    let r = board.apply_card_effect(CardId::RussianRoulette, 0, Color::White, CardTarget::NoTarget);
    assert_eq!(r.err(), Some("err_no_eligible_piece"));
    board.squares[square_to_index(square(1, 1))].piece = Some(Piece::new(PieceType::Rook, Color::White));
    assert!(board.apply_card_effect(CardId::RussianRoulette, 0, Color::White, CardTarget::NoTarget).is_ok());
    assert!(board.squares[square_to_index(square(1, 1))].is_none());
    assert!(board.squares[square_to_index(square(5, 1))].is_some());
}

#[test]
fn watching_loop_decisions() {
    let mut g = GameLoop::new();
    assert_eq!(loop_step_after(&mut g, false, false, false, 0), LoopAction::Idle);
    assert_eq!(loop_step_after(&mut g, false, true, false, 0), LoopAction::Abandon);
    assert_eq!(loop_step_after(&mut g, true, true, false, 0), LoopAction::Continue);
    g.running = true;
    g.started = true;
    assert_eq!(loop_step_after(&mut g, true, false, true, 0), LoopAction::CancelFirstMove);
    assert!(g.ended && !g.running);
    assert_eq!(loop_step_after(&mut g, true, false, false, 0), LoopAction::Stop);
    let mut h = GameLoop::new();
    h.running = true;
    h.record_move_after(0);
    assert_eq!(loop_step_after(&mut h, true, false, true, 1000), LoopAction::Continue);
    assert_eq!(h.get_times(), (600000, 599000));
    assert_eq!(loop_step_after(&mut h, true, false, false, 600000), LoopAction::Timeout { loser: Color::Black });
    assert!(h.ended);
}

#[test]
fn player_collections_make_the_deck() {
    let mut deck = Vec::new();
    add_player_cards(&mut deck, &vec![("13".to_string(), 2), ("nope".to_string(), 1), ("4".to_string(), 300)]);
    assert_eq!(deck, vec![(CardId::Cannon, 2), (CardId::Fog, 44)]);
    assert_eq!(deck_or_common(deck.clone()), deck);
    let common = deck_or_common(Vec::new());
    assert_eq!(common.len(), 10);
    assert_eq!(common[0], (CardId::TimeBoost, 0));
    assert_eq!(common[9], (CardId::HermitArchitect, 0));
}

#[test]
fn hands_show_which_cards_are_playable() {
    let mut g = GameLoop::new();
    g.white_hand = vec![(CardId::Fog, 1), (CardId::PushBack, 0)];
    let cards = g.hand_cards(Color::White);
    assert_eq!(cards.len(), 2);
    assert_eq!(cards[0].card, CardId::Fog);
    assert!(cards[0].playable);
    assert!(!cards[1].playable);
    let (w, b) = g.get_hands();
    assert_eq!(w, g.white_hand);
    assert!(b.is_empty());
}

#[test]
fn fog_hides_enemy_pieces_out_of_reach() {
    let mut board = Board::default();
    board.compute_allowed_moves();
    let plain = board.sight_for(Some(Color::White));
    assert!(plain[square_to_index(square(5, 8))].piece.is_some());
    assert!(plain[square_to_index(square(5, 8))].moves_hidden);
    assert!(!plain[square_to_index(square(5, 1))].moves_hidden);
    board.card_state.start_fog(Color::Black, 4, 0);
    let fogged = board.sight_for(Some(Color::White));
    assert!(fogged[square_to_index(square(5, 8))].piece.is_none());
    assert!(fogged[square_to_index(square(5, 1))].piece.is_some());
    let spectator = board.sight_for(None);
    assert!(spectator[square_to_index(square(5, 8))].piece.is_some());
}

#[test]
fn only_the_wheel_changes_the_opponents_hand() {
    assert!(refreshes_opponent_hand(CardId::WheelOfFortune));
    assert!(!refreshes_opponent_hand(CardId::Fog));
    assert!(!refreshes_opponent_hand(CardId::Trash));
}

fn sorted_cards(g: &GameLoop) -> Vec<(CardId, u8)> {
    let mut all: Vec<(CardId, u8)> = Vec::new();
    all.extend(g.white_hand.iter().cloned());
    all.extend(g.black_hand.iter().cloned());
    all.extend(g.global_deck.iter().cloned());
    all.extend(g.discard_pile.iter().cloned());
    all.sort_by_key(|c| format!("{:?}", c));
    all
}

#[test]
fn wheel_redraw_keeps_every_card() {
    let mut g = GameLoop::new();
    g.white_hand = vec![(CardId::Fog, 1), (CardId::Cannon, 2)];
    g.black_hand = vec![(CardId::Trash, 0)];
    g.global_deck = vec![(CardId::TimeBoost, 0), (CardId::Sniper, 3), (CardId::Ninja, 1)];
    g.discard_pile = vec![(CardId::Frog, 0), (CardId::Traitor, 0), (CardId::Journey, 0), (CardId::PushBack, 0)];
    let before = sorted_cards(&g);
    g.discard_all_and_redraw(Color::White);
    assert_eq!(g.white_hand.len(), 5);
    assert_eq!(g.black_hand.len(), 5);
    assert_eq!(sorted_cards(&g), before);
}

#[test]
fn refused_cards_leave_the_board() {
    let mut board = Board::default();
    let before = format!("{:?}", board);
    let empty = square(4, 4);
    let r = board.apply_card_effect(CardId::Annihilation, 0, Color::White, CardTarget::Square(empty));
    assert!(r.is_err());
    assert_eq!(format!("{:?}", board), before);
}

#[test]
fn enemy_moves_never_show() {
    let mut board = Board::default();
    board.compute_allowed_moves();
    let idx = square_to_index(square(2, 8));
    let shown = board.sight_for(Some(Color::White));
    assert!(shown[idx].moves_hidden);
    let mut other = Board::default();
    other.compute_allowed_moves();
    if let Some(p) = other.squares[idx].piece.as_mut() {
        p.move_set.allowed.clear();
        p.move_set.current.clear();
    }
    let again = other.sight_for(Some(Color::White));
    assert_eq!(again[idx].moves_hidden, shown[idx].moves_hidden);
    assert_eq!(
        again[idx].piece.as_ref().map(|p| (p.piece_type, p.color)),
        shown[idx].piece.as_ref().map(|p| (p.piece_type, p.color))
    );
}

#[test]
fn cannon_moves_come_ray_by_ray() {
    let mut board = Board::default();
    for cell in board.squares.iter_mut() {
        cell.piece = None;
    }
    board.squares[square_to_index(square(5, 1))].piece = Some(Piece::new(PieceType::King, Color::White));
    board.squares[square_to_index(square(8, 8))].piece = Some(Piece::new(PieceType::King, Color::Black));
    let mut cannon = Piece::new(PieceType::Rook, Color::White);
    cannon.piece_modifier = Some(PieceModifier::Cannon { rarity: Some(0) });
    board.squares[square_to_index(square(4, 4))].piece = Some(cannon);
    for (f, r) in [(6, 4), (2, 4), (4, 7), (4, 5), (4, 2)] {
        board.squares[square_to_index(square(f, r))].piece = Some(Piece::new(PieceType::Pawn, Color::Black));
    }
    let moves = board.compute_current_moves(square_to_index(square(4, 4)));
    assert_eq!(moves, vec![square(6, 4), square(2, 4), square(4, 5), square(4, 7), square(4, 2)]);
}

#[test]
fn refused_and_idle_commands_keep_the_clock_readings() {
    let mut g = GameLoop::new();
    g.start();
    let (last, deadline) = (g.last_move_time, g.first_move_deadline);
    let r = g.handle_command(PlayerId::Player1, WsCommand::Message { text: "hi".to_string() });
    assert!(matches!(r, Reply::Chat { .. }));
    assert_eq!((g.last_move_time, g.first_move_deadline), (last, deadline));
    let r = g.handle_command(
        PlayerId::Player2,
        WsCommand::MovePiece { from: "e7".to_string(), to: "e5".to_string(), promotion: None },
    );
    assert!(matches!(r, Reply::MoveRefused { .. }));
    assert_eq!((g.last_move_time, g.first_move_deadline), (last, deadline));
    g.set_initial_time(300_000);
    assert_eq!((g.last_move_time, g.first_move_deadline), (last, deadline));
}

#[test]
fn idle_games_wait_five_minutes() {
    assert!(!grace_over_after(0));
    assert!(!grace_over_after(299_999));
    assert!(grace_over_after(300_000));
}
