use game_engine::{
    replay, Board, Connection, Game, GameEngine, GameError, GameUi, Move, NetError, TicTacToe,
    TicTacToeDisplay, TurnConfig,
};

fn fresh_engine() -> GameEngine<TicTacToe> {
    GameEngine::new(TicTacToe::new(vec![0, 1]))
}

fn reason(r: Result<(), GameError>) -> String {
    match r {
        Err(GameError::InvalidAction(m)) => m,
        Ok(()) => panic!("action was accepted"),
    }
}

#[test]
fn play_game() {
    let players = vec![0, 1];
    let game = TicTacToe::new(players.clone());
    let mut engine = GameEngine::new(game.clone());
    engine.apply_action(Move { index: 0 }).unwrap();
    engine.apply_action(Move { index: 4 }).unwrap();
    engine.apply_action(Move { index: 1 }).unwrap();
    engine.apply_action(Move { index: 5 }).unwrap();
    engine.apply_action(Move { index: 2 }).unwrap();
    assert!(engine.game().is_finished());
    assert_eq!(engine.replay_log().len(), 5);
}

#[test]
fn scenario_step_by_step() {
    let mut engine = fresh_engine();
    assert_eq!(engine.game().current_player(), 0);

    assert!(engine.apply_action(Move { index: 0 }).is_ok());
    assert_eq!(engine.game().current_player(), 1);
    assert_eq!(engine.replay_log().len(), 1);

    assert!(engine.apply_action(Move { index: 4 }).is_ok());
    assert_eq!(engine.game().current_player(), 0);
    assert_eq!(engine.replay_log().len(), 2);

    assert!(engine.apply_action(Move { index: 1 }).is_ok());
    assert_eq!(engine.game().current_player(), 1);
    assert_eq!(engine.replay_log().len(), 3);

    assert!(engine.apply_action(Move { index: 5 }).is_ok());
    assert_eq!(engine.game().current_player(), 0);
    assert_eq!(engine.replay_log().len(), 4);

    assert!(!engine.game().is_finished());
    assert!(engine.apply_action(Move { index: 2 }).is_ok());
    let board = engine.state_snapshot();
    assert_eq!(board.cells, [1, 1, 1, 0, 2, 2, 0, 0, 0]);
    assert!(engine.game().is_finished());
    assert_eq!(engine.replay_log().len(), 5);
    // the winning move ends the game: the turn stays with the winner
    assert_eq!(engine.game().current_player(), 0);

    let log = engine.replay_log().to_vec();
    assert_eq!(log, vec![Move { index: 0 }, Move { index: 4 }, Move { index: 1 }, Move { index: 5 }, Move { index: 2 }]);
    let mut fresh = TicTacToe::new(vec![0, 1]);
    for m in log {
        fresh.apply_action(m).unwrap();
    }
    assert_eq!(fresh.state(), &board);
    assert!(fresh.is_finished());

    let rebuilt: TicTacToe = replay(vec![0, 1], engine.replay_log()).unwrap();
    assert_eq!(rebuilt.state(), &board);

    let before = engine.state_snapshot();
    let r = engine.apply_action(Move { index: 0 });
    assert_eq!(reason(r), "cell not empty");
    assert_eq!(engine.replay_log().len(), 5);
    assert_eq!(engine.state_snapshot(), before);
}

#[test]
fn rejections_do_not_reach_the_log() {
    let mut engine = fresh_engine();
    let mut accepted = 0;
    let submitted = [0usize, 0, 9, 3, 3, 100, 8, 4];
    for i in submitted {
        if engine.apply_action(Move { index: i }).is_ok() {
            accepted += 1;
        }
    }
    assert_eq!(accepted, 4);
    assert_eq!(engine.replay_log().len(), 4);
    assert_eq!(engine.replay_log().to_vec(), vec![Move { index: 0 }, Move { index: 3 }, Move { index: 8 }, Move { index: 4 }]);
}

#[test]
fn rejection_leaves_state_alone() {
    let mut engine = fresh_engine();
    engine.apply_action(Move { index: 4 }).unwrap();
    let before = engine.state_snapshot();
    assert_eq!(reason(engine.apply_action(Move { index: 9 })), "index out of range");
    assert_eq!(engine.state_snapshot(), before);
    assert_eq!(reason(engine.apply_action(Move { index: 4 })), "cell not empty");
    assert_eq!(engine.state_snapshot(), before);
    assert_eq!(engine.game().current_player(), 1);
}

#[test]
fn two_players_alternate() {
    let mut engine = GameEngine::new(TicTacToe::new(vec![10, 20]));
    let mut expected = [10u32, 20];
    let order = [0usize, 1, 2, 4, 3, 5, 7, 6];
    for (k, i) in order.iter().enumerate() {
        assert_eq!(engine.game().current_player(), expected[k % 2]);
        engine.apply_action(Move { index: *i }).unwrap();
        assert!(!engine.game().is_finished());
    }
    expected.swap(0, 1);
    assert_eq!(engine.game().current_player(), expected[1]);
}

#[test]
fn three_players_rotate_in_order() {
    let mut game = TicTacToe::new(vec![5, 6, 7]);
    let mut seen = Vec::new();
    for i in [0usize, 1, 2, 3] {
        seen.push(game.current_player());
        game.apply_action(Move { index: i }).unwrap();
    }
    assert_eq!(seen, vec![5, 6, 7, 5]);
    // marks follow the place in the turn order, not the id
    assert_eq!(game.state().cells, [1, 2, 3, 1, 0, 0, 0, 0, 0]);
}

#[test]
fn full_board_without_line_is_finished() {
    let mut game = TicTacToe::new(vec![0, 1]);
    for i in [0usize, 1, 2, 4, 3, 5, 7, 6] {
        game.apply_action(Move { index: i }).unwrap();
        assert!(!game.is_finished());
    }
    game.apply_action(Move { index: 8 }).unwrap();
    assert!(game.is_finished());
    assert_eq!(game.state().cells, [1, 2, 1, 1, 2, 2, 2, 1, 1]);
}

#[test]
fn column_and_diagonal_win() {
    let mut game = TicTacToe::new(vec![0, 1]);
    for i in [1usize, 0, 4, 2] {
        game.apply_action(Move { index: i }).unwrap();
    }
    assert!(!game.is_finished());
    game.apply_action(Move { index: 7 }).unwrap();
    assert!(game.is_finished());

    let mut game = TicTacToe::new(vec![0, 1]);
    for i in [0usize, 2, 3, 4, 5] {
        game.apply_action(Move { index: i }).unwrap();
    }
    assert!(!game.is_finished());
    game.apply_action(Move { index: 6 }).unwrap();
    assert!(game.is_finished());
    assert_eq!(game.current_player(), 1);
}

#[test]
fn replay_stops_at_refused_action() {
    let log = vec![Move { index: 3 }, Move { index: 3 }];
    let r: Result<TicTacToe, GameError> = replay(vec![0, 1], &log);
    assert!(matches!(r, Err(GameError::InvalidAction(_))));
    let empty: Vec<Move> = Vec::new();
    let g: TicTacToe = replay(vec![0, 1], &empty).unwrap();
    assert_eq!(g.state(), &Board { cells: [0; 9], current: 0 });
}

#[test]
fn display_labels_cells() {
    let mut game = TicTacToe::new(vec![0, 1, 2]);
    for i in [0usize, 4, 8] {
        game.apply_action(Move { index: i }).unwrap();
    }
    let d = TicTacToeDisplay;
    let labels: Vec<&str> = (0..9).map(|i| d.cell_label(&game, i)).collect();
    assert_eq!(labels, vec!["X", "-", "-", "-", "O", "-", "-", "-", "?"]);
    let _ui = GameUi::new();
}

#[test]
fn connection_keeps_room_and_relay() {
    let turn = TurnConfig {
        url: "turn:relay.example:3478".to_string(),
        username: "alice".to_string(),
        credential: "SECRET-REDACTED".to_string(),
    };
    let c = Connection::new("room-1".to_string(), Some(turn.clone()));
    assert_eq!(c.room_id(), "room-1");
    assert_eq!(c.turn().as_ref().unwrap().username, "alice");
    let bare = Connection::new("r".to_string(), None);
    assert!(bare.turn().is_none());
    assert!(matches!(NetError::SendFailed, NetError::SendFailed));
}
