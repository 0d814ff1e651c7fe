//! A uniform contract for turn-based deterministic games, an engine that
//! drives one game and records every accepted action, and an example game.

pub mod counter;
pub mod engine;
pub mod laws;
pub mod net;
pub mod tic_tac_toe;
pub mod ui;

pub use counter::{CounterAction, CounterGame, CounterState};
pub use engine::{Game, GameEngine, GameError, PlayerId, replay};
pub use net::{Connection, NetError, TurnConfig};
pub use tic_tac_toe::{Board, Move, TicTacToe, TicTacToeDisplay};
pub use ui::GameUi;
