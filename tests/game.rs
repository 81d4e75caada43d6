use fcd::board::{Board, Cell, CELL_COUNT};
use fcd::game::{Command, Game, RoundState};
use fcd::input::{Answer, InputEvent};
use fcd::points::{Outcome, Points};
use fcd::timer::ROUND_MICROS;
use rand::rngs::StdRng;
use rand::SeedableRng;

fn board_with(white: usize, black: usize) -> Board {
    let mut cells = vec![Cell::Empty; CELL_COUNT];
    for c in cells.iter_mut().take(white) {
        *c = Cell::White;
    }
    for c in cells.iter_mut().skip(white).take(black) {
        *c = Cell::Black;
    }
    Board::from_cells(cells)
}

#[test]
fn new_game_is_idle_without_board() {
    let g = Game::new();
    assert_eq!(g.round(), RoundState::Idle);
    assert!(g.board().is_none());
    assert_eq!(g.points(), Points::new());
}

#[test]
fn idle_game_ignores_keys_and_time() {
    let mut g = Game::new();
    assert_eq!(g.key(InputEvent::Digit(4)), None);
    assert!(!g.input().touched);
    assert!(!g.tick(ROUND_MICROS));
    assert_eq!(g.timer().elapsed, 0);
}

#[test]
fn correct_answer_scores_and_keeps_round() {
    let mut g = Game::new();
    g.restart(board_with(5, 2));
    assert!(!g.tick(1_000_000));
    assert_eq!(g.key(InputEvent::Digit(3)), None);
    let a = g.key(InputEvent::Submit).unwrap();
    assert_eq!(a, Answer(3));
    let next = board_with(1, 4);
    assert_eq!(g.judge(a, next), Some(Outcome::Correct));
    assert_eq!(g.points().correct(), 1);
    assert_eq!(g.points().incorrect(), 0);
    assert_eq!(g.round(), RoundState::Active);
    assert_eq!(g.board().unwrap().differential(), -3);
    assert_eq!(g.timer().elapsed, 1_000_000);
}

#[test]
fn wrong_answer_counts_incorrect() {
    let mut g = Game::new();
    g.restart(board_with(2, 2));
    assert_eq!(g.judge(Answer(1), board_with(0, 0)), Some(Outcome::Incorrect));
    assert_eq!(g.points(), Points { correct: 0, incorrect: 1 });
}

#[test]
fn expiry_freezes_input() {
    let mut g = Game::new();
    g.restart(board_with(1, 0));
    g.key(InputEvent::Digit(1));
    assert!(!g.tick(ROUND_MICROS - 1));
    assert!(g.tick(1));
    assert_eq!(g.round(), RoundState::Expired);
    let input = g.input();
    assert_eq!(g.key(InputEvent::Digit(7)), None);
    assert_eq!(g.key(InputEvent::Submit), None);
    assert_eq!(g.input(), input);
    assert_eq!(g.judge(Answer(1), board_with(0, 0)), None);
    assert_eq!(g.points(), Points::new());
    assert!(!g.tick(1));
    assert_eq!(g.round(), RoundState::Expired);
}

#[test]
fn restart_resets_everything() {
    let mut g = Game::new();
    g.restart(board_with(1, 0));
    g.judge(Answer(1), board_with(0, 0));
    g.key(InputEvent::Digit(8));
    g.tick(ROUND_MICROS);
    assert_eq!(g.round(), RoundState::Expired);
    g.restart(board_with(0, 3));
    assert_eq!(g.round(), RoundState::Active);
    assert_eq!(g.points(), Points::new());
    assert_eq!(g.timer().elapsed, 0);
    assert!(!g.timer().just_expired());
    assert!(!g.input().touched);
    assert_eq!(g.board().unwrap().differential(), -3);
}

#[test]
fn commands_drive_a_round() {
    let mut rng = StdRng::seed_from_u64(5);
    let mut g = Game::new();
    assert_eq!(g.apply_command(Command::Restart, &mut rng), None);
    assert_eq!(g.round(), RoundState::Active);
    let d = g.board().unwrap().differential();
    if d < 0 {
        g.apply_command(Command::Input(InputEvent::Negate), &mut rng);
    }
    let m = d.unsigned_abs();
    if m >= 10 {
        g.apply_command(Command::Input(InputEvent::Digit((m / 10) as u8)), &mut rng);
    }
    g.apply_command(Command::Input(InputEvent::Digit((m % 10) as u8)), &mut rng);
    let outcome = g.apply_command(Command::Input(InputEvent::Submit), &mut rng);
    assert_eq!(outcome, Some(Outcome::Correct));
    assert_eq!(g.points().correct(), 1);
    assert!(!g.input().touched);
    assert_eq!(g.round(), RoundState::Active);
}

#[test]
fn empty_submit_is_not_judged() {
    let mut rng = StdRng::seed_from_u64(1);
    let mut g = Game::new();
    g.apply_command(Command::Restart, &mut rng);
    assert_eq!(g.apply_command(Command::Input(InputEvent::Submit), &mut rng), None);
    assert_eq!(g.points(), Points::new());
}

#[test]
fn points_saturate() {
    let mut p = Points { correct: u32::MAX, incorrect: 3 };
    p.record(Outcome::Correct);
    p.record(Outcome::Incorrect);
    assert_eq!(p, Points { correct: u32::MAX, incorrect: 4 });
    p.reset();
    assert_eq!(p, Points::new());
}
