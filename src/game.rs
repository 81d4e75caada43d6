use vstd::prelude::*;
use rand::rngs::StdRng;
use crate::board::{lemma_board_differential, Board, BoardView};
use crate::input::{cleared, emitted, next_state, Answer, InputEvent, InputState};
use crate::points::{recorded, Outcome, Points};
use crate::timer::{Timer, ROUND_MICROS};

verus! {

/// Whether a round is running.
#[derive(Clone, Copy, Debug, PartialEq, Eq, Structural)]
pub enum RoundState {
    Idle,
    Active,
    Expired,
}

/// The mathematical content of a game session.
pub ghost struct GameView {
    pub board: Option<BoardView>,
    pub input: InputState,
    pub round: RoundState,
    pub timer: Timer,
    pub points: Points,
}

/// The verdict on an answer against a board.
pub open spec fn verdict(a: Answer, b: BoardView) -> Outcome {
    if a.0 == b.differential {
        Outcome::Correct
    } else {
        Outcome::Incorrect
    }
}

impl GameView {
    pub open spec fn wf(self) -> bool {
        &&& self.timer.wf()
        &&& (self.board matches Some(b) ==> b.wf())
        &&& (self.round != RoundState::Idle ==> self.board is Some)
    }

    /// The session after a restart onto board `b`.
    pub open spec fn restarted(self, b: BoardView) -> GameView {
        GameView {
            board: Some(b),
            input: cleared(),
            round: RoundState::Active,
            timer: Timer { elapsed: 0, just_expired: false, ..self.timer },
            points: Points { correct: 0, incorrect: 0 },
        }
    }

    /// The session after a tick of `delta` microseconds.
    pub open spec fn ticked(self, delta: u64) -> GameView {
        let active = self.round == RoundState::Active;
        let t = self.timer.ticked(delta, active);
        GameView {
            timer: t,
            round: if active && t.just_expired {
                RoundState::Expired
            } else {
                self.round
            },
            ..self
        }
    }

    /// The session after a key event: input changes only during a round.
    pub open spec fn keyed(self, e: InputEvent) -> GameView {
        if self.round == RoundState::Active {
            GameView { input: next_state(self.input, e), ..self }
        } else {
            self
        }
    }

    /// The answer a key event emits: none outside a round.
    pub open spec fn key_answer(self, e: InputEvent) -> Option<Answer> {
        if self.round == RoundState::Active {
            emitted(self.input, e)
        } else {
            None
        }
    }

    /// The outcome of judging `a`: none outside a round.
    pub open spec fn judgement(self, a: Answer) -> Option<Outcome> {
        if self.round == RoundState::Active && self.board is Some {
            Some(verdict(a, self.board.unwrap()))
        } else {
            None
        }
    }

    /// The session after judging `a` and moving on to board `next`.
    pub open spec fn judged(self, a: Answer, next: BoardView) -> GameView {
        if self.round == RoundState::Active && self.board is Some {
            GameView {
                board: Some(next),
                input: cleared(),
                points: recorded(self.points, verdict(a, self.board.unwrap())),
                ..self
            }
        } else {
            self
        }
    }
}

/// The session after a sequence of key events, applied first to last.
pub open spec fn run_keys(g: GameView, es: Seq<InputEvent>) -> GameView
    decreases es.len(),
{
    if es.len() == 0 {
        g
    } else {
        run_keys(g, es.drop_last()).keyed(es.last())
    }
}

/// Restarting onto a board and answering its differential is judged correct,
/// scores one, moves on to the next board, keeps the round running and leaves
/// the countdown as the restart set it.
pub proof fn lemma_round_lifecycle(g: GameView, b: BoardView, next: BoardView)
    requires
        g.wf(),
        b.wf(),
        next.wf(),
    ensures
        g.restarted(b).judgement(Answer(b.differential as i32)) == Some(Outcome::Correct),
        g.restarted(b).judged(Answer(b.differential as i32), next).points.correct == 1,
        g.restarted(b).judged(Answer(b.differential as i32), next).board == Some(next),
        g.restarted(b).judged(Answer(b.differential as i32), next).round == RoundState::Active,
        g.restarted(b).judged(Answer(b.differential as i32), next).timer == g.restarted(b).timer,
        g.restarted(b).judged(Answer(b.differential as i32), next).wf(),
{
    lemma_board_differential(b);
}

/// The tick on which the countdown runs out during a round ends the round; from
/// then on key events change nothing and emit no answer, no answer is judged and
/// ticks leave the countdown alone, until a restart.
pub proof fn lemma_expiry_freezes(
    g: GameView,
    delta: u64,
    es: Seq<InputEvent>,
    a: Answer,
    next: BoardView,
)
    requires
        g.wf(),
        g.round == RoundState::Active,
        g.ticked(delta).timer.just_expired,
    ensures
        g.ticked(delta).round == RoundState::Expired,
        run_keys(g.ticked(delta), es) == g.ticked(delta),
        forall|e: InputEvent| g.ticked(delta).key_answer(e) is None,
        g.ticked(delta).judgement(a) is None,
        g.ticked(delta).judged(a, next) == g.ticked(delta),
        forall|d: u64|
            #![trigger g.ticked(delta).ticked(d)]
            g.ticked(delta).ticked(d).round == RoundState::Expired && g.ticked(delta).ticked(
                d,
            ).timer.elapsed == g.ticked(delta).timer.elapsed,
{
    lemma_expired_keys(g.ticked(delta), es);
}

/// Key events leave an expired session unchanged.
proof fn lemma_expired_keys(g: GameView, es: Seq<InputEvent>)
    requires
        g.round == RoundState::Expired,
    ensures
        run_keys(g, es) == g,
    decreases es.len(),
{
    if es.len() > 0 {
        lemma_expired_keys(g, es.drop_last());
    }
}

/// One command of the player: a key event for the number entry, or a restart.
#[derive(Clone, Copy, Debug, PartialEq, Eq, Structural)]
pub enum Command {
    Input(InputEvent),
    Restart,
}

/// A game session: the live board, the number entry, the round state, the
/// countdown and the score.
pub struct Game {
    board: Option<Board>,
    input: InputState,
    round: RoundState,
    timer: Timer,
    points: Points,
}

impl View for Game {
    type V = GameView;

    closed spec fn view(&self) -> GameView {
        GameView {
            board: match self.board {
                Some(b) => Some(b@),
                None => None,
            },
            input: self.input,
            round: self.round,
            timer: self.timer,
            points: self.points,
        }
    }
}

impl Game {
    pub open spec fn wf(&self) -> bool {
        self@.wf()
    }

    /// A session before its first round: no board, zero score.
    pub fn new() -> (r: Game)
        ensures
            r.wf(),
            r@.board is None,
            r@.round == RoundState::Idle,
            r@.input == cleared(),
            r@.timer.wf(),
            r@.timer.duration == ROUND_MICROS,
            r@.timer.elapsed == 0,
            !r@.timer.just_expired,
            r@.points == (Points { correct: 0, incorrect: 0 }),
    {
        Game {
            board: None,
            input: InputState::new(),
            round: RoundState::Idle,
            timer: Timer::new(),
            points: Points::new(),
        }
    }

    /// Starts a round on `board` from any state: the score, the countdown and
    /// the entry are reset.
    pub fn restart(&mut self, board: Board)
        requires
            old(self).wf(),
            board.wf(),
        ensures
            final(self).wf(),
            final(self)@ == old(self)@.restarted(board@),
    {
        self.board = Some(board);
        self.input.reset();
        self.round = RoundState::Active;
        self.timer.reset();
        self.points.reset();
    }

    /// Starts a round on a freshly generated board.
    pub fn restart_with(&mut self, rng: &mut StdRng)
        requires
            old(self).wf(),
        ensures
            final(self).wf(),
            final(self)@.board is Some,
            final(self)@ == old(self)@.restarted(final(self)@.board.unwrap()),
    {
        let board = Board::generate(rng);
        self.restart(board);
    }

    /// Advances the countdown while a round runs; returns whether the round
    /// expired on this tick.
    pub fn tick(&mut self, delta: u64) -> (r: bool)
        requires
            old(self).wf(),
        ensures
            final(self).wf(),
            final(self)@ == old(self)@.ticked(delta),
            r == (old(self)@.round == RoundState::Active && final(self)@.round
                == RoundState::Expired),
    {
        let active = self.round == RoundState::Active;
        self.timer.tick(delta, active);
        if active && self.timer.just_expired() {
            self.round = RoundState::Expired;
            true
        } else {
            false
        }
    }

    /// Feeds one key event to the entry while a round runs; returns the answer
    /// it emits, if any.
    pub fn key(&mut self, e: InputEvent) -> (r: Option<Answer>)
        requires
            old(self).wf(),
            e.valid(),
        ensures
            final(self).wf(),
            final(self)@ == old(self)@.keyed(e),
            r == old(self)@.key_answer(e),
    {
        if self.round == RoundState::Active {
            self.input.apply(e)
        } else {
            None
        }
    }

    /// Judges an answer against the live board while a round runs, counts the
    /// outcome and moves on to `next`; outside a round nothing changes.
    pub fn judge(&mut self, a: Answer, next: Board) -> (r: Option<Outcome>)
        requires
            old(self).wf(),
            next.wf(),
        ensures
            final(self).wf(),
            final(self)@ == old(self)@.judged(a, next@),
            r == old(self)@.judgement(a),
    {
        if self.round != RoundState::Active {
            return None;
        }
        let outcome = match &self.board {
            Some(b) => if a.0 == b.differential() {
                Outcome::Correct
            } else {
                Outcome::Incorrect
            },
            None => {
                return None;
            },
        };
        self.points.record(outcome);
        self.board = Some(next);
        self.input.reset();
        Some(outcome)
    }
    /// Judges an answer as `judge` does, moving on to a freshly generated board.
    pub fn judge_with(&mut self, a: Answer, rng: &mut StdRng) -> (r: Option<Outcome>)
        requires
            old(self).wf(),
        ensures
            final(self).wf(),
            old(self)@.judgement(a) is Some ==> final(self)@.board is Some && final(self)@
                == old(self)@.judged(
                a,
                final(self)@.board.unwrap(),
            ),
            old(self)@.judgement(a) is None ==> final(self)@ == old(self)@,
            r == old(self)@.judgement(a),
    {
        if self.round != RoundState::Active || self.board.is_none() {
            return None;
        }
        let next = Board::generate(rng);
        self.judge(a, next)
    }

    /// Carries out one command: a restart starts a round on a fresh board; a
    /// key event goes to the entry, and an answer it emits is judged at once,
    /// with a fresh board to follow.
    pub fn apply_command(&mut self, c: Command, rng: &mut StdRng) -> (r: Option<Outcome>)
        requires
            old(self).wf(),
            c matches Command::Input(e) ==> e.valid(),
        ensures
            final(self).wf(),
            c is Restart ==> final(self)@.board is Some && final(self)@ == old(self)@.restarted(
                final(self)@.board.unwrap(),
            ) && r is None,
            c matches Command::Input(e) ==> match old(self)@.key_answer(e) {
                None => final(self)@ == old(self)@.keyed(e) && r is None,
                Some(a) => final(self)@.board is Some && final(self)@ == old(self)@.keyed(
                    e,
                ).judged(a, final(self)@.board.unwrap()) && r == old(self)@.keyed(e).judgement(
                    a,
                ),
            },
    {
        match c {
            Command::Restart => {
                self.restart_with(rng);
                None
            },
            Command::Input(e) => match self.key(e) {
                Some(a) => self.judge_with(a, rng),
                None => None,
            },
        }
    }

    /// The round state.
    pub fn round(&self) -> (r: RoundState)
        ensures
            r == self@.round,
    {
        self.round
    }

    /// The score.
    pub fn points(&self) -> (r: Points)
        ensures
            r == self@.points,
    {
        self.points
    }

    /// The number entry.
    pub fn input(&self) -> (r: InputState)
        ensures
            r == self@.input,
    {
        self.input
    }

    /// The countdown.
    pub fn timer(&self) -> (r: Timer)
        ensures
            r == self@.timer,
    {
        self.timer
    }

    /// The live board, if one was generated.
    pub fn board(&self) -> (r: Option<&Board>)
        ensures
            match r {
                Some(b) => self@.board == Some(b@),
                None => self@.board is None,
            },
    {
        match &self.board {
            Some(b) => Some(b),
            None => None,
        }
    }
}

} // verus!
