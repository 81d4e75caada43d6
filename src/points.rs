use vstd::prelude::*;

verus! {

/// The verdict on one judged answer.
#[derive(Clone, Copy, Debug, PartialEq, Eq, Structural)]
pub enum Outcome {
    Correct,
    Incorrect,
}

/// The running score of a session.
#[derive(Clone, Copy, Debug, PartialEq, Eq, Structural)]
pub struct Points {
    pub correct: u32,
    pub incorrect: u32,
}

/// The score after one outcome; a counter at its largest value stays there.
pub open spec fn recorded(p: Points, o: Outcome) -> Points {
    match o {
        Outcome::Correct => Points {
            correct: if p.correct < u32::MAX { (p.correct + 1) as u32 } else { p.correct },
            ..p
        },
        Outcome::Incorrect => Points {
            incorrect: if p.incorrect < u32::MAX { (p.incorrect + 1) as u32 } else { p.incorrect },
            ..p
        },
    }
}

impl Points {
    /// A zero score.
    pub fn new() -> (r: Points)
        ensures
            r == (Points { correct: 0, incorrect: 0 }),
    {
        Points { correct: 0, incorrect: 0 }
    }

    /// Counts one outcome.
    pub fn record(&mut self, o: Outcome)
        ensures
            *final(self) == recorded(*old(self), o),
    {
        match o {
            Outcome::Correct => {
                self.correct = self.correct.saturating_add(1);
            },
            Outcome::Incorrect => {
                self.incorrect = self.incorrect.saturating_add(1);
            },
        }
    }

    /// Zeroes both counters.
    pub fn reset(&mut self)
        ensures
            *final(self) == (Points { correct: 0, incorrect: 0 }),
    {
        *self = Points::new();
    }

    pub fn correct(&self) -> (r: u32)
        ensures
            r == self.correct,
    {
        self.correct
    }

    pub fn incorrect(&self) -> (r: u32)
        ensures
            r == self.incorrect,
    {
        self.incorrect
    }
}

} // verus!
