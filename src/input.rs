use vstd::prelude::*;
use crate::text::{decimal_chars, push_decimal};

verus! {

/// The largest magnitude the number entry can hold.
pub const MAX_MAGNITUDE: u16 = 65535;

/// A finalized answer typed by the player.
#[derive(Clone, Copy, Debug, PartialEq, Eq, Structural)]
pub struct Answer(pub i32);

/// A semantic key event understood by the number entry.
#[derive(Clone, Copy, Debug, PartialEq, Eq, Structural)]
pub enum InputEvent {
    Digit(u8),
    Negate,
    Backspace,
    Increment,
    Decrement,
    Submit,
    Reset,
}

impl InputEvent {
    pub open spec fn valid(self) -> bool {
        match self {
            InputEvent::Digit(d) => d <= 9,
            _ => true,
        }
    }
}

/// The player's number entry in progress. `touched` is true once an edit was
/// made since the last reset: the rendered text is then non-empty.
#[derive(Clone, Copy, Debug, PartialEq, Eq, Structural)]
pub struct InputState {
    pub magnitude: u16,
    pub negative: bool,
    pub touched: bool,
}

/// The entry right after a reset.
pub open spec fn cleared() -> InputState {
    InputState { magnitude: 0, negative: false, touched: false }
}

/// The signed value the entry stands for.
pub open spec fn signed_value(s: InputState) -> int {
    if s.negative {
        -(s.magnitude as int)
    } else {
        s.magnitude as int
    }
}

/// The state after one event.
pub open spec fn next_state(s: InputState, e: InputEvent) -> InputState {
    let m = s.magnitude as int;
    match e {
        InputEvent::Digit(d) => if m * 10 + d <= MAX_MAGNITUDE {
            InputState { magnitude: (m * 10 + d) as u16, touched: true, ..s }
        } else {
            s
        },
        InputEvent::Negate => InputState { negative: !s.negative, touched: true, ..s },
        InputEvent::Backspace => InputState {
            magnitude: (m / 10) as u16,
            negative: if m == 0 { false } else { s.negative },
            touched: true,
        },
        InputEvent::Increment => if s.negative {
            if m > 0 {
                InputState { magnitude: (m - 1) as u16, touched: true, ..s }
            } else {
                InputState { magnitude: 1, negative: false, touched: true }
            }
        } else if m < MAX_MAGNITUDE {
            InputState { magnitude: (m + 1) as u16, touched: true, ..s }
        } else {
            InputState { touched: true, ..s }
        },
        InputEvent::Decrement => if !s.negative {
            if m > 0 {
                InputState { magnitude: (m - 1) as u16, touched: true, ..s }
            } else {
                InputState { magnitude: 1, negative: true, touched: true }
            }
        } else if m < MAX_MAGNITUDE {
            InputState { magnitude: (m + 1) as u16, touched: true, ..s }
        } else {
            InputState { touched: true, ..s }
        },
        InputEvent::Submit => cleared(),
        InputEvent::Reset => cleared(),
    }
}

/// The answer one event emits: only a submit of a touched entry emits one.
pub open spec fn emitted(s: InputState, e: InputEvent) -> Option<Answer> {
    if e is Submit && s.touched {
        Some(Answer(signed_value(s) as i32))
    } else {
        None
    }
}

/// The state after a sequence of events, applied first to last.
pub open spec fn run_events(s: InputState, es: Seq<InputEvent>) -> InputState
    decreases es.len(),
{
    if es.len() == 0 {
        s
    } else {
        next_state(run_events(s, es.drop_last()), es.last())
    }
}

/// One digit event for each digit.
pub open spec fn digit_events(ds: Seq<u8>) -> Seq<InputEvent> {
    ds.map_values(|d: u8| InputEvent::Digit(d))
}

/// The number the digits spell in decimal, most significant first.
pub open spec fn decimal_value(ds: Seq<u8>) -> int
    decreases ds.len(),
{
    if ds.len() == 0 {
        0
    } else {
        decimal_value(ds.drop_last()) * 10 + ds.last()
    }
}

/// Typing digits into a fresh entry builds their decimal value, as long as that
/// value fits; the entry is then touched and non-negative.
pub proof fn lemma_digits_build_value(ds: Seq<u8>)
    requires
        forall|i: int| 0 <= i < ds.len() ==> ds[i] <= 9,
        decimal_value(ds) <= MAX_MAGNITUDE,
    ensures
        run_events(cleared(), digit_events(ds)) == (InputState {
            magnitude: decimal_value(ds) as u16,
            negative: false,
            touched: ds.len() > 0,
        }),
    decreases ds.len(),
{
    if ds.len() > 0 {
        let pre = ds.drop_last();
        assert(digit_events(ds).drop_last() =~= digit_events(pre));
        assert(decimal_value(pre) >= 0) by {
            lemma_decimal_value_nonneg(pre);
        }
        lemma_digits_build_value(pre);
    }
}

/// A decimal value is never negative.
pub proof fn lemma_decimal_value_nonneg(ds: Seq<u8>)
    ensures
        decimal_value(ds) >= 0,
    decreases ds.len(),
{
    if ds.len() > 0 {
        lemma_decimal_value_nonneg(ds.drop_last());
    }
}

/// Typing one or more digits into a fresh entry and submitting emits the
/// digits' decimal value, provided it never exceeds the largest magnitude.
pub proof fn lemma_digits_then_submit(ds: Seq<u8>)
    requires
        ds.len() > 0,
        forall|i: int| 0 <= i < ds.len() ==> ds[i] <= 9,
        decimal_value(ds) <= MAX_MAGNITUDE,
    ensures
        emitted(run_events(cleared(), digit_events(ds)), InputEvent::Submit) == Some(
            Answer(decimal_value(ds) as i32),
        ),
        run_events(cleared(), digit_events(ds).push(InputEvent::Submit)) == cleared(),
{
    lemma_digits_build_value(ds);
    lemma_decimal_value_nonneg(ds);
    assert(digit_events(ds).push(InputEvent::Submit).drop_last() =~= digit_events(ds));
}

/// The text shown for an entry: empty while untouched, else the magnitude in
/// decimal after a minus sign when negative.
pub open spec fn rendered(s: InputState) -> Seq<char> {
    if !s.touched {
        Seq::empty()
    } else if s.negative {
        seq!['-'] + decimal_chars(s.magnitude as nat)
    } else {
        decimal_chars(s.magnitude as nat)
    }
}

impl InputState {
    /// The text shown for the entry.
    pub fn render(&self) -> (r: Vec<char>)
        ensures
            r@ == rendered(*self),
    {
        let mut out: Vec<char> = Vec::new();
        if self.touched {
            if self.negative {
                out.push('-');
            }
            push_decimal(&mut out, self.magnitude as u64);
        }
        proof {
            assert(out@ =~= rendered(*self));
        }
        out
    }

    /// A fresh, untouched entry.
    pub fn new() -> (r: InputState)
        ensures
            r == cleared(),
    {
        InputState { magnitude: 0, negative: false, touched: false }
    }

    /// Clears the entry.
    pub fn reset(&mut self)
        ensures
            *final(self) == cleared(),
    {
        *self = InputState::new();
    }

    /// The signed value of the entry.
    pub fn value(&self) -> (r: i32)
        ensures
            r == signed_value(*self),
    {
        if self.negative {
            -(self.magnitude as i32)
        } else {
            self.magnitude as i32
        }
    }

    /// Applies one event, and returns the answer it emits, if any.
    pub fn apply(&mut self, e: InputEvent) -> (r: Option<Answer>)
        requires
            e.valid(),
        ensures
            *final(self) == next_state(*old(self), e),
            r == emitted(*old(self), e),
    {
        match e {
            InputEvent::Digit(d) => {
                let n: u32 = self.magnitude as u32 * 10 + d as u32;
                if n <= MAX_MAGNITUDE as u32 {
                    self.magnitude = n as u16;
                    self.touched = true;
                }
                None
            },
            InputEvent::Negate => {
                self.negative = !self.negative;
                self.touched = true;
                None
            },
            InputEvent::Backspace => {
                if self.magnitude == 0 {
                    self.negative = false;
                }
                self.magnitude = self.magnitude / 10;
                self.touched = true;
                None
            },
            InputEvent::Increment => {
                if self.negative {
                    if self.magnitude > 0 {
                        self.magnitude = self.magnitude - 1;
                    } else {
                        self.negative = false;
                        self.magnitude = 1;
                    }
                } else if self.magnitude < MAX_MAGNITUDE {
                    self.magnitude = self.magnitude + 1;
                }
                self.touched = true;
                None
            },
            InputEvent::Decrement => {
                if !self.negative {
                    if self.magnitude > 0 {
                        self.magnitude = self.magnitude - 1;
                    } else {
                        self.negative = true;
                        self.magnitude = 1;
                    }
                } else if self.magnitude < MAX_MAGNITUDE {
                    self.magnitude = self.magnitude + 1;
                }
                self.touched = true;
                None
            },
            InputEvent::Submit => {
                let r = if self.touched {
                    Some(Answer(self.value()))
                } else {
                    None
                };
                self.reset();
                r
            },
            InputEvent::Reset => {
                self.reset();
                None
            },
        }
    }
}

} // verus!
