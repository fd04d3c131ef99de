//! The mathematical model of the interpreter: what a machine state is and
//! what one step does to it.

use crate::cells::SPACE;
use crate::numeral::{decimal, parsed_or_zero};
use crate::opcodes::{
    ADD, BRANCH_ACROSS, BRANCH_ALONG, BRIDGE, DISCARD, DIVIDE, DUPLICATE, GET, GO_DOWN, GO_LEFT,
    GO_RIGHT, GO_UP, GREATER, HALT, MODULO, MULTIPLY, NINE, NOT, PRINT_CHAR, PRINT_NUMBER, PUT,
    QUOTE, RANDOM, READ_CHAR, READ_NUMBER, SUBTRACT, SWAP, ZERO,
};
use crate::position::{next_x, next_y, Direction};
use vstd::prelude::*;

verus! {

/// What a step asks of the host before the machine can go on.
#[derive(Clone, Copy, Debug, PartialEq, Eq, Structural)]
pub enum NeedsInputType {
    /// Nothing: the step ran to its end.
    Continue,
    /// A line whose first character is to be read.
    Character,
    /// A line holding a decimal number.
    Decimal,
}

/// The integer in `i64` that is congruent to `n` modulo 2^64.
pub open spec fn wrap(n: int) -> i64 {
    let r = n % 0x1_0000_0000_0000_0000;
    if r >= 0x8000_0000_0000_0000 {
        (r - 0x1_0000_0000_0000_0000) as i64
    } else {
        r as i64
    }
}

/// `b` divided by `a`, rounded towards zero; 0 where `a` is 0.
pub open spec fn quotient(b: int, a: int) -> int {
    if a == 0 {
        0
    } else if b >= 0 && a > 0 {
        b / a
    } else if b >= 0 {
        -(b / (-a))
    } else if a > 0 {
        -((-b) / a)
    } else {
        (-b) / (-a)
    }
}

/// What `b` leaves when divided by `a`, with the sign of `b`; 0 where `a`
/// is 0.
pub open spec fn remainder(b: int, a: int) -> int {
    if a == 0 {
        0
    } else if b >= 0 && a > 0 {
        b % a
    } else if b >= 0 {
        b % (-a)
    } else if a > 0 {
        -((-b) % a)
    } else {
        -((-b) % (-a))
    }
}

/// The coordinate that a popped value addresses: the value itself where it
/// fits, else the nearest edge of the grid.
pub open spec fn clamped(v: i64) -> u16 {
    if v < 0 {
        0u16
    } else if v > 0xffff {
        0xffffu16
    } else {
        v as u16
    }
}

/// The instruction that a cell value selects: its low byte.
pub open spec fn opcode(v: i64) -> u8 {
    (v % 256) as u8
}

/// The character with code point `v`, or U+FFFD where `v` is no code point.
pub open spec fn glyph(v: i64) -> char {
    if 0 <= v <= 0xD7FF || 0xE000 <= v <= 0x10FFFF {
        v as char
    } else {
        '\u{FFFD}'
    }
}

/// The `i`-th value from the top of `stack`, counting from 0. Below the
/// bottom the stack reads as an endless run of zeros.
pub open spec fn top(stack: Seq<i64>, i: nat) -> i64 {
    if i < stack.len() {
        stack[stack.len() - 1 - i]
    } else {
        0
    }
}

/// `stack` without its top `n` values; empty where it holds fewer.
pub open spec fn dropped(stack: Seq<i64>, n: nat) -> Seq<i64> {
    if n <= stack.len() {
        stack.take(stack.len() - n)
    } else {
        Seq::empty()
    }
}

/// The whole state of an interpreter session.
pub struct Machine {
    /// The program text: the layer that loading and editing write.
    pub base: Map<(u16, u16), i64>,
    /// The layer that the running program writes, consulted first.
    pub overlay: Map<(u16, u16), i64>,
    pub string_mode: bool,
    pub x: u16,
    pub y: u16,
    pub direction: Direction,
    /// The operand stack, bottom first.
    pub stack: Seq<i64>,
    pub output: Seq<char>,
    pub input: Seq<char>,
    pub running: bool,
}

impl Machine {
    /// The value read at `(x, y)`: the overlay's where it has one, else the
    /// base's, else a space.
    pub open spec fn cell(self, x: u16, y: u16) -> i64 {
        if self.overlay.contains_key((x, y)) {
            self.overlay[(x, y)]
        } else if self.base.contains_key((x, y)) {
            self.base[(x, y)]
        } else {
            SPACE
        }
    }

    /// The value under the instruction pointer.
    pub open spec fn here(self) -> i64 {
        self.cell(self.x, self.y)
    }

    /// The same machine with the pointer one cell further along its direction.
    pub open spec fn moved(self) -> Machine {
        Machine {
            x: next_x(self.x, self.direction),
            y: next_y(self.y, self.direction),
            ..self
        }
    }

    /// The same machine with another stack.
    pub open spec fn with_stack(self, stack: Seq<i64>) -> Machine {
        Machine { stack, ..self }
    }

    /// The same machine heading in another direction.
    pub open spec fn heading(self, direction: Direction) -> Machine {
        Machine { direction, ..self }
    }

    /// Whether the next step waits for input: the pointer stands on `&` or
    /// `~` outside string mode and the input buffer is empty.
    pub open spec fn awaits(self) -> NeedsInputType {
        if self.string_mode || self.input.len() > 0 {
            NeedsInputType::Continue
        } else if opcode(self.here()) == READ_NUMBER {
            NeedsInputType::Decimal
        } else if opcode(self.here()) == READ_CHAR {
            NeedsInputType::Character
        } else {
            NeedsInputType::Continue
        }
    }

    /// Whether the next step draws a random direction: the pointer stands on
    /// `?` outside string mode.
    pub open spec fn draws(self) -> bool {
        !self.string_mode && opcode(self.here()) == RANDOM
    }

    /// The effect of instruction `op` on everything but the pointer's final
    /// advance. `choice` is the direction taken where `op` is `?`. For `&`
    /// and `~` this is the effect with input at hand.
    pub open spec fn execute(self, op: u8, choice: Direction) -> Machine {
        let a = top(self.stack, 0);
        let b = top(self.stack, 1);
        let c = top(self.stack, 2);
        let one = dropped(self.stack, 1);
        let two = dropped(self.stack, 2);
        if op == GO_UP {
            self.heading(Direction::Up)
        } else if op == GO_DOWN {
            self.heading(Direction::Down)
        } else if op == GO_LEFT {
            self.heading(Direction::Left)
        } else if op == GO_RIGHT {
            self.heading(Direction::Right)
        } else if op == ADD {
            self.with_stack(two.push(wrap(a + b)))
        } else if op == SUBTRACT {
            self.with_stack(two.push(wrap(b - a)))
        } else if op == MULTIPLY {
            self.with_stack(two.push(wrap(a * b)))
        } else if op == DIVIDE {
            self.with_stack(two.push(wrap(quotient(b as int, a as int))))
        } else if op == MODULO {
            self.with_stack(two.push(wrap(remainder(b as int, a as int))))
        } else if op == NOT {
            self.with_stack(one.push(if a == 0 { 1i64 } else { 0i64 }))
        } else if op == GREATER {
            self.with_stack(two.push(if b > a { 1i64 } else { 0i64 }))
        } else if op == BRANCH_ACROSS {
            self.with_stack(one).heading(if a == 0 { Direction::Right } else { Direction::Left })
        } else if op == BRANCH_ALONG {
            self.with_stack(one).heading(if a == 0 { Direction::Down } else { Direction::Up })
        } else if op == RANDOM {
            self.heading(choice)
        } else if op == DUPLICATE {
            self.with_stack(one.push(a).push(a))
        } else if op == SWAP {
            self.with_stack(two.push(a).push(b))
        } else if op == DISCARD {
            self.with_stack(one)
        } else if op == BRIDGE {
            self.moved()
        } else if op == PUT {
            Machine {
                overlay: self.overlay.insert((clamped(b), clamped(a)), c),
                stack: dropped(self.stack, 3),
                ..self
            }
        } else if op == GET {
            self.with_stack(two.push(self.cell(clamped(b), clamped(a))))
        } else if op == PRINT_NUMBER {
            Machine { output: self.output + decimal(a as int).push(' '), stack: one, ..self }
        } else if op == PRINT_CHAR {
            Machine { output: self.output.push(glyph(a)), stack: one, ..self }
        } else if op == READ_NUMBER {
            Machine {
                stack: self.stack.push(parsed_or_zero(self.input)),
                input: Seq::empty(),
                ..self
            }
        } else if op == READ_CHAR {
            Machine {
                stack: self.stack.push(self.input.first() as i64),
                input: Seq::empty(),
                ..self
            }
        } else if op == QUOTE {
            Machine { string_mode: true, ..self }
        } else if op == HALT {
            Machine { running: false, ..self }
        } else if ZERO <= op <= NINE {
            self.with_stack(self.stack.push((op - ZERO) as i64))
        } else {
            self
        }
    }

    /// The effect of reading the cell under the pointer in string mode: a
    /// `"` ends the mode, any other value is pushed as it stands.
    pub open spec fn quote(self) -> Machine {
        if self.here() == QUOTE as i64 {
            Machine { string_mode: false, ..self }
        } else {
            self.with_stack(self.stack.push(self.here()))
        }
    }

    /// Where the pointer stands after `n` moves along its direction.
    pub open spec fn ahead(self, n: nat) -> (u16, u16)
        decreases n,
    {
        if n == 0 {
            (self.x, self.y)
        } else {
            let (x, y) = self.ahead((n - 1) as nat);
            (next_x(x, self.direction), next_y(y, self.direction))
        }
    }

    /// The machine after one step for each entry of `choices`, which gives the
    /// direction drawn in that step. A step that asks for input is followed
    /// by the next all the same.
    pub open spec fn run(self, choices: Seq<Direction>) -> Machine
        decreases choices.len(),
    {
        if choices.len() == 0 {
            self
        } else {
            self.run(choices.drop_last()).step(choices.last()).0
        }
    }

    /// One step: the machine afterwards and what the step asks of the host.
    /// A step that asks for input changes nothing.
    pub open spec fn step(self, choice: Direction) -> (Machine, NeedsInputType) {
        if self.string_mode {
            (self.quote().moved(), NeedsInputType::Continue)
        } else if self.awaits() != NeedsInputType::Continue {
            (self, self.awaits())
        } else {
            (self.execute(opcode(self.here()), choice).moved(), NeedsInputType::Continue)
        }
    }
}

} // verus!
