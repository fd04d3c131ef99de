//! The interpreter itself: the grid, the instruction pointer, the stack and
//! the buffers, and the step that drives them.

use crate::cells::{lookup, store, SPACE};
use crate::chance::random_direction;
use crate::machine::{
    clamped, dropped, glyph, opcode, quotient, remainder, top, wrap, Machine, NeedsInputType,
};
use crate::numeral::{parse_decimal, push_decimal};
use crate::opcodes::{
    ADD, BRANCH_ACROSS, BRANCH_ALONG, BRIDGE, DISCARD, DIVIDE, DUPLICATE, GET, GO_DOWN, GO_LEFT,
    GO_RIGHT, GO_UP, GREATER, HALT, MODULO, MULTIPLY, NINE, NOT, PRINT_CHAR, PRINT_NUMBER, PUT,
    QUOTE, RANDOM, READ_CHAR, READ_NUMBER, SUBTRACT, SWAP, ZERO,
};
use crate::position::{advance, Direction, Position};
use crate::program::{column_of, fills_cell, laid, laid_upto, row_of};
use ahash::HashMap;
use vstd::prelude::*;
use vstd::string::*;

verus! {

/// An interpreter session: a program on its grid and the state of its run.
pub struct FungedState {
    /// The base layer: the program text as loaded and edited.
    pub map: HashMap<(u16, u16), i64>,
    /// The overlay: what the running program has written with `p`.
    pub put_map: HashMap<(u16, u16), i64>,
    pub is_string_mode: bool,
    pub position: Position<u16>,
    pub direction: Direction,
    pub stack: Vec<i64>,
    pub output: String,
    pub input: String,
    pub is_running: bool,
}

impl View for FungedState {
    type V = Machine;

    open spec fn view(&self) -> Machine {
        Machine {
            base: self.map@,
            overlay: self.put_map@,
            string_mode: self.is_string_mode,
            x: self.position.x,
            y: self.position.y,
            direction: self.direction,
            stack: self.stack@,
            output: self.output@,
            input: self.input@,
            running: self.is_running,
        }
    }
}

/// The machine before any program is loaded: an empty grid, the pointer at
/// the origin heading right, nothing on the stack or in the buffers, halted.
pub open spec fn blank() -> Machine {
    Machine {
        base: Map::empty(),
        overlay: Map::empty(),
        string_mode: false,
        x: 0,
        y: 0,
        direction: Direction::Right,
        stack: Seq::empty(),
        output: Seq::empty(),
        input: Seq::empty(),
        running: false,
    }
}

/// The machine that a restart leaves: the program text of `m` and nothing
/// else of it.
pub open spec fn restarted(m: Machine) -> Machine {
    Machine { base: m.base, ..blank() }
}

impl Default for FungedState {
    fn default() -> (s: Self)
        ensures
            s@ == blank(),
    {
        Self::new()
    }
}

impl FungedState {
    pub fn new() -> (s: Self)
        ensures
            s@ == blank(),
    {
        Self {
            map: HashMap::default(),
            put_map: HashMap::default(),
            is_string_mode: false,
            position: Position::new(0, 0),
            direction: Direction::Right,
            stack: Vec::new(),
            output: String::new(),
            input: String::new(),
            is_running: false,
        }
    }

    /// Lays `string` on the program text: line by line down the rows, and
    /// within a line character by character along the columns.
    pub fn map_from_string(&mut self, string: &str)
        ensures
            final(self)@ == (Machine {
                base: laid(old(self)@.base, string@),
                ..old(self)@
            }),
    {
        let mut row: u16 = 0;
        let mut column: u16 = 0;
        // A carriage return waits until the next character shows whether it
        // ends a line.
        let mut held = false;
        for ch in it: string.chars()
            invariant
                it.seq() == string@,
                held ==> it.index() > 0 && string@[it.index() - 1] == '\r',
                row == row_of(string@, it.index() as int) % 0x1_0000,
                column == column_of(string@, it.index() - (if held { 1int } else { 0int }))
                    % 0x1_0000,
                self@ == (Machine {
                    base: laid_upto(
                        old(self)@.base,
                        string@,
                        it.index() - (if held { 1int } else { 0int }),
                    ),
                    ..old(self)@
                }),
        {
            let ghost i = it.index() as int;
            if held {
                if ch != '\n' {
                    assert(fills_cell(string@, i - 1));
                    self.setc(column, row, '\r');
                    column = column.wrapping_add(1);
                } else {
                    assert(!fills_cell(string@, i - 1));
                }
                held = false;
            }
            assert(ch != '\n' ==> column == column_of(string@, i) % 0x1_0000);
            assert(self@.base == laid_upto(old(self)@.base, string@, i));
            if ch == '\n' {
                row = row.wrapping_add(1);
                column = 0;
            } else if ch == '\r' {
                held = true;
            } else {
                assert(fills_cell(string@, i));
                self.setc(column, row, ch);
                column = column.wrapping_add(1);
            }
        }
        if held {
            assert(fills_cell(string@, string@.len() - 1));
            self.setc(column, row, '\r');
        }
    }

    /// Reads the cell at `(x, y)`.
    pub fn get(&self, x: u16, y: u16) -> (v: i64)
        ensures
            v == self@.cell(x, y),
    {
        match lookup(&self.put_map, x, y) {
            Some(v) => v,
            None => match lookup(&self.map, x, y) {
                Some(v) => v,
                None => SPACE,
            },
        }
    }

    /// Writes `v` into the program text at `(x, y)`.
    pub fn set(&mut self, x: u16, y: u16, v: i64)
        ensures
            final(self)@ == (Machine { base: old(self)@.base.insert((x, y), v), ..old(self)@ }),
    {
        store(&mut self.map, x, y, v);
    }

    /// Writes the character `v` into the program text at `(x, y)`.
    pub fn setc(&mut self, x: u16, y: u16, v: char)
        ensures
            final(self)@ == (Machine {
                base: old(self)@.base.insert((x, y), v as i64),
                ..old(self)@
            }),
    {
        store(&mut self.map, x, y, v as i64);
    }

    /// Hands the machine a line of input for the next `&` or `~`.
    pub fn supply_input(&mut self, line: String)
        ensures
            final(self)@ == (Machine { input: line@, ..old(self)@ }),
    {
        self.input = line;
    }

    /// Puts the run back to its start. The program text stays; what the
    /// program wrote with `p` is gone.
    pub fn restart(&mut self)
        ensures
            final(self)@ == restarted(old(self)@),
    {
        self.position = Position::new(0, 0);
        self.direction = Direction::Right;
        self.is_string_mode = false;
        self.is_running = false;
        self.stack.clear();
        self.output.clear();
        self.input.clear();
        self.put_map.clear();
    }

    /// Moves the pointer one cell along its direction.
    fn step_forward(&mut self)
        ensures
            final(self)@ == old(self)@.moved(),
    {
        advance(&mut self.position, self.direction);
    }

    /// Carries out an instruction that only steers the pointer.
    fn steer(&mut self, op: u8, choice: Direction)
        requires
            op == GO_UP || op == GO_DOWN || op == GO_LEFT || op == GO_RIGHT || op == BRANCH_ACROSS
                || op == BRANCH_ALONG || op == RANDOM,
        ensures
            final(self)@ == old(self)@.execute(op, choice),
    {
        if op == GO_UP {
            self.direction = Direction::Up;
        } else if op == GO_DOWN {
            self.direction = Direction::Down;
        } else if op == GO_LEFT {
            self.direction = Direction::Left;
        } else if op == GO_RIGHT {
            self.direction = Direction::Right;
        } else if op == BRANCH_ACROSS {
            let a = pop(&mut self.stack);
            self.direction = if a == 0 { Direction::Right } else { Direction::Left };
        } else if op == BRANCH_ALONG {
            let a = pop(&mut self.stack);
            self.direction = if a == 0 { Direction::Down } else { Direction::Up };
        } else {
            self.direction = choice;
        }
    }

    /// Carries out an instruction that computes on the top of the stack.
    fn compute(&mut self, op: u8, choice: Direction)
        requires
            op == ADD || op == SUBTRACT || op == MULTIPLY || op == DIVIDE || op == MODULO || op
                == NOT || op == GREATER,
        ensures
            final(self)@ == old(self)@.execute(op, choice),
    {
        let a = pop(&mut self.stack);
        if op == NOT {
            self.stack.push(if a == 0 { 1 } else { 0 });
        } else {
            let b = pop(&mut self.stack);
            let v = if op == ADD {
                sum(a, b)
            } else if op == SUBTRACT {
                difference(b, a)
            } else if op == MULTIPLY {
                product(a, b)
            } else if op == DIVIDE {
                divide(b, a)
            } else if op == MODULO {
                modulo(b, a)
            } else if b > a {
                1
            } else {
                0
            };
            self.stack.push(v);
        }
        assert(self@.stack =~= old(self)@.execute(op, choice).stack);
    }

    /// Carries out an instruction that only rearranges or extends the stack.
    fn arrange(&mut self, op: u8, choice: Direction)
        requires
            op == DUPLICATE || op == SWAP || op == DISCARD || ZERO <= op <= NINE,
        ensures
            final(self)@ == old(self)@.execute(op, choice),
    {
        if op == DUPLICATE {
            let a = pop(&mut self.stack);
            self.stack.push(a);
            self.stack.push(a);
        } else if op == SWAP {
            let a = pop(&mut self.stack);
            let b = pop(&mut self.stack);
            self.stack.push(a);
            self.stack.push(b);
        } else if op == DISCARD {
            pop(&mut self.stack);
        } else {
            self.stack.push((op - ZERO) as i64);
        }
        assert(self@.stack =~= old(self)@.execute(op, choice).stack);
    }

    /// Carries out `p` or `g`.
    fn access(&mut self, op: u8, choice: Direction)
        requires
            op == PUT || op == GET,
        ensures
            final(self)@ == old(self)@.execute(op, choice),
    {
        let y = pop(&mut self.stack);
        let x = pop(&mut self.stack);
        if op == PUT {
            let v = pop(&mut self.stack);
            store(&mut self.put_map, clamp_coordinate(x), clamp_coordinate(y), v);
        } else {
            let v = self.get(clamp_coordinate(x), clamp_coordinate(y));
            self.stack.push(v);
        }
        assert(self@.stack =~= old(self)@.execute(op, choice).stack);
    }

    /// Carries out an instruction that writes output or, with input at hand,
    /// reads it.
    fn transfer(&mut self, op: u8, choice: Direction)
        requires
            op == PRINT_NUMBER || op == PRINT_CHAR || op == READ_NUMBER || op == READ_CHAR,
            op == READ_CHAR ==> old(self)@.input.len() > 0,
        ensures
            final(self)@ == old(self)@.execute(op, choice),
    {
        if op == PRINT_NUMBER {
            let a = pop(&mut self.stack);
            push_decimal(&mut self.output, a);
            self.output.push(' ');
        } else if op == PRINT_CHAR {
            let a = pop(&mut self.stack);
            self.output.push(glyph_of(a));
        } else if op == READ_NUMBER {
            let v = match parse_decimal(self.input.as_str()) {
                Some(v) => v,
                None => 0,
            };
            self.stack.push(v);
            self.input.clear();
        } else {
            let c = self.input.as_str().get_char(0);
            self.stack.push(c as i64);
            self.input.clear();
        }
        assert(self@.output =~= old(self)@.execute(op, choice).output);
    }

    /// Carries out instruction `op`, short of the pointer's final advance.
    fn execute(&mut self, op: u8, choice: Direction)
        requires
            op == READ_CHAR ==> old(self)@.input.len() > 0,
        ensures
            final(self)@ == old(self)@.execute(op, choice),
    {
        if op == GO_UP || op == GO_DOWN || op == GO_LEFT || op == GO_RIGHT || op == BRANCH_ACROSS
            || op == BRANCH_ALONG || op == RANDOM {
            self.steer(op, choice);
        } else if op == ADD || op == SUBTRACT || op == MULTIPLY || op == DIVIDE || op == MODULO
            || op == NOT || op == GREATER {
            self.compute(op, choice);
        } else if op == DUPLICATE || op == SWAP || op == DISCARD || (ZERO <= op && op <= NINE) {
            self.arrange(op, choice);
        } else if op == PUT || op == GET {
            self.access(op, choice);
        } else if op == PRINT_NUMBER || op == PRINT_CHAR || op == READ_NUMBER || op == READ_CHAR {
            self.transfer(op, choice);
        } else if op == BRIDGE {
            self.step_forward();
        } else if op == QUOTE {
            self.is_string_mode = true;
        } else if op == HALT {
            self.is_running = false;
        }
    }

    /// Whether the next step draws a random direction.
    pub fn draws(&self) -> (b: bool)
        ensures
            b == self@.draws(),
    {
        !self.is_string_mode && opcode_of(self.get(self.position.x, self.position.y)) == RANDOM
    }

    /// Runs one step, heading in direction `choice` where the instruction
    /// under the pointer is `?`.
    pub fn do_step_with(&mut self, choice: Direction) -> (need: NeedsInputType)
        ensures
            (final(self)@, need) == old(self)@.step(choice),
    {
        let here = self.get(self.position.x, self.position.y);
        if self.is_string_mode {
            if here == QUOTE as i64 {
                self.is_string_mode = false;
            } else {
                self.stack.push(here);
            }
        } else {
            let op = opcode_of(here);
            if self.input.as_str().is_empty() {
                if op == READ_NUMBER {
                    return NeedsInputType::Decimal;
                }
                if op == READ_CHAR {
                    return NeedsInputType::Character;
                }
            }
            self.execute(op, choice);
        }
        self.step_forward();
        NeedsInputType::Continue
    }

    /// Runs one step. Where the instruction under the pointer is `?`, the
    /// direction is drawn at random.
    pub fn do_step(&mut self) -> (need: NeedsInputType)
        ensures
            exists|choice: Direction| (final(self)@, need) == old(self)@.step(choice),
            !old(self)@.draws() ==> forall|choice: Direction|
                (final(self)@, need) == #[trigger] old(self)@.step(choice),
    {
        if self.draws() {
            let choice = random_direction();
            self.do_step_with(choice)
        } else {
            self.do_step_with(Direction::Right)
        }
    }
}

/// Takes the top value off `stack`; an empty stack yields 0 and stays empty.
fn pop(stack: &mut Vec<i64>) -> (v: i64)
    ensures
        v == top(old(stack)@, 0),
        final(stack)@ == dropped(old(stack)@, 1),
{
    match stack.pop() {
        Some(v) => v,
        None => 0,
    }
}

/// The instruction that the cell value `v` selects.
pub fn opcode_of(v: i64) -> (op: u8)
    ensures
        op == opcode(v),
{
    match v.checked_rem_euclid(256) {
        Some(low) => low as u8,
        None => 0,
    }
}

/// The coordinate that the popped value `v` addresses.
pub fn clamp_coordinate(v: i64) -> (c: u16)
    ensures
        c == clamped(v),
{
    if v < 0 {
        0
    } else if v > 0xffff {
        0xffff
    } else {
        v as u16
    }
}

/// The character that `,` writes for the value `v`.
pub fn glyph_of(v: i64) -> (c: char)
    ensures
        c == glyph(v),
{
    if v < 0 || v > 0x10FFFF {
        '\u{FFFD}'
    } else {
        match char::from_u32(v as u32) {
            Some(c) => c,
            None => '\u{FFFD}',
        }
    }
}

/// `a` plus `b` as `+` computes it.
pub fn sum(a: i64, b: i64) -> (r: i64)
    ensures
        r == wrap(a + b),
{
    a.wrapping_add(b)
}

/// `b` minus `a` as `-` computes it.
pub fn difference(b: i64, a: i64) -> (r: i64)
    ensures
        r == wrap(b - a),
{
    b.wrapping_sub(a)
}

/// `a` times `b` as `*` computes it.
pub fn product(a: i64, b: i64) -> (r: i64)
    ensures
        r == wrap(a * b),
{
    a.wrapping_mul(b)
}

proof fn lemma_quotient_bounds(b: int, a: int)
    requires
        b >= 0,
        a > 0,
    ensures
        0 <= b / a <= b,
        0 <= b % a < a,
        b == 0 ==> b / a == 0 && b % a == 0,
        b > 0 && a >= 2 ==> b / a < b,
{
    assert(0 <= b / a <= b && (b == 0 ==> b / a == 0 && b % a == 0) && (b > 0 && a >= 2 ==> b / a
        < b)) by (nonlinear_arith)
        requires
            b >= 0,
            a > 0,
    ;
}

/// `b` divided by `a` as `/` computes it.
pub fn divide(b: i64, a: i64) -> (q: i64)
    ensures
        q == wrap(quotient(b as int, a as int)),
{
    if a == 0 {
        0
    } else if b == i64::MIN && a == -1 {
        i64::MIN
    } else {
        let found = b.checked_div(a);
        proof {
            let x = if b >= 0 { b as int } else { -(b as int) };
            let d = if a > 0 { a as int } else { -(a as int) };
            lemma_quotient_bounds(x, d);
            let exact = quotient(b as int, a as int);
            assert(exact == (if (b >= 0) == (a > 0) { x / d } else { -(x / d) }));
            assert(i64::MIN <= exact <= i64::MAX);
            assert(b * -1 == -(b as int) && a * -1 == -(a as int));
            assert(found == Some(exact as i64));
        }
        match found {
            Some(q) => q,
            None => 0,
        }
    }
}

/// What `b` leaves when divided by `a`, as `%` computes it.
pub fn modulo(b: i64, a: i64) -> (r: i64)
    ensures
        r == wrap(remainder(b as int, a as int)),
{
    if a == 0 {
        0
    } else if b == i64::MIN && a == -1 {
        0
    } else {
        let found = b.checked_rem(a);
        proof {
            let x = if b >= 0 { b as int } else { -(b as int) };
            let d = if a > 0 { a as int } else { -(a as int) };
            lemma_quotient_bounds(x, d);
            let exact = remainder(b as int, a as int);
            assert(exact == (if b >= 0 { x % d } else { -(x % d) }));
            assert(i64::MIN <= exact <= i64::MAX);
            assert(b * -1 == -(b as int) && a * -1 == -(a as int));
            assert(found == Some(exact as i64));
        }
        match found {
            Some(r) => r,
            None => 0,
        }
    }
}

} // verus!
