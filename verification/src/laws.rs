//! What holds of every machine: laws of the step, stated over the model and
//! proved from its definition.

use crate::cells::SPACE;
use crate::machine::{clamped, opcode, quotient, remainder, top, Machine, NeedsInputType};
use crate::numeral::{
    all_digits, decimal, digits, digits_value, is_digit, parsed, parsed_or_zero,
};
use crate::opcodes::{is_instruction, GET, HALT, PUT, QUOTE, READ_CHAR, READ_NUMBER};
use crate::position::{next_x, next_y, Direction};
use crate::program::{cell_of, fills_cell, laid_upto};
use crate::state::restarted;
use vstd::prelude::*;

verus! {

/// Outside string mode, a cell whose low byte is no instruction only lets the
/// pointer pass: the step moves the pointer one cell on and changes nothing
/// else, whatever else the cell holds. The space is such a cell.
pub proof fn law_undefined_instruction_only_moves(m: Machine, choice: Direction)
    requires
        !m.string_mode,
        !is_instruction(opcode(m.here())),
    ensures
        m.step(choice) == (m.moved(), NeedsInputType::Continue),
        m.moved().stack == m.stack,
        m.moved().output == m.output,
        m.moved().input == m.input,
        m.moved().string_mode == m.string_mode,
        m.moved().running == m.running,
        m.moved().direction == m.direction,
        m.moved().base == m.base,
        m.moved().overlay == m.overlay,
{
}

/// Coordinates wrap modulo 2^16: a move right or down adds one, a move left
/// or up takes one away, and the other coordinate stays.
pub proof fn law_moves_wrap(x: u16, y: u16)
    ensures
        next_x(x, Direction::Right) == (x + 1) % 0x1_0000,
        next_x(x, Direction::Left) == (x - 1) % 0x1_0000,
        next_y(y, Direction::Down) == (y + 1) % 0x1_0000,
        next_y(y, Direction::Up) == (y - 1) % 0x1_0000,
        next_y(y, Direction::Left) == y && next_y(y, Direction::Right) == y,
        next_x(x, Direction::Up) == x && next_x(x, Direction::Down) == x,
{
}

/// Only at `?` does the drawn direction matter.
pub proof fn law_choice_matters_only_at_random(m: Machine, one: Direction, other: Direction)
    requires
        !m.draws(),
    ensures
        m.step(one) == m.step(other),
{
}

/// A step never starts a halted machine, and it halts a running one only by
/// carrying out `@`.
pub proof fn law_only_halt_stops(m: Machine, choice: Direction)
    ensures
        m.step(choice).0.running == (m.running && !(!m.string_mode && opcode(m.here()) == HALT)),
{
}

/// A step never touches the program text.
pub proof fn law_step_keeps_base(m: Machine, choice: Direction)
    ensures
        m.step(choice).0.base == m.base,
{
}

/// A step leaves string mode only on a `"`, and enters it only on a `"`.
pub proof fn law_quote_toggles_string_mode(m: Machine, choice: Direction)
    ensures
        m.step(choice).0.string_mode != m.string_mode <==> (if m.string_mode {
            m.here() == QUOTE as i64
        } else {
            opcode(m.here()) == QUOTE
        }),
{
}

/// On `&` or `~` with an empty input buffer the step asks for input and
/// changes nothing: pointer, direction and all the rest stay, so that the
/// same cell is carried out again.
pub proof fn law_empty_input_suspends(m: Machine, choice: Direction)
    requires
        !m.string_mode,
        m.input.len() == 0,
        opcode(m.here()) == READ_NUMBER || opcode(m.here()) == READ_CHAR,
    ensures
        m.step(choice).0 == m,
        m.step(choice).1 == (if opcode(m.here()) == READ_NUMBER {
            NeedsInputType::Decimal
        } else {
            NeedsInputType::Character
        }),
{
}

/// Once the host has answered a request for input with a line that is not
/// empty, the next step completes the instruction: it pushes what was read,
/// empties the buffer and moves the pointer on by exactly one cell.
pub proof fn law_supplied_input_resumes(m: Machine, line: Seq<char>, choice: Direction)
    requires
        !m.string_mode,
        m.input.len() == 0,
        opcode(m.here()) == READ_NUMBER || opcode(m.here()) == READ_CHAR,
        line.len() > 0,
    ensures
        ({
            let waiting = m.step(choice).0;
            let supplied = Machine { input: line, ..waiting };
            let read = if opcode(m.here()) == READ_NUMBER {
                parsed_or_zero(line)
            } else {
                line[0] as i64
            };
            supplied.step(choice) == (
                Machine { stack: m.stack.push(read), ..m }.moved(),
                NeedsInputType::Continue,
            )
        }),
{
    assert(m.input =~= Seq::empty());
}

/// What `p` writes, `g` reads back: after a step that carries out `p` on the
/// values `v`, `x`, `y`, every machine with the same two layers that carries
/// out `g` on `x`, `y` pushes `v`, whatever the program text holds there.
pub proof fn law_get_reads_what_put_wrote(
    writer: Machine,
    reader: Machine,
    choice: Direction,
)
    requires
        !writer.string_mode,
        opcode(writer.here()) == PUT,
        reader.base == writer.step(choice).0.base,
        reader.overlay == writer.step(choice).0.overlay,
        !reader.string_mode,
        opcode(reader.here()) == GET,
        clamped(top(reader.stack, 1)) == clamped(top(writer.stack, 1)),
        clamped(top(reader.stack, 0)) == clamped(top(writer.stack, 0)),
    ensures
        reader.step(choice).0.stack.len() > 0,
        reader.step(choice).0.stack.last() == top(writer.stack, 2),
{
}

/// A restart undoes everything that `p` wrote: each cell reads as the program
/// text has it, or as a space where the text has nothing.
pub proof fn law_restart_reads_program_text(m: Machine, x: u16, y: u16)
    ensures
        restarted(m).base == m.base,
        restarted(m).cell(x, y) == (if m.base.contains_key((x, y)) {
            m.base[(x, y)]
        } else {
            SPACE
        }),
{
}

/// String mode pushes what the pointer passes, in the order in which it
/// passes it: as long as no `"` comes, every step pushes the value of the
/// cell under the pointer and moves on, and nothing else changes.
pub proof fn law_string_mode_pushes_in_order(m: Machine, choices: Seq<Direction>)
    requires
        m.string_mode,
        forall|i: nat| i < choices.len() ==> m.cell(m.ahead(i).0, m.ahead(i).1) != QUOTE as i64,
    ensures
        m.run(choices) == (Machine {
            stack: m.stack + Seq::new(
                choices.len(),
                |i: int| m.cell(m.ahead(i as nat).0, m.ahead(i as nat).1),
            ),
            x: m.ahead(choices.len()).0,
            y: m.ahead(choices.len()).1,
            ..m
        }),
    decreases choices.len(),
{
    let passed = Seq::new(
        choices.len(),
        |i: int| m.cell(m.ahead(i as nat).0, m.ahead(i as nat).1),
    );
    if choices.len() == 0 {
        assert(m.stack + passed =~= m.stack);
    } else {
        let before = choices.drop_last();
        let n = before.len();
        law_string_mode_pushes_in_order(m, before);
        let earlier = Seq::new(n, |i: int| m.cell(m.ahead(i as nat).0, m.ahead(i as nat).1));
        let middle = m.run(before);
        assert(middle.cell(middle.x, middle.y) == m.cell(m.ahead(n).0, m.ahead(n).1));
        assert(m.stack + passed =~= (m.stack + earlier).push(
            m.cell(m.ahead(n).0, m.ahead(n).1),
        ));
    }
}

/// Loading keeps what it does not write over: a cell that no character of
/// the text fills holds afterwards what it held before.
pub proof fn law_laid_keeps_other_cells(
    base: Map<(u16, u16), i64>,
    text: Seq<char>,
    n: int,
    cell: (u16, u16),
)
    requires
        0 <= n <= text.len(),
        forall|i: int| 0 <= i < n && fills_cell(text, i) ==> cell_of(text, i) != cell,
    ensures
        laid_upto(base, text, n).contains_key(cell) == base.contains_key(cell),
        laid_upto(base, text, n)[cell] == base[cell],
    decreases n,
{
    if n > 0 {
        law_laid_keeps_other_cells(base, text, n - 1, cell);
    }
}

/// Loading puts each character on its row and in its column: the cell that
/// the character at index `i` fills holds that character's code point
/// afterwards, unless a later character of the text fills the same cell.
pub proof fn law_laid_places_characters(
    base: Map<(u16, u16), i64>,
    text: Seq<char>,
    n: int,
    i: int,
)
    requires
        0 <= i < n <= text.len(),
        fills_cell(text, i),
        forall|j: int| i < j < n && fills_cell(text, j) ==> cell_of(text, j) != cell_of(text, i),
    ensures
        laid_upto(base, text, n).contains_key(cell_of(text, i)),
        laid_upto(base, text, n)[cell_of(text, i)] == text[i] as i64,
    decreases n,
{
    if n - 1 > i {
        law_laid_places_characters(base, text, n - 1, i);
    }
}

/// The digits of a number are digits, at least one of them, and write that
/// number.
proof fn lemma_digits_write(n: nat)
    ensures
        digits(n).len() > 0,
        all_digits(digits(n)),
        digits_value(digits(n)) == n,
    decreases n,
{
    if n < 10 {
        let s = digits(n);
        assert(s.drop_last().len() == 0);
        assert(digits_value(s.drop_last()) == 0);
    } else {
        lemma_digits_write(n / 10);
        let s = digits(n);
        assert(s.drop_last() =~= digits(n / 10));
        assert forall|i: int| 0 <= i < s.len() implies is_digit(#[trigger] s[i]) by {
            if i < s.len() - 1 {
                assert(s[i] == digits(n / 10)[i]);
            }
        }
    }
}

/// What `.` writes, `&` reads: the decimal text of a 64-bit number is read
/// back as that number.
pub proof fn law_decimal_reads_back(v: i64)
    ensures
        parsed(decimal(v as int)) == Some(v),
{
    if v < 0 {
        let n = (-(v as int)) as nat;
        lemma_digits_write(n);
        assert(decimal(v as int).drop_first() =~= digits(n));
    } else {
        lemma_digits_write(v as nat);
        assert(is_digit(digits(v as nat)[0]));
    }
}

/// Division and remainder belong together: the quotient times the divisor
/// plus the remainder is the dividend, and the remainder is nearer to zero
/// than the divisor and has the sign of the dividend.
pub proof fn law_quotient_and_remainder(b: int, a: int)
    requires
        a != 0,
    ensures
        b == a * quotient(b, a) + remainder(b, a),
        -a < remainder(b, a) < a || a < remainder(b, a) < -a,
        b >= 0 ==> remainder(b, a) >= 0,
        b <= 0 ==> remainder(b, a) <= 0,
{
    let x = if b >= 0 { b } else { -b };
    let d = if a > 0 { a } else { -a };
    assert(x == d * (x / d) + x % d && 0 <= x % d < d) by (nonlinear_arith)
        requires
            d > 0,
    ;
    assert(a * -(x / d) == -(a * (x / d))) by (nonlinear_arith);
    assert((-a) * (x / d) == -(a * (x / d))) by (nonlinear_arith);
}

/// A division by zero yields zero, and so does its remainder.
pub proof fn law_division_by_zero(b: int)
    ensures
        quotient(b, 0) == 0,
        remainder(b, 0) == 0,
{
}

} // verus!
