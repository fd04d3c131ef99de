//! The instruction set: the byte that selects each instruction.

use vstd::prelude::*;

verus! {

/// `^`: head up.
pub const GO_UP: u8 = 94;

/// `v`: head down.
pub const GO_DOWN: u8 = 118;

/// `<`: head left.
pub const GO_LEFT: u8 = 60;

/// `>`: head right.
pub const GO_RIGHT: u8 = 62;

/// `+`: add.
pub const ADD: u8 = 43;

/// `-`: subtract.
pub const SUBTRACT: u8 = 45;

/// `*`: multiply.
pub const MULTIPLY: u8 = 42;

/// `/`: divide.
pub const DIVIDE: u8 = 47;

/// `%`: take the remainder.
pub const MODULO: u8 = 37;

/// `!`: logical not.
pub const NOT: u8 = 33;

/// `` ` ``: greater than.
pub const GREATER: u8 = 96;

/// `_`: branch left or right.
pub const BRANCH_ACROSS: u8 = 95;

/// `|`: branch up or down.
pub const BRANCH_ALONG: u8 = 124;

/// `?`: head in a random direction.
pub const RANDOM: u8 = 63;

/// `:`: duplicate the top of the stack.
pub const DUPLICATE: u8 = 58;

/// `\`: swap the two values on top of the stack.
pub const SWAP: u8 = 92;

/// `$`: discard the top of the stack.
pub const DISCARD: u8 = 36;

/// `#`: skip the next cell.
pub const BRIDGE: u8 = 35;

/// `p`: write a cell.
pub const PUT: u8 = 112;

/// `g`: read a cell.
pub const GET: u8 = 103;

/// `.`: write a number to the output.
pub const PRINT_NUMBER: u8 = 46;

/// `,`: write a character to the output.
pub const PRINT_CHAR: u8 = 44;

/// `&`: read a number from the input.
pub const READ_NUMBER: u8 = 38;

/// `~`: read a character from the input.
pub const READ_CHAR: u8 = 126;

/// `"`: switch string mode on or off.
pub const QUOTE: u8 = 34;

/// `@`: halt.
pub const HALT: u8 = 64;

/// `0`: the first of the ten digits, which follow each other.
pub const ZERO: u8 = 48;

/// `9`: the last of the ten digits.
pub const NINE: u8 = 57;

/// Whether `op` is an instruction with an effect of its own. Every other
/// byte, the space among them, only lets the pointer pass.
pub open spec fn is_instruction(op: u8) -> bool {
    ||| op == GO_UP || op == GO_DOWN || op == GO_LEFT || op == GO_RIGHT
    ||| op == ADD || op == SUBTRACT || op == MULTIPLY || op == DIVIDE || op == MODULO
    ||| op == NOT || op == GREATER || op == BRANCH_ACROSS || op == BRANCH_ALONG
    ||| op == RANDOM || op == DUPLICATE || op == SWAP || op == DISCARD || op == BRIDGE
    ||| op == PUT || op == GET || op == PRINT_NUMBER || op == PRINT_CHAR
    ||| op == READ_NUMBER || op == READ_CHAR || op == QUOTE || op == HALT
    ||| ZERO <= op <= NINE
}

} // verus!
