use funged::chance::{direction_from_index, random_direction};
use funged::listing::shown_of;
use funged::numeral::{parse_decimal, push_decimal};
use funged::position::advance;
use funged::state::{clamp_coordinate, divide, glyph_of, modulo, opcode_of};
use funged::{Direction, FungedState, NeedsInputType, Position};

fn loaded(text: &str) -> FungedState {
    let mut state = FungedState::new();
    state.map_from_string(text);
    state.is_running = true;
    state
}

fn run(state: &mut FungedState) {
    let mut steps = 0;
    while state.is_running {
        state.do_step();
        steps += 1;
        assert!(steps < 100_000, "the program did not halt");
    }
}

fn is_instruction(op: u8) -> bool {
    b"^v<>+-*/%!`_|?:\\$#pg.,&~\"@0123456789".contains(&op)
}

#[test]
fn undefined_bytes_only_move_the_pointer() {
    for op in 0..=255u8 {
        if is_instruction(op) {
            continue;
        }
        let mut state = FungedState::new();
        state.set(5, 5, op as i64);
        state.position = Position::new(5, 5);
        state.direction = Direction::Down;
        state.stack = vec![1, 2, 3];
        state.output = String::from("out");
        state.input = String::from("in");
        state.is_running = true;
        let need = state.do_step();
        assert_eq!(need, NeedsInputType::Continue);
        assert_eq!((state.position.x, state.position.y), (5, 6), "byte {op}");
        assert_eq!(state.direction, Direction::Down);
        assert_eq!(state.stack, vec![1, 2, 3]);
        assert_eq!(state.output, "out");
        assert_eq!(state.input, "in");
        assert!(!state.is_string_mode);
        assert!(state.is_running);
    }
}

#[test]
fn every_byte_can_be_stepped_over() {
    for op in 0..=255u8 {
        let mut state = FungedState::new();
        state.set(0, 0, op as i64);
        state.input = String::from("7");
        state.do_step();
    }
}

#[test]
fn a_space_only_moves_the_pointer() {
    let mut state = FungedState::new();
    state.stack = vec![9];
    let need = state.do_step();
    assert_eq!(need, NeedsInputType::Continue);
    assert_eq!((state.position.x, state.position.y), (1, 0));
    assert_eq!(state.stack, vec![9]);
    assert_eq!(state.output, "");
}

#[test]
fn the_low_byte_selects_the_instruction() {
    assert_eq!(opcode_of(64), 64);
    assert_eq!(opcode_of(256 + 64), 64);
    assert_eq!(opcode_of(-1), 255);
    assert_eq!(opcode_of(-192), 64);
    assert_eq!(opcode_of(i64::MIN), 0);
    assert_eq!(opcode_of(i64::MAX), 255);

    let mut state = FungedState::new();
    state.set(0, 0, 0x1_0000 + b'7' as i64);
    state.do_step();
    assert_eq!(state.stack, vec![7]);
}

#[test]
fn the_pointer_wraps_at_every_edge() {
    let mut p = Position::new(0u16, 0u16);
    advance(&mut p, Direction::Left);
    assert_eq!((p.x, p.y), (65535, 0));
    advance(&mut p, Direction::Right);
    assert_eq!((p.x, p.y), (0, 0));
    advance(&mut p, Direction::Up);
    assert_eq!((p.x, p.y), (0, 65535));
    advance(&mut p, Direction::Down);
    assert_eq!((p.x, p.y), (0, 0));
    advance(&mut p, Direction::Right);
    advance(&mut p, Direction::Down);
    assert_eq!((p.x, p.y), (1, 1));
}

#[test]
fn subtraction_takes_the_top_from_the_value_below() {
    let mut state = loaded("72-@");
    run(&mut state);
    assert_eq!(state.stack, vec![5]);
}

#[test]
fn string_mode_pushes_in_reading_order() {
    let mut state = loaded("\"abc\"@");
    run(&mut state);
    assert_eq!(state.stack, vec![97, 98, 99]);
    assert!(!state.is_string_mode);
}

#[test]
fn string_mode_pushes_values_as_they_stand() {
    let mut state = FungedState::new();
    state.is_string_mode = true;
    state.set(0, 0, 0x1_0000_0000_0000);
    state.set(1, 0, -3);
    state.set(2, 0, 256 + 34);
    state.set(3, 0, 34);
    for _ in 0..4 {
        assert_eq!(state.do_step(), NeedsInputType::Continue);
    }
    assert_eq!(state.stack, vec![0x1_0000_0000_0000, -3, 256 + 34]);
    assert!(!state.is_string_mode);
    assert_eq!(state.position.x, 4);
}

#[test]
fn string_mode_does_not_wait_for_input() {
    let mut state = loaded("\"&~\"@");
    run(&mut state);
    assert_eq!(state.stack, vec![38, 126]);
}

#[test]
fn a_number_is_asked_for_and_then_read() {
    let mut state = loaded("1&@");
    state.do_step();
    let need = state.do_step();
    assert_eq!(need, NeedsInputType::Decimal);
    assert_eq!((state.position.x, state.position.y), (1, 0));
    assert_eq!(state.direction, Direction::Right);
    assert_eq!(state.stack, vec![1]);
    assert_eq!(state.do_step(), NeedsInputType::Decimal);
    assert_eq!((state.position.x, state.position.y), (1, 0));

    state.supply_input(String::from("571"));
    let need = state.do_step();
    assert_eq!(need, NeedsInputType::Continue);
    assert_eq!((state.position.x, state.position.y), (2, 0));
    assert_eq!(state.stack, vec![1, 571]);
    assert_eq!(state.input, "");
}

#[test]
fn a_character_is_asked_for_and_then_read() {
    let mut state = loaded("~@");
    state.direction = Direction::Down;
    let need = state.do_step();
    assert_eq!(need, NeedsInputType::Character);
    assert_eq!((state.position.x, state.position.y), (0, 0));
    assert_eq!(state.direction, Direction::Down);
    assert!(state.stack.is_empty());

    state.supply_input(String::from("xyz"));
    let need = state.do_step();
    assert_eq!(need, NeedsInputType::Continue);
    assert_eq!((state.position.x, state.position.y), (0, 1));
    assert_eq!(state.stack, vec!['x' as i64]);
    assert_eq!(state.input, "");
}

#[test]
fn an_empty_line_leaves_the_machine_waiting() {
    let mut state = loaded("&");
    assert_eq!(state.do_step(), NeedsInputType::Decimal);
    state.supply_input(String::new());
    assert_eq!(state.do_step(), NeedsInputType::Decimal);
    assert_eq!(state.position.x, 0);
}

#[test]
fn a_line_that_is_no_number_reads_as_zero() {
    for line in ["abc", "12a", " 12", "12 ", "-", "+", "1.5", "--1", "9223372036854775808"] {
        let mut state = loaded("&@");
        state.supply_input(String::from(line));
        run(&mut state);
        assert_eq!(state.stack, vec![0], "line {line:?}");
        assert_eq!(state.input, "");
    }
}

#[test]
fn a_signed_number_is_read() {
    for (line, value) in [
        ("-12", -12),
        ("+12", 12),
        ("007", 7),
        ("0", 0),
        ("-0", 0),
        ("9223372036854775807", i64::MAX),
        ("-9223372036854775808", i64::MIN),
    ] {
        let mut state = loaded("&@");
        state.supply_input(String::from(line));
        run(&mut state);
        assert_eq!(state.stack, vec![value], "line {line:?}");
    }
}

#[test]
fn parse_decimal_reads_as_the_standard_library_does() {
    for line in [
        "", "0", "5", "-5", "+5", "+-5", "-+5", "00", "123456789", "-", "+", "5-", "5+", "a",
        "1a", "a1", " 1", "1 ", "1\n", "٣", "9223372036854775807", "9223372036854775808",
        "-9223372036854775808", "-9223372036854775809", "99999999999999999999999999",
        "-99999999999999999999999999", "0000000000000000000000000000000000000001",
        "18446744073709551616", "18446744073709551615", "92233720368547758070",
    ] {
        assert_eq!(parse_decimal(line), line.parse::<i64>().ok(), "line {line:?}");
    }
}

#[test]
fn push_decimal_writes_as_the_standard_library_does() {
    for v in [0, 1, -1, 9, 10, -10, 99, 100, 12345, -12345, i64::MAX, i64::MIN, i64::MIN + 1] {
        let mut out = String::from(">");
        push_decimal(&mut out, v);
        assert_eq!(out, format!(">{v}"));
    }
}

#[test]
fn put_then_get_reads_the_written_value() {
    let mut state = FungedState::new();
    state.map_from_string("p  g@");
    state.set(9, 7, 'b' as i64);
    state.stack = vec![42, 9, 7];
    state.is_running = true;
    state.do_step();
    assert!(state.stack.is_empty());
    state.stack = vec![9, 7];
    run(&mut state);
    assert_eq!(state.stack, vec![42]);
    assert_eq!(state.get(9, 7), 42);
    assert_eq!(state.get_base(9, 7), 'b' as i64);
}

#[test]
fn put_and_get_clamp_their_coordinates() {
    let mut state = loaded("pg@");
    state.stack = vec![11, -5, 70_000];
    state.do_step();
    assert_eq!(state.get(0, 65535), 11);
    state.stack = vec![-1, 65536];
    state.do_step();
    assert_eq!(state.stack, vec![11]);

    assert_eq!(clamp_coordinate(i64::MIN), 0);
    assert_eq!(clamp_coordinate(-1), 0);
    assert_eq!(clamp_coordinate(0), 0);
    assert_eq!(clamp_coordinate(1234), 1234);
    assert_eq!(clamp_coordinate(65535), 65535);
    assert_eq!(clamp_coordinate(65536), 65535);
    assert_eq!(clamp_coordinate(i64::MAX), 65535);
}

#[test]
fn put_pops_y_then_x_then_the_value() {
    let mut state = loaded("p");
    state.stack = vec![1, 77, 3, 4];
    state.do_step();
    assert_eq!(state.stack, vec![1]);
    assert_eq!(state.get(3, 4), 77);
    assert_eq!(state.get(4, 3), 32);
}

#[test]
fn restart_undoes_what_the_program_wrote() {
    let mut state = loaded("\"r\"97p\"s\"00p@");
    run(&mut state);
    assert_eq!(state.get(9, 7), 'r' as i64);
    assert_eq!(state.get(0, 0), 's' as i64);
    state.output = String::from("text");
    state.input = String::from("line");
    state.stack = vec![1];
    state.is_string_mode = true;
    state.direction = Direction::Up;

    state.restart();

    assert_eq!(state.get(9, 7), 32);
    assert_eq!(state.get(0, 0), '"' as i64);
    assert_eq!(state.map_to_string(), "\"r\"97p\"s\"00p@\n");
    assert!(state.stack.is_empty());
    assert_eq!(state.output, "");
    assert_eq!(state.input, "");
    assert_eq!((state.position.x, state.position.y), (0, 0));
    assert_eq!(state.direction, Direction::Right);
    assert!(!state.is_string_mode);
    assert!(!state.is_running);
}

#[test]
fn a_new_machine_is_blank() {
    for state in [FungedState::new(), FungedState::default()] {
        assert!(state.map.is_empty());
        assert!(state.put_map.is_empty());
        assert!(!state.is_string_mode);
        assert_eq!((state.position.x, state.position.y), (0, 0));
        assert_eq!(state.direction, Direction::Right);
        assert!(state.stack.is_empty());
        assert_eq!(state.output, "");
        assert_eq!(state.input, "");
        assert!(!state.is_running);
        assert_eq!(state.get(0, 0), 32);
        assert_eq!(state.get(65535, 65535), 32);
    }
}

#[test]
fn the_overlay_is_read_before_the_program_text() {
    let mut state = FungedState::new();
    assert_eq!(state.get(3, 4), 32);
    state.set(3, 4, 1000);
    assert_eq!(state.get(3, 4), 1000);
    assert_eq!(state.get(4, 3), 32);
    state.map_from_string("p");
    state.stack = vec![-7, 3, 4];
    state.do_step();
    assert_eq!(state.get(3, 4), -7);
    assert_eq!(state.get_base(3, 4), 1000);
    state.setc(3, 4, 'x');
    assert_eq!(state.get(3, 4), -7);
    assert_eq!(state.get_base(3, 4), 'x' as i64);
}

#[test]
fn popping_an_empty_stack_yields_zero() {
    let mut state = loaded("+@");
    run(&mut state);
    assert_eq!(state.stack, vec![0]);

    let mut state = loaded("5-@");
    run(&mut state);
    assert_eq!(state.stack, vec![-5]);

    let mut state = loaded("$$@");
    run(&mut state);
    assert!(state.stack.is_empty());

    let mut state = loaded("\\@");
    run(&mut state);
    assert_eq!(state.stack, vec![0, 0]);

    let mut state = loaded("7\\@");
    run(&mut state);
    assert_eq!(state.stack, vec![7, 0]);

    let mut state = loaded(".@");
    run(&mut state);
    assert_eq!(state.output, "0 ");
}

#[test]
fn division_by_zero_yields_zero() {
    let mut state = loaded("70/@");
    run(&mut state);
    assert_eq!(state.stack, vec![0]);

    let mut state = loaded("70%@");
    run(&mut state);
    assert_eq!(state.stack, vec![0]);

    assert_eq!(divide(i64::MIN, 0), 0);
    assert_eq!(modulo(i64::MIN, 0), 0);
}

#[test]
fn division_rounds_towards_zero() {
    assert_eq!(divide(7, 2), 3);
    assert_eq!(divide(-7, 2), -3);
    assert_eq!(divide(7, -2), -3);
    assert_eq!(divide(-7, -2), 3);
    assert_eq!(divide(0, 5), 0);
    assert_eq!(divide(i64::MIN, 1), i64::MIN);
    assert_eq!(divide(i64::MIN, 2), i64::MIN / 2);
    assert_eq!(divide(i64::MAX, -1), -i64::MAX);
    assert_eq!(modulo(7, 2), 1);
    assert_eq!(modulo(-7, 2), -1);
    assert_eq!(modulo(7, -2), 1);
    assert_eq!(modulo(-7, -2), -1);
    assert_eq!(modulo(6, 3), 0);
    assert_eq!(modulo(i64::MIN, 3), i64::MIN % 3);

    let mut state = loaded("/@");
    state.stack = vec![-7, 2];
    run(&mut state);
    assert_eq!(state.stack, vec![-3]);
}

#[test]
fn arithmetic_wraps_around() {
    for (program, b, a, result) in [
        ("+", i64::MAX, 1, i64::MIN),
        ("+", i64::MIN, -1, i64::MAX),
        ("-", i64::MIN, 1, i64::MAX),
        ("-", 0, i64::MIN, i64::MIN),
        ("*", i64::MAX, 2, -2),
        ("*", i64::MIN, -1, i64::MIN),
        ("/", i64::MIN, -1, i64::MIN),
        ("%", i64::MIN, -1, 0),
    ] {
        let mut state = loaded(program);
        state.stack = vec![b, a];
        state.do_step();
        assert_eq!(state.stack, vec![result], "{b} {program} {a}");
    }
}

#[test]
fn comparison_and_negation() {
    for (b, a, greater) in [(2, 1, 1), (1, 2, 0), (1, 1, 0), (-1, -2, 1), (i64::MIN, i64::MAX, 0)] {
        let mut state = loaded("`");
        state.stack = vec![b, a];
        state.do_step();
        assert_eq!(state.stack, vec![greater]);
    }
    for (a, not) in [(0, 1), (1, 0), (-1, 0), (i64::MIN, 0)] {
        let mut state = loaded("!");
        state.stack = vec![5, a];
        state.do_step();
        assert_eq!(state.stack, vec![5, not]);
    }
}

#[test]
fn branches_pop_and_steer() {
    for (program, a, direction) in [
        ("_", 0, Direction::Right),
        ("_", 1, Direction::Left),
        ("_", -1, Direction::Left),
        ("|", 0, Direction::Down),
        ("|", 1, Direction::Up),
        ("|", -1, Direction::Up),
    ] {
        let mut state = loaded(program);
        state.position = Position::new(0, 0);
        state.stack = vec![8, a];
        state.do_step();
        assert_eq!(state.direction, direction);
        assert_eq!(state.stack, vec![8]);
        let mut at = Position::new(0u16, 0u16);
        advance(&mut at, direction);
        assert_eq!((state.position.x, state.position.y), (at.x, at.y));
    }
    let mut state = loaded("_");
    state.do_step();
    assert_eq!(state.direction, Direction::Right);
}

#[test]
fn arrows_set_the_direction() {
    for (program, direction) in [
        ("^", Direction::Up),
        ("v", Direction::Down),
        ("<", Direction::Left),
        (">", Direction::Right),
    ] {
        let mut state = loaded(program);
        state.direction = Direction::Down;
        state.stack = vec![4];
        state.do_step();
        assert_eq!(state.direction, direction);
        assert_eq!(state.stack, vec![4]);
    }
}

#[test]
fn the_bridge_skips_one_cell() {
    let mut state = loaded("#");
    state.direction = Direction::Left;
    state.do_step();
    assert_eq!((state.position.x, state.position.y), (65534, 0));
}

#[test]
fn the_random_instruction_takes_the_given_direction() {
    for direction in [Direction::Up, Direction::Down, Direction::Left, Direction::Right] {
        let mut state = loaded("?");
        state.stack = vec![3];
        assert!(state.draws());
        let need = state.do_step_with(direction);
        assert_eq!(need, NeedsInputType::Continue);
        assert_eq!(state.direction, direction);
        assert_eq!(state.stack, vec![3]);
        let mut at = Position::new(0u16, 0u16);
        advance(&mut at, direction);
        assert_eq!((state.position.x, state.position.y), (at.x, at.y));
    }
}

#[test]
fn the_given_direction_matters_only_at_the_random_instruction() {
    for program in ["1", "^", "+", " ", "\""] {
        let mut one = loaded(program);
        let mut other = loaded(program);
        assert!(!one.draws());
        one.do_step_with(Direction::Up);
        other.do_step_with(Direction::Left);
        assert_eq!(one.direction, other.direction);
        assert_eq!((one.position.x, one.position.y), (other.position.x, other.position.y));
        assert_eq!(one.stack, other.stack);
    }
    let mut state = loaded("?");
    state.is_string_mode = true;
    assert!(!state.draws());
    state.do_step_with(Direction::Up);
    assert_eq!(state.direction, Direction::Right);
    assert_eq!(state.stack, vec![63]);
}

#[test]
fn the_random_instruction_reaches_every_direction() {
    let mut seen = [false; 4];
    for _ in 0..2000 {
        let mut state = loaded("?");
        state.position = Position::new(10, 10);
        state.set(10, 10, '?' as i64);
        state.do_step();
        let (x, y) = (state.position.x, state.position.y);
        let i = match state.direction {
            Direction::Up => {
                assert_eq!((x, y), (10, 9));
                0
            }
            Direction::Down => {
                assert_eq!((x, y), (10, 11));
                1
            }
            Direction::Left => {
                assert_eq!((x, y), (9, 10));
                2
            }
            Direction::Right => {
                assert_eq!((x, y), (11, 10));
                3
            }
        };
        seen[i] = true;
    }
    assert_eq!(seen, [true; 4]);
}

#[test]
fn a_drawn_direction_is_one_of_the_four() {
    let mut seen = [false; 4];
    for _ in 0..2000 {
        let i = match random_direction() {
            Direction::Up => 0,
            Direction::Down => 1,
            Direction::Left => 2,
            Direction::Right => 3,
        };
        seen[i] = true;
    }
    assert_eq!(seen, [true; 4]);
    assert_eq!(direction_from_index(0), Direction::Up);
    assert_eq!(direction_from_index(1), Direction::Down);
    assert_eq!(direction_from_index(2), Direction::Left);
    assert_eq!(direction_from_index(3), Direction::Right);
}

#[test]
fn numbers_are_written_in_decimal_with_a_space() {
    let mut state = loaded("...@");
    state.stack = vec![i64::MIN, -40, 1234567890];
    run(&mut state);
    assert_eq!(state.output, "1234567890 -40 -9223372036854775808 ");
}

#[test]
fn characters_are_written_by_code_point() {
    let mut state = loaded(",,,,,,@");
    state.stack = vec![0x11_0000, 0xD800, -1, 0x1F600, 0xE9, 65];
    run(&mut state);
    assert_eq!(state.output, "Aé😀\u{FFFD}\u{FFFD}\u{FFFD}");

    assert_eq!(glyph_of(0), '\0');
    assert_eq!(glyph_of(0xD7FF), '\u{D7FF}');
    assert_eq!(glyph_of(0xDFFF), '\u{FFFD}');
    assert_eq!(glyph_of(0xE000), '\u{E000}');
    assert_eq!(glyph_of(0x10_FFFF), '\u{10FFFF}');
    assert_eq!(glyph_of(i64::MAX), '\u{FFFD}');
    assert_eq!(glyph_of(i64::MIN), '\u{FFFD}');
    assert_eq!(glyph_of(0x1_0000_0041), '\u{FFFD}');
}

#[test]
fn reading_a_character_empties_the_whole_buffer() {
    let mut state = loaded("~~");
    state.supply_input(String::from("éa"));
    assert_eq!(state.do_step(), NeedsInputType::Continue);
    assert_eq!(state.stack, vec![0xE9]);
    assert_eq!(state.input, "");
    assert_eq!(state.do_step(), NeedsInputType::Character);
}

#[test]
fn digits_push_their_value() {
    let mut state = loaded("0123456789@");
    run(&mut state);
    assert_eq!(state.stack, vec![0, 1, 2, 3, 4, 5, 6, 7, 8, 9]);
}

#[test]
fn only_halt_stops_the_machine() {
    let mut state = loaded("1 +\"@\"@");
    for _ in 0..6 {
        state.do_step();
        assert!(state.is_running);
    }
    state.do_step();
    assert!(!state.is_running);
    assert_eq!((state.position.x, state.position.y), (7, 0));
    assert_eq!(state.stack, vec![1, 64]);

    let mut state = FungedState::new();
    state.map_from_string("12");
    state.do_step();
    assert!(!state.is_running);
    assert_eq!(state.stack, vec![1]);
}

#[test]
fn a_halted_machine_can_still_be_stepped() {
    let mut state = loaded("@1");
    state.do_step();
    assert!(!state.is_running);
    state.do_step();
    assert!(!state.is_running);
    assert_eq!(state.stack, vec![1]);
}

#[test]
fn text_is_laid_out_by_line_and_character() {
    let mut state = FungedState::new();
    state.map_from_string("ab\nc\n\nd é");
    assert_eq!(state.get(0, 0), 'a' as i64);
    assert_eq!(state.get(1, 0), 'b' as i64);
    assert_eq!(state.get(2, 0), 32);
    assert_eq!(state.get(0, 1), 'c' as i64);
    assert_eq!(state.get(1, 1), 32);
    assert_eq!(state.get(0, 2), 32);
    assert_eq!(state.get(0, 3), 'd' as i64);
    assert_eq!(state.get(1, 3), 32);
    assert_eq!(state.get(2, 3), 0xE9);
    assert_eq!(state.map.len(), 6);
    assert!(state.put_map.is_empty());
}

#[test]
fn text_is_laid_out_as_its_lines_are() {
    for text in [
        "", "\n", "a", "a\n", "a\r\n", "a\r", "a\rb", "a\r\r\nb", "\r", "\r\n", "\r\r", "\n\n",
        "ab\r\ncd\r\n", "x\n\ny", "\n\r\n\ra", "a\r\n\rb\r",
    ] {
        let mut state = FungedState::new();
        state.map_from_string(text);
        let mut cells = 0;
        for (r, line) in text.lines().enumerate() {
            for (c, character) in line.chars().enumerate() {
                assert_eq!(state.get(c as u16, r as u16), character as i64, "text {text:?}");
                cells += 1;
            }
        }
        assert_eq!(state.map.len(), cells, "text {text:?}");
    }
}

#[test]
fn loading_writes_over_the_text_that_is_there() {
    let mut state = FungedState::new();
    state.map_from_string("abc\ndef");
    state.map_from_string("x\n\nz");
    assert_eq!(state.map_to_string(), "xbc\ndef\nz  \n");
}

#[test]
fn long_lines_wrap_around_the_grid() {
    let mut text = "a".repeat(65536);
    text.push_str("bc");
    let mut state = FungedState::new();
    state.map_from_string(&text);
    assert_eq!(state.get(0, 0), 'b' as i64);
    assert_eq!(state.get(1, 0), 'c' as i64);
    assert_eq!(state.get(2, 0), 'a' as i64);
    assert_eq!(state.get(65535, 0), 'a' as i64);
    assert_eq!(state.map.len(), 65536);
}

#[test]
fn many_lines_wrap_around_the_grid() {
    let mut text = "a\n".repeat(65536);
    text.push('b');
    let mut state = FungedState::new();
    state.map_from_string(&text);
    assert_eq!(state.get(0, 0), 'b' as i64);
    assert_eq!(state.get(0, 1), 'a' as i64);
    assert_eq!(state.get(0, 65535), 'a' as i64);
}

#[test]
fn the_program_text_is_written_out_over_its_rectangle() {
    let mut state = FungedState::new();
    assert_eq!(state.extent(), (0, 0));
    assert_eq!(state.map_to_string(), "");

    state.map_from_string("12+\n.@");
    assert_eq!(state.extent(), (3, 2));
    assert_eq!(state.map_to_string(), "12+\n.@ \n");

    state.setc(4, 3, 'x');
    assert_eq!(state.extent(), (5, 4));
    assert_eq!(state.map_to_string(), "12+  \n.@   \n     \n    x\n");

    state.set(0, 0, -1);
    state.set(1, 0, 0x1F600);
    assert_eq!(state.map_to_string(), "\u{FFFD}😀+  \n.@   \n     \n    x\n");
}

#[test]
fn the_written_text_loads_as_the_same_program() {
    let mut state = FungedState::new();
    state.map_from_string("v  >1v\n>12^ @\n\n   è");
    let text = state.map_to_string();
    assert_eq!(text, "v  >1v\n>12^ @\n      \n   è  \n");
    let mut again = FungedState::new();
    again.map_from_string(&text);
    for y in 0..6 {
        for x in 0..8 {
            assert_eq!(again.get(x, y), state.get(x, y));
        }
    }
    assert_eq!(again.map_to_string(), text);
}

#[test]
fn the_overlay_is_not_written_out() {
    let mut state = loaded("\"r\"97p@");
    run(&mut state);
    assert_eq!(state.get(9, 7), 'r' as i64);
    assert_eq!(state.extent(), (7, 1));
    assert_eq!(state.map_to_string(), "\"r\"97p@\n");
}

#[test]
fn the_far_corner_is_inside_the_rectangle() {
    let mut state = FungedState::new();
    state.setc(65535, 0, 'x');
    state.setc(0, 2, 'y');
    assert_eq!(state.extent(), (65536, 3));
    let text = state.map_to_string();
    assert_eq!(text.len(), 3 * 65537);
    assert_eq!(text.chars().nth(65535), Some('x'));
    assert_eq!(text.chars().nth(65536), Some('\n'));
    assert_eq!(text.chars().nth(2 * 65537), Some('y'));
}

#[test]
fn a_window_is_drawn_row_by_row() {
    let mut state = loaded("12\n3");
    assert_eq!(state.render(0, 0), Some(String::new()));
    assert_eq!(state.render(3, 0), Some(String::new()));
    assert_eq!(state.render(0, 2), Some(String::from("\n\n")));
    assert_eq!(state.render(3, 2), Some(String::from("12 \n3  \n")));
    assert_eq!(state.render(1, 1), Some(String::from("1\n")));

    state.stack = vec![-1, 2, 0];
    state.set(2, 2, 'p' as i64);
    state.position = Position::new(2, 2);
    state.do_step();
    assert_eq!(state.render(3, 1), Some(String::from("12 \n")));
    state.set(0, 0, 0xD800);
    assert_eq!(state.render(3, 1), None);
    assert_eq!(state.render(3, 0), Some(String::new()));
    state.set(0, 0, 0x11_0000);
    assert_eq!(state.render(1, 1), None);
    state.set(0, 0, 0x1_0000_0000);
    assert_eq!(state.render(1, 1), Some(String::from(" \n")));

    assert_eq!(shown_of(65), Some('A'));
    assert_eq!(shown_of(-1), Some(' '));
    assert_eq!(shown_of(0x1_0000_0000), Some(' '));
    assert_eq!(shown_of(0xFFFF_FFFF), None);
    assert_eq!(shown_of(0xDFFF), None);
    assert_eq!(shown_of(0x10_FFFF), Some('\u{10FFFF}'));
}

#[test]
fn a_window_that_shows_the_overlay() {
    let mut state = loaded("12");
    state.stack = vec![-1, 2, 0];
    state.set(5, 5, 'p' as i64);
    state.position = Position::new(5, 5);
    state.do_step();
    assert_eq!(state.get(2, 0), -1);
    assert_eq!(state.render(3, 1), Some(String::from("12 \n")));
    state.stack = vec!['z' as i64, 0, 0];
    state.position = Position::new(5, 5);
    state.do_step();
    assert_eq!(state.render(3, 1), Some(String::from("z2 \n")));
}

#[test]
fn position_new_keeps_its_arguments() {
    let p = Position::new(3u16, 4u16);
    assert_eq!((p.x, p.y), (3, 4));
    let q = Position::new("a", "b");
    assert_eq!((q.x, q.y), ("a", "b"));
}
