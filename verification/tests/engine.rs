use funged::{Direction, FungedState, Position};

fn do_n_steps(state: &mut FungedState, n: u16) {
    state.is_running = true;
    for _ in 0..n {
        if !state.is_running {
            return;
        }
        state.do_step();
    }
}

fn run_until_completion(state: &mut FungedState) {
    state.is_running = true;
    loop {
        if !state.is_running {
            return;
        }

        state.do_step();
    }
}

#[test]
fn basic_push_and_move() {
    let mut state = FungedState::new();

    state.map_from_string(
        "v \n\
         >0123456789",
    );

    do_n_steps(&mut state, 12);

    assert_eq!(state.stack, vec![0, 1, 2, 3, 4, 5, 6, 7, 8, 9]);
    assert_eq!(state.position.x, 11);
    assert_eq!(state.position.y, 1);
}

#[test]
fn if_statements() {
    let mut state = FungedState::new();

    // setup
    //  v
    //2 1 4
    //|0_0|
    //1   3
    state.map_from_string(
        "  v  \n\
         @   @\n\
         2 1 4\n\
         |0_0|\n\
         1   3\n\
         @   @",
    );

    run_until_completion(&mut state);
    assert_eq!(state.stack, vec![1]);

    state.position = Position::new(0, 0);
    state.direction = Direction::Right;
    state.stack.clear();
    state.setc(1, 3, '1');
    run_until_completion(&mut state);
    assert_eq!(state.stack, vec![2]);

    state.position = Position::new(0, 0);
    state.direction = Direction::Right;
    state.stack.clear();
    state.setc(2, 2, '0');
    run_until_completion(&mut state);
    assert_eq!(state.stack, vec![3]);

    state.position = Position::new(0, 0);
    state.direction = Direction::Right;
    state.stack.clear();
    state.setc(3, 3, '1');
    run_until_completion(&mut state);
    assert_eq!(state.stack, vec![4]);
}

#[test]
fn operators() {
    let mut state = FungedState::new();

    state.map_from_string("21`12`!0!!@");

    run_until_completion(&mut state);
    assert_eq!(state.stack, vec![1, 1, 0]);
}

#[test]
fn arithmetic() {
    let mut state = FungedState::new();

    state.map_from_string("27*3+2-62/95%@");

    run_until_completion(&mut state);
    assert_eq!(state.stack, vec![15, 3, 4]);
}

#[test]
fn bridge() {
    let mut state = FungedState::new();

    state.map_from_string("0#@1#2# @");

    run_until_completion(&mut state);
    assert_eq!(state.stack, vec![0, 1]);
}

#[test]
fn stack_manipulation() {
    let mut state = FungedState::new();

    state.map_from_string(":1\\$:@");

    run_until_completion(&mut state);
    assert_eq!(state.stack, vec![0, 1, 1]);
}

#[test]
fn print_string() {
    let mut state = FungedState::new();

    state.map_from_string("\"v,8g\\\",,,,,@");

    run_until_completion(&mut state);
    assert_eq!(state.stack, Vec::new());
    assert_eq!(state.output, String::from("\\g8,v"));
}

#[test]
fn print_integer() {
    let mut state = FungedState::new();

    state.map_from_string("\" \"98....@");

    run_until_completion(&mut state);
    assert_eq!(state.stack, Vec::new());
    assert_eq!(state.output, String::from("8 9 32 0 "));
}

#[test]
fn space_manipulation() {
    let mut state = FungedState::new();

    state.map_from_string("\"r\"97p97g96g@");

    run_until_completion(&mut state);
    assert_eq!(state.stack, vec![b'r' as i64, b' ' as i64]);
    assert_eq!(state.get(9, 7), b'r' as i64);
}

#[test]
fn read_input() {
    let mut state = FungedState::new();

    state.map_from_string("~&@");

    state.input = String::from("aa");
    state.do_step();
    assert_eq!(state.input, String::new());
    state.input = String::from("571");
    run_until_completion(&mut state);
}

#[test]
fn wrapping() {
    let mut state = FungedState::new();
    state.setc(0, 0, '^');
    state.setc(0, u16::MAX, '<');
    state.setc(u16::MAX, u16::MAX, 'v');
    state.setc(u16::MAX, 0, '>');

    state.do_step();
    assert_eq!(state.position.x, 0);
    assert_eq!(state.position.y, u16::MAX);
    state.do_step();
    assert_eq!(state.position.x, u16::MAX);
    assert_eq!(state.position.y, u16::MAX);
    state.do_step();
    assert_eq!(state.position.x, u16::MAX);
    assert_eq!(state.position.y, 0);
    state.do_step();
    assert_eq!(state.position.x, 0);
    assert_eq!(state.position.y, 0);
}
