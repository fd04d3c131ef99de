//! The decisions of an editor and viewer around the interpreter: what a key
//! press or a click does, where the camera stands and how a cell looks.
//!
//! The editor touches no terminal and no file. A host hands it the events,
//! carries out what it asks for and reports back.

use crate::listing::written_out;
use crate::machine::{Machine, NeedsInputType};
use crate::numeral::{decimal, push_decimal};
use crate::position::{advance, next_x, next_y, Direction, Position};
use crate::program::laid;
use crate::state::{blank, restarted, FungedState};
use crate::strings::{control_code, white_space};
use vstd::prelude::*;

verus! {

/// Whether keys edit the grid or fill in the command line.
#[derive(Clone, Copy, Debug, PartialEq, Eq, Structural)]
pub enum InputMode {
    Normal,
    Command,
}

/// What the command line is asking for.
#[derive(Clone, Copy, Debug, PartialEq, Eq, Structural)]
pub enum CommandType {
    Command,
    BefungeInput,
    OpenFile,
    WriteFile,
}

/// The modifier keys held with a key: none, shift alone, control alone, or
/// any other set.
#[derive(Clone, Copy, Debug, PartialEq, Eq, Structural)]
pub enum Modifiers {
    Plain,
    Shift,
    Control,
    Other,
}

/// The keys that the editor knows.
#[derive(Clone, Copy, Debug, PartialEq, Eq, Structural)]
pub enum Key {
    Char(char),
    Esc,
    Enter,
    Backspace,
    Up,
    Down,
    Left,
    Right,
    Other,
}

/// A key together with its modifiers.
#[derive(Clone, Copy, Debug, PartialEq, Eq, Structural)]
pub struct KeyPress {
    pub code: Key,
    pub modifiers: Modifiers,
}

/// A press of the left mouse button at a place on the screen.
#[derive(Clone, Copy, Debug, PartialEq, Eq, Structural)]
pub struct Click {
    pub column: u16,
    pub row: u16,
}

/// A rectangle of the screen.
#[derive(Clone, Copy, Debug, PartialEq, Eq, Structural)]
pub struct Area {
    pub x: u16,
    pub y: u16,
    pub width: u16,
    pub height: u16,
}

/// What the editor asks of its host after an event.
#[derive(Clone, Debug, PartialEq, Eq)]
pub enum Request {
    /// Nothing.
    Idle,
    /// Run one step of the machine.
    Step,
    /// Read the named file and report its contents.
    OpenFile(String),
    /// Write the given text to the named file.
    WriteFile(String, String),
}

/// A request with its texts as sequences of characters.
pub enum RequestView {
    Idle,
    Step,
    OpenFile(Seq<char>),
    WriteFile(Seq<char>, Seq<char>),
}

impl View for Request {
    type V = RequestView;

    open spec fn view(&self) -> RequestView {
        match self {
            Request::Idle => RequestView::Idle,
            Request::Step => RequestView::Step,
            Request::OpenFile(name) => RequestView::OpenFile(name@),
            Request::WriteFile(name, text) => RequestView::WriteFile(name@, text@),
        }
    }
}

/// How a cell is set off from the others.
#[derive(Clone, Copy, Debug, PartialEq, Eq, Structural)]
pub enum Highlight {
    /// The instruction pointer stands on the cell.
    Pointer,
    /// The editing cursor stands on the cell.
    Cursor,
    Plain,
}

/// How a cell is drawn.
#[derive(Clone, Copy, Debug, PartialEq, Eq, Structural)]
pub struct CellLook {
    pub content: char,
    pub highlight: Highlight,
    /// Whether the cell holds a character that cannot be seen and is drawn
    /// as a marked `X` in its place.
    pub flagged: bool,
}

/// The direction opposite to `d`.
pub open spec fn opposite(d: Direction) -> Direction {
    match d {
        Direction::Up => Direction::Down,
        Direction::Down => Direction::Up,
        Direction::Left => Direction::Right,
        Direction::Right => Direction::Left,
    }
}

/// The direction in which the character `c` sends the cursor, if it is one
/// of the four arrows `^`, `v`, `<` and `>`.
pub open spec fn arrow(c: char) -> Option<Direction> {
    if c == '^' {
        Some(Direction::Up)
    } else if c == 'v' {
        Some(Direction::Down)
    } else if c == '<' {
        Some(Direction::Left)
    } else if c == '>' {
        Some(Direction::Right)
    } else {
        None
    }
}

/// Where the camera stands along one axis: half a screen before the cursor,
/// but never before the grid's start nor so far that the screen would reach
/// beyond its end.
pub open spec fn camera_origin(cursor: u16, extent: u16) -> u16 {
    let before = if cursor >= extent / 2 { cursor - extent / 2 } else { 0 };
    if before > 0xffff - extent {
        (0xffff - extent) as u16
    } else {
        before as u16
    }
}

/// The character drawn for the cell value `v`: the character with that code
/// point, the null character for a value of more than 32 bits, and U+FFFD for
/// any other value that is no code point.
pub open spec fn drawn(v: i64) -> char {
    if v < 0 || v > 0xffff_ffff {
        '\0'
    } else if v <= 0xD7FF || 0xE000 <= v <= 0x10FFFF {
        v as char
    } else {
        '\u{FFFD}'
    }
}

/// Whether `c` cannot be seen on the screen: a control code or white space
/// other than the space itself.
pub open spec fn unseen(c: char) -> bool {
    (control_code(c) || white_space(c)) && c != ' '
}

/// The texts of the prompts.
pub open spec fn open_prompt() -> Seq<char> {
    "Open file"@
}

pub open spec fn write_prompt() -> Seq<char> {
    "Write file"@
}

pub open spec fn decimal_prompt() -> Seq<char> {
    "Enter Decimal"@
}

pub open spec fn character_prompt() -> Seq<char> {
    "Enter Character"@
}

/// The whole state of an editing session.
pub struct EditorModel {
    pub cursor: (u16, u16),
    /// The direction in which typing moves the cursor.
    pub heading: Direction,
    pub machine: Machine,
    pub camera: (u16, u16),
    pub area: Area,
    pub autoplay: bool,
    pub input_mode: InputMode,
    pub command_type: CommandType,
    pub prompt: Seq<char>,
    pub command: Seq<char>,
    pub should_stop: bool,
}

impl EditorModel {
    /// Whether the command line, if it is open, is open for a purpose that
    /// the editor can serve. An editor that starts as `fresh` stays so.
    pub open spec fn wf(self) -> bool {
        self.input_mode == InputMode::Command ==> self.command_type != CommandType::Command
    }

    /// Whether the editor can take `key`: every key but the one that enters a
    /// command line that is open for no purpose.
    pub open spec fn accepts(self, key: KeyPress) -> bool {
        !(self.input_mode == InputMode::Command && self.command_type == CommandType::Command
            && key.code == Key::Enter && (key.modifiers == Modifiers::Plain || key.modifiers
            == Modifiers::Shift))
    }

    /// The editor with the cursor one cell further in direction `d`.
    pub open spec fn cursor_moved(self, d: Direction) -> EditorModel {
        EditorModel { cursor: (next_x(self.cursor.0, d), next_y(self.cursor.1, d)), ..self }
    }

    /// The editor with an empty command line open under `prompt`.
    pub open spec fn prompting(self, prompt: Seq<char>, command_type: CommandType) -> EditorModel {
        EditorModel {
            prompt,
            command: Seq::empty(),
            input_mode: InputMode::Command,
            command_type,
            ..self
        }
    }

    /// The editor with the command line closed.
    pub open spec fn dismissed(self) -> EditorModel {
        EditorModel { prompt: Seq::empty(), input_mode: InputMode::Normal, ..self }
    }

    /// The editor after the character `c` is typed onto the grid: the cell
    /// under the cursor holds it, an arrow turns the cursor's direction, and
    /// the cursor moves one cell on.
    pub open spec fn typed(self, c: char) -> EditorModel {
        let heading = match arrow(c) {
            Some(d) => d,
            None => self.heading,
        };
        EditorModel {
            machine: Machine {
                base: self.machine.base.insert(self.cursor, c as i64),
                ..self.machine
            },
            heading,
            ..self
        }.cursor_moved(heading)
    }

    /// The editor after a key with control held.
    pub open spec fn after_control_key(self, c: char) -> (EditorModel, RequestView) {
        if c == 'c' {
            (EditorModel { should_stop: true, ..self }, RequestView::Idle)
        } else if c == 's' {
            (self, RequestView::Step)
        } else if c == 'r' {
            (EditorModel { machine: restarted(self.machine), ..self }, RequestView::Idle)
        } else if c == 'p' {
            (EditorModel { autoplay: !self.autoplay, ..self }, RequestView::Idle)
        } else if c == 'o' {
            (self.prompting(open_prompt(), CommandType::OpenFile), RequestView::Idle)
        } else if c == 'w' {
            (self.prompting(write_prompt(), CommandType::WriteFile), RequestView::Idle)
        } else {
            (self, RequestView::Idle)
        }
    }

    /// The editor after a key while keys edit the grid.
    pub open spec fn after_normal_key(self, key: KeyPress) -> (EditorModel, RequestView) {
        match key.modifiers {
            Modifiers::Control => match key.code {
                Key::Char(c) => self.after_control_key(c),
                _ => (self, RequestView::Idle),
            },
            Modifiers::Plain | Modifiers::Shift => (
                match key.code {
                    Key::Backspace => self.cursor_moved(opposite(self.heading)),
                    Key::Char(c) => self.typed(c),
                    Key::Up => EditorModel { heading: Direction::Up, ..self }.cursor_moved(
                        Direction::Up,
                    ),
                    Key::Down => EditorModel { heading: Direction::Down, ..self }.cursor_moved(
                        Direction::Down,
                    ),
                    Key::Left => EditorModel { heading: Direction::Left, ..self }.cursor_moved(
                        Direction::Left,
                    ),
                    Key::Right => EditorModel { heading: Direction::Right, ..self }.cursor_moved(
                        Direction::Right,
                    ),
                    _ => self,
                },
                RequestView::Idle,
            ),
            Modifiers::Other => (self, RequestView::Idle),
        }
    }

    /// The editor after the command line is entered for a purpose that the
    /// editor can serve.
    pub open spec fn entered(self) -> (EditorModel, RequestView) {
        match self.command_type {
            CommandType::BefungeInput => (
                EditorModel {
                    machine: Machine { input: self.command, ..self.machine },
                    command: Seq::empty(),
                    ..self
                }.dismissed(),
                RequestView::Idle,
            ),
            CommandType::OpenFile => (self.dismissed(), RequestView::OpenFile(self.command)),
            CommandType::WriteFile => (
                self.dismissed(),
                RequestView::WriteFile(self.command, written_out(self.machine.base)),
            ),
            CommandType::Command => (self.dismissed(), RequestView::Idle),
        }
    }

    /// The editor after a key while keys fill in the command line.
    pub open spec fn after_command_key(self, key: KeyPress) -> (EditorModel, RequestView) {
        if key.modifiers == Modifiers::Plain || key.modifiers == Modifiers::Shift {
            match key.code {
                Key::Char(c) => (
                    EditorModel { command: self.command.push(c), ..self },
                    RequestView::Idle,
                ),
                Key::Esc => (
                    EditorModel { command: Seq::empty(), ..self }.dismissed(),
                    RequestView::Idle,
                ),
                Key::Enter => self.entered(),
                Key::Backspace => (
                    EditorModel {
                        command: if self.command.len() > 0 {
                            self.command.drop_last()
                        } else {
                            self.command
                        },
                        ..self
                    },
                    RequestView::Idle,
                ),
                _ => (self, RequestView::Idle),
            }
        } else {
            (self, RequestView::Idle)
        }
    }

    /// The editor after a key, and what it asks of the host.
    pub open spec fn after_key(self, key: KeyPress) -> (EditorModel, RequestView) {
        match self.input_mode {
            InputMode::Command => self.after_command_key(key),
            InputMode::Normal => self.after_normal_key(key),
        }
    }

    /// Whether a click lands on the part of the screen that shows the grid.
    pub open spec fn hits(self, click: Click) -> bool {
        &&& self.area.x <= click.column < self.area.x + self.area.width
        &&& self.area.y <= click.row < self.area.y + self.area.height
    }

    /// The editor after a click: the cursor stands on the cell that was
    /// clicked, if any was.
    pub open spec fn after_click(self, click: Click) -> EditorModel {
        if self.hits(click) {
            EditorModel {
                cursor: (
                    ((click.column - self.area.x + self.camera.0) % 0x1_0000) as u16,
                    ((click.row - self.area.y + self.camera.1) % 0x1_0000) as u16,
                ),
                ..self
            }
        } else {
            self
        }
    }

    /// The editor after a step of the machine has asked for `need`: a
    /// request for input opens the command line.
    pub open spec fn after_need(self, need: NeedsInputType) -> EditorModel {
        match need {
            NeedsInputType::Continue => self,
            NeedsInputType::Decimal => self.prompting(decimal_prompt(), CommandType::BefungeInput),
            NeedsInputType::Character => self.prompting(
                character_prompt(),
                CommandType::BefungeInput,
            ),
        }
    }

    /// The editor with the camera set for a screen part `area`.
    pub open spec fn framed(self, area: Area) -> EditorModel {
        EditorModel {
            area,
            camera: (
                camera_origin(self.cursor.0, area.width),
                camera_origin(self.cursor.1, area.height),
            ),
            ..self
        }
    }

    /// How the cell at `(x, y)` is drawn.
    pub open spec fn look(self, x: u16, y: u16) -> CellLook {
        let c = drawn(self.machine.cell(x, y));
        CellLook {
            content: if unseen(c) { 'X' } else { c },
            highlight: if x == self.machine.x && y == self.machine.y {
                Highlight::Pointer
            } else if x == self.cursor.0 && y == self.cursor.1 {
                Highlight::Cursor
            } else {
                Highlight::Plain
            },
            flagged: unseen(c),
        }
    }
}

/// The editor as it starts: a blank machine, cursor and camera at the origin,
/// typing to the right, keys editing the grid.
pub open spec fn fresh() -> EditorModel {
    EditorModel {
        cursor: (0, 0),
        heading: Direction::Right,
        machine: blank(),
        camera: (0, 0),
        area: Area { x: 0, y: 0, width: 0, height: 0 },
        autoplay: false,
        input_mode: InputMode::Normal,
        command_type: CommandType::Command,
        prompt: Seq::empty(),
        command: Seq::empty(),
        should_stop: false,
    }
}

/// An editing session: the machine and what surrounds it on the screen.
pub struct Editor {
    pub cursorpos: Position<u16>,
    pub posdirection: Direction,
    pub state: FungedState,
    pub camera_offset: Position<u16>,
    pub space_area: Area,
    pub autoplay: bool,
    pub input_mode: InputMode,
    pub command_type: CommandType,
    pub command_prompt: String,
    pub command: String,
    pub should_stop: bool,
}

impl View for Editor {
    type V = EditorModel;

    open spec fn view(&self) -> EditorModel {
        EditorModel {
            cursor: (self.cursorpos.x, self.cursorpos.y),
            heading: self.posdirection,
            machine: self.state@,
            camera: (self.camera_offset.x, self.camera_offset.y),
            area: self.space_area,
            autoplay: self.autoplay,
            input_mode: self.input_mode,
            command_type: self.command_type,
            prompt: self.command_prompt@,
            command: self.command@,
            should_stop: self.should_stop,
        }
    }
}

/// The direction opposite to `d`.
pub fn opposite_of(d: Direction) -> (r: Direction)
    ensures
        r == opposite(d),
{
    match d {
        Direction::Up => Direction::Down,
        Direction::Down => Direction::Up,
        Direction::Left => Direction::Right,
        Direction::Right => Direction::Left,
    }
}

/// The direction in which the character `c` sends the cursor, if any.
pub fn arrow_of(c: char) -> (r: Option<Direction>)
    ensures
        r == arrow(c),
{
    if c == '^' {
        Some(Direction::Up)
    } else if c == 'v' {
        Some(Direction::Down)
    } else if c == '<' {
        Some(Direction::Left)
    } else if c == '>' {
        Some(Direction::Right)
    } else {
        None
    }
}

/// Where the camera stands along one axis for a cursor at `cursor` and a
/// screen of `extent` cells.
pub fn place_camera(cursor: u16, extent: u16) -> (origin: u16)
    ensures
        origin == camera_origin(cursor, extent),
{
    let before = cursor.saturating_sub(extent / 2);
    if before > 0xffff - extent {
        0xffff - extent
    } else {
        before
    }
}

/// The character drawn for the cell value `v`.
pub fn drawn_of(v: i64) -> (c: char)
    ensures
        c == drawn(v),
{
    if v < 0 || v > 0xffff_ffff {
        '\0'
    } else {
        match char::from_u32(v as u32) {
            Some(c) => c,
            None => '\u{FFFD}',
        }
    }
}

impl Editor {
    pub fn new() -> (editor: Self)
        ensures
            editor@ == fresh(),
    {
        Editor {
            cursorpos: Position::new(0, 0),
            posdirection: Direction::Right,
            state: FungedState::new(),
            camera_offset: Position::new(0, 0),
            space_area: Area { x: 0, y: 0, width: 0, height: 0 },
            autoplay: false,
            input_mode: InputMode::Normal,
            command_type: CommandType::Command,
            command_prompt: String::new(),
            command: String::new(),
            should_stop: false,
        }
    }

    /// Whether the editor can take `key`.
    pub fn accepts(&self, key: KeyPress) -> (b: bool)
        ensures
            b == self@.accepts(key),
    {
        let enters = match key.code {
            Key::Enter => match key.modifiers {
                Modifiers::Plain | Modifiers::Shift => true,
                _ => false,
            },
            _ => false,
        };
        let aimless = match self.input_mode {
            InputMode::Normal => false,
            InputMode::Command => match self.command_type {
                CommandType::Command => true,
                _ => false,
            },
        };
        !(enters && aimless)
    }

    /// Opens an empty command line under `prompt`.
    fn open_command_line(&mut self, prompt: &str, command_type: CommandType)
        ensures
            final(self)@ == old(self)@.prompting(prompt@, command_type),
    {
        self.command_prompt = prompt.to_owned();
        self.command.clear();
        self.input_mode = InputMode::Command;
        self.command_type = command_type;
    }

    /// Closes the command line.
    fn dismiss(&mut self)
        ensures
            final(self)@ == old(self)@.dismissed(),
    {
        self.command_prompt = String::new();
        self.input_mode = InputMode::Normal;
    }

    fn handle_command_inputmode(&mut self, key: KeyPress) -> (request: Request)
        requires
            old(self)@.accepts(key),
            old(self)@.input_mode == InputMode::Command,
        ensures
            (final(self)@, request@) == old(self)@.after_command_key(key),
    {
        match key.modifiers {
            Modifiers::Plain | Modifiers::Shift => {},
            _ => {
                return Request::Idle;
            },
        }
        match key.code {
            Key::Char(c) => {
                self.command.push(c);
                Request::Idle
            },
            Key::Esc => {
                self.command = String::new();
                self.dismiss();
                Request::Idle
            },
            Key::Enter => {
                let request = match self.command_type {
                    CommandType::BefungeInput => {
                        self.state.supply_input(self.command.clone());
                        self.command = String::new();
                        Request::Idle
                    },
                    CommandType::OpenFile => Request::OpenFile(self.command.clone()),
                    CommandType::WriteFile => Request::WriteFile(
                        self.command.clone(),
                        self.state.map_to_string(),
                    ),
                    CommandType::Command => Request::Idle,
                };
                self.dismiss();
                request
            },
            Key::Backspace => {
                self.command.pop();
                Request::Idle
            },
            _ => Request::Idle,
        }
    }

    fn handle_control_keys(&mut self, key: char) -> (request: Request)
        ensures
            (final(self)@, request@) == old(self)@.after_control_key(key),
    {
        if key == 'c' {
            self.should_stop = true;
        } else if key == 's' {
            return Request::Step;
        } else if key == 'r' {
            self.state.restart();
        } else if key == 'p' {
            self.autoplay = !self.autoplay;
        } else if key == 'o' {
            proof {
                reveal_strlit("Open file");
            }
            self.open_command_line("Open file", CommandType::OpenFile);
        } else if key == 'w' {
            proof {
                reveal_strlit("Write file");
            }
            self.open_command_line("Write file", CommandType::WriteFile);
        }
        Request::Idle
    }

    fn handle_normal_inputmode(&mut self, key: KeyPress) -> (request: Request)
        ensures
            (final(self)@, request@) == old(self)@.after_normal_key(key),
    {
        match key.modifiers {
            Modifiers::Control => {
                return match key.code {
                    Key::Char(c) => self.handle_control_keys(c),
                    _ => Request::Idle,
                };
            },
            Modifiers::Plain | Modifiers::Shift => {},
            Modifiers::Other => {
                return Request::Idle;
            },
        }
        match key.code {
            Key::Backspace => {
                advance(&mut self.cursorpos, opposite_of(self.posdirection));
            },
            Key::Char(c) => {
                self.state.setc(self.cursorpos.x, self.cursorpos.y, c);
                match arrow_of(c) {
                    Some(d) => {
                        self.posdirection = d;
                    },
                    None => {},
                }
                advance(&mut self.cursorpos, self.posdirection);
            },
            Key::Up => {
                advance(&mut self.cursorpos, Direction::Up);
                self.posdirection = Direction::Up;
            },
            Key::Down => {
                advance(&mut self.cursorpos, Direction::Down);
                self.posdirection = Direction::Down;
            },
            Key::Left => {
                advance(&mut self.cursorpos, Direction::Left);
                self.posdirection = Direction::Left;
            },
            Key::Right => {
                advance(&mut self.cursorpos, Direction::Right);
                self.posdirection = Direction::Right;
            },
            _ => {},
        }
        Request::Idle
    }

    /// Takes a key press and says what the host is to do.
    pub fn handle_key(&mut self, key: KeyPress) -> (request: Request)
        requires
            old(self)@.accepts(key),
        ensures
            (final(self)@, request@) == old(self)@.after_key(key),
    {
        match self.input_mode {
            InputMode::Command => self.handle_command_inputmode(key),
            InputMode::Normal => self.handle_normal_inputmode(key),
        }
    }

    /// Takes a click of the left mouse button.
    pub fn handle_mouse_event(&mut self, click: Click)
        ensures
            final(self)@ == old(self)@.after_click(click),
    {
        let area = self.space_area;
        if click.column >= area.x && (click.column as u32) < area.x as u32 + area.width as u32
            && click.row >= area.y && (click.row as u32) < area.y as u32 + area.height as u32 {
            self.cursorpos.x = (click.column - area.x).wrapping_add(self.camera_offset.x);
            self.cursorpos.y = (click.row - area.y).wrapping_add(self.camera_offset.y);
        }
    }

    /// Opens the command line where a step of the machine asked for input.
    pub fn prompt_for(&mut self, need: NeedsInputType)
        ensures
            final(self)@ == old(self)@.after_need(need),
    {
        match need {
            NeedsInputType::Continue => {},
            NeedsInputType::Decimal => {
                proof {
                    reveal_strlit("Enter Decimal");
                }
                self.open_command_line("Enter Decimal", CommandType::BefungeInput);
            },
            NeedsInputType::Character => {
                proof {
                    reveal_strlit("Enter Character");
                }
                self.open_command_line("Enter Character", CommandType::BefungeInput);
            },
        }
    }

    /// Runs one step of the machine and opens the command line where the
    /// step asks for input.
    pub fn do_step(&mut self)
        ensures
            exists|choice: Direction|
                {
                    let (machine, need) = #[trigger] old(self)@.machine.step(choice);
                    final(self)@ == (EditorModel { machine, ..old(self)@ }).after_need(need)
                },
    {
        let need = self.state.do_step();
        self.prompt_for(need);
    }

    /// Takes the contents of the file that the host has read: they become
    /// the program of a new machine.
    pub fn file_opened(&mut self, contents: &str)
        ensures
            final(self)@ == (EditorModel {
                machine: Machine {
                    base: laid(Map::empty(), contents@),
                    ..blank()
                },
                ..old(self)@
            }),
    {
        self.state = FungedState::new();
        self.state.map_from_string(contents);
    }

    /// Takes the message of a failure to read or write a file: it shows on
    /// the command line.
    pub fn file_failed(&mut self, message: String)
        ensures
            final(self)@ == (EditorModel { command: message@, ..old(self)@ }),
    {
        self.command = message;
    }

    /// Sets the part of the screen that shows the grid and moves the camera
    /// so that the cursor is on it.
    pub fn frame(&mut self, area: Area)
        ensures
            final(self)@ == old(self)@.framed(area),
    {
        self.space_area = area;
        self.camera_offset.x = place_camera(self.cursorpos.x, area.width);
        self.camera_offset.y = place_camera(self.cursorpos.y, area.height);
    }

    /// How the cell at `(x, y)` is drawn.
    pub fn cell_look(&self, x: u16, y: u16) -> (look: CellLook)
        ensures
            look == self@.look(x, y),
    {
        let c = drawn_of(self.state.get(x, y));
        let flagged = (c.is_control() || c.is_whitespace()) && c != ' ';
        let highlight = if x == self.state.position.x && y == self.state.position.y {
            Highlight::Pointer
        } else if x == self.cursorpos.x && y == self.cursorpos.y {
            Highlight::Cursor
        } else {
            Highlight::Plain
        };
        CellLook { content: if flagged { 'X' } else { c }, highlight, flagged }
    }

    /// The stack as lines of text, bottom first, each value in decimal.
    pub fn stack_lines(&self) -> (lines: Vec<String>)
        ensures
            lines@.len() == self@.machine.stack.len(),
            forall|i: int|
                0 <= i < lines@.len() ==> (#[trigger] lines@[i])@ == decimal(
                    self@.machine.stack[i] as int,
                ),
    {
        let mut lines: Vec<String> = Vec::new();
        for i in 0..self.state.stack.len()
            invariant
                lines@.len() == i,
                forall|j: int|
                    0 <= j < i ==> (#[trigger] lines@[j])@ == decimal(self.state.stack@[j] as int),
        {
            let mut line = String::new();
            push_decimal(&mut line, self.state.stack[i]);
            lines.push(line);
        }
        lines
    }
}

/// An editor whose command line is open for a purpose takes every key, and
/// no key, click or step of the machine opens the command line for none.
pub proof fn law_editor_stays_well_formed(
    editor: EditorModel,
    key: KeyPress,
    click: Click,
    need: NeedsInputType,
    area: Area,
)
    requires
        editor.wf(),
    ensures
        fresh().wf(),
        editor.accepts(key),
        editor.after_key(key).0.wf(),
        editor.after_click(click).wf(),
        editor.after_need(need).wf(),
        editor.framed(area).wf(),
{
}

/// The camera keeps the screen on the grid and the cursor on the screen: the
/// screen ends before the grid's last line, the cursor is never before the
/// camera, and it is less than a screen beyond it unless the screen is empty
/// or the cursor stands on the grid's last line.
pub proof fn law_camera_shows_cursor(cursor: u16, extent: u16)
    ensures
        camera_origin(cursor, extent) + extent <= 0xffff,
        camera_origin(cursor, extent) <= cursor,
        extent > 0 && cursor < 0xffff ==> cursor < camera_origin(cursor, extent) + extent,
{
}

} // verus!
