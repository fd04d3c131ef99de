//! The grid as text: the program text written out again, and a window of
//! the grid as a host shows it.

use crate::cells::{lookup, written, SPACE};
use crate::machine::{glyph, Machine};
use crate::state::{glyph_of, FungedState};
use vstd::prelude::*;

verus! {

/// Whether `width` columns and `height` rows, counted from the origin, are
/// the smallest rectangle that covers every written cell of `layer`. An empty
/// layer has the empty rectangle.
pub open spec fn spans(layer: Map<(u16, u16), i64>, width: nat, height: nat) -> bool {
    &&& width <= 0x1_0000 && height <= 0x1_0000
    &&& forall|x: u16, y: u16| #[trigger] layer.contains_key((x, y)) ==> x < width && y < height
    &&& width > 0 ==> exists|y: u16| #[trigger] layer.contains_key(((width - 1) as u16, y))
    &&& height > 0 ==> exists|x: u16| #[trigger] layer.contains_key((x, (height - 1) as u16))
}

/// The value that `layer` holds at `(x, y)`: a space where nothing is written.
pub open spec fn value_at(layer: Map<(u16, u16), i64>, x: int, y: int) -> i64 {
    if layer.contains_key((x as u16, y as u16)) {
        layer[(x as u16, y as u16)]
    } else {
        SPACE
    }
}

/// One row of a grid as text: the characters `at(0, y)` to `at(width - 1, y)`.
pub open spec fn row_text(at: spec_fn(int, int) -> char, y: int, width: nat) -> Seq<char> {
    Seq::new(width, |x: int| at(x, y))
}

/// The first `height` rows of a grid as text, each `width` characters wide and
/// ended by a line feed.
pub open spec fn grid_text(at: spec_fn(int, int) -> char, width: nat, height: nat) -> Seq<char>
    decreases height,
{
    if height == 0 {
        Seq::empty()
    } else {
        grid_text(at, width, (height - 1) as nat) + row_text(at, height - 1, width).push('\n')
    }
}

/// The text of `layer` over `width` columns and `height` rows: each cell as
/// the character with its code point, unwritten cells as spaces.
pub open spec fn listing(layer: Map<(u16, u16), i64>, width: nat, height: nat) -> Seq<char> {
    grid_text(|x: int, y: int| glyph(value_at(layer, x, y)), width, height)
}

/// The text of `layer` over its smallest covering rectangle.
pub open spec fn written_out(layer: Map<(u16, u16), i64>) -> Seq<char> {
    let (width, height) = choose|width: nat, height: nat| spans(layer, width, height);
    listing(layer, width, height)
}

/// The character that a window shows for the cell value `v`: the character
/// with that code point, a space for a value of more than 32 bits, and
/// nothing for any other value that is no code point.
pub open spec fn shown(v: i64) -> Option<char> {
    if v < 0 || v > 0xffff_ffff {
        Some(' ')
    } else if v <= 0xD7FF || 0xE000 <= v <= 0x10FFFF {
        Some(v as char)
    } else {
        None
    }
}

/// Whether every cell of the window of `width` columns and `height` rows at
/// the origin can be shown.
pub open spec fn showable(m: Machine, width: nat, height: nat) -> bool {
    forall|x: u16, y: u16| x < width && y < height ==> (#[trigger] shown(m.cell(x, y))) is Some
}

/// The window of `width` columns and `height` rows at the origin as text.
pub open spec fn window(m: Machine, width: nat, height: nat) -> Seq<char> {
    grid_text(
        |x: int, y: int|
            match shown(m.cell(x as u16, y as u16)) {
                Some(c) => c,
                None => ' ',
            },
        width,
        height,
    )
}

/// A layer has one smallest covering rectangle only.
pub proof fn law_span_is_unique(
    layer: Map<(u16, u16), i64>,
    width: nat,
    height: nat,
    other_width: nat,
    other_height: nat,
)
    requires
        spans(layer, width, height),
        spans(layer, other_width, other_height),
    ensures
        width == other_width,
        height == other_height,
{
    if width > 0 {
        let y = choose|y: u16| #[trigger] layer.contains_key(((width - 1) as u16, y));
        assert(layer.contains_key(((width - 1) as u16, y)));
    }
    if other_width > 0 {
        let y = choose|y: u16| #[trigger] layer.contains_key(((other_width - 1) as u16, y));
        assert(layer.contains_key(((other_width - 1) as u16, y)));
    }
    if height > 0 {
        let x = choose|x: u16| #[trigger] layer.contains_key((x, (height - 1) as u16));
        assert(layer.contains_key((x, (height - 1) as u16)));
    }
    if other_height > 0 {
        let x = choose|x: u16| #[trigger] layer.contains_key((x, (other_height - 1) as u16));
        assert(layer.contains_key((x, (other_height - 1) as u16)));
    }
}

/// The character that a window shows for the cell value `v`, if any.
pub fn shown_of(v: i64) -> (c: Option<char>)
    ensures
        c == shown(v),
{
    if v < 0 || v > 0xffff_ffff {
        Some(' ')
    } else {
        char::from_u32(v as u32)
    }
}

impl FungedState {
    /// The value that the program text holds at `(x, y)`, whatever the
    /// running program has written over it.
    pub fn get_base(&self, x: u16, y: u16) -> (v: i64)
        ensures
            v == value_at(self@.base, x as int, y as int),
    {
        match lookup(&self.map, x, y) {
            Some(v) => v,
            None => SPACE,
        }
    }

    /// The width and height of the smallest rectangle at the origin that
    /// covers the program text.
    pub fn extent(&self) -> (size: (u32, u32))
        ensures
            spans(self@.base, size.0 as nat, size.1 as nat),
    {
        let keys = written(&self.map);
        let mut width: u32 = 0;
        let mut height: u32 = 0;
        let ghost mut widest: int = 0;
        let ghost mut tallest: int = 0;
        for i in 0..keys.len()
            invariant
                width <= 0x1_0000,
                height <= 0x1_0000,
                forall|j: int| 0 <= j < i ==> (#[trigger] keys@[j]).0 < width && keys@[j].1 < height,
                width > 0 ==> 0 <= widest < i && keys@[widest].0 == width - 1,
                height > 0 ==> 0 <= tallest < i && keys@[tallest].1 == height - 1,
        {
            let (x, y) = keys[i];
            if x as u32 >= width {
                width = x as u32 + 1;
                proof {
                    widest = i as int;
                }
            }
            if y as u32 >= height {
                height = y as u32 + 1;
                proof {
                    tallest = i as int;
                }
            }
        }
        proof {
            let layer = self@.base;
            assert forall|x: u16, y: u16| #[trigger] layer.contains_key((x, y)) implies x < width
                && y < height by {
                assert(keys@.to_set().contains((x, y)));
                assert(keys@.contains((x, y)));
                let j = choose|j: int| 0 <= j < keys@.len() && keys@[j] == (x, y);
                assert(keys@[j].0 < width);
            }
            if width > 0 {
                assert(keys@.contains(keys@[widest]));
                assert(keys@.to_set().contains(keys@[widest]));
                assert(layer.contains_key(((width - 1) as u16, keys@[widest].1)));
            }
            if height > 0 {
                assert(keys@.contains(keys@[tallest]));
                assert(keys@.to_set().contains(keys@[tallest]));
                assert(layer.contains_key((keys@[tallest].0, (height - 1) as u16)));
            }
        }
        (width, height)
    }

    /// Writes the program text out: the rows of its covering rectangle from
    /// the top, each ended by a line feed, with spaces where nothing is
    /// written. An empty program gives the empty text.
    pub fn map_to_string(&self) -> (text: String)
        ensures
            text@ == written_out(self@.base),
            exists|width: nat, height: nat|
                spans(self@.base, width, height) && text@ == listing(self@.base, width, height),
    {
        let (width, height) = self.extent();
        proof {
            let (w, h) = choose|w: nat, h: nat| spans(self@.base, w, h);
            law_span_is_unique(self@.base, width as nat, height as nat, w, h);
        }
        let ghost at = |x: int, y: int| glyph(value_at(self@.base, x, y));
        let mut text = String::new();
        let mut y: u32 = 0;
        while y < height
            invariant
                y <= height <= 0x1_0000,
                width <= 0x1_0000,
                at == |x: int, y: int| glyph(value_at(self@.base, x, y)),
                text@ == grid_text(at, width as nat, y as nat),
            decreases height - y,
        {
            let ghost above = text@;
            let mut x: u32 = 0;
            while x < width
                invariant
                    x <= width <= 0x1_0000,
                    y < 0x1_0000,
                    at == |x: int, y: int| glyph(value_at(self@.base, x, y)),
                    text@ == above + row_text(at, y as int, width as nat).take(x as int),
                decreases width - x,
            {
                let c = glyph_of(self.get_base(x as u16, y as u16));
                text.push(c);
                assert(row_text(at, y as int, width as nat).take(x + 1) == row_text(
                    at,
                    y as int,
                    width as nat,
                ).take(x as int).push(c));
                x += 1;
            }
            assert(row_text(at, y as int, width as nat).take(width as int) == row_text(
                at,
                y as int,
                width as nat,
            ));
            text.push('\n');
            y += 1;
        }
        text
    }

    /// Draws the window of `width` columns and `height` rows at the origin
    /// as text, row by row, each row ended by a line feed. Gives `None` where
    /// a cell of the window cannot be shown.
    pub fn render(&self, width: u16, height: u16) -> (text: Option<String>)
        ensures
            text is Some <==> showable(self@, width as nat, height as nat),
            text matches Some(t) ==> t@ == window(self@, width as nat, height as nat),
    {
        let ghost at = |x: int, y: int|
            match shown(self@.cell(x as u16, y as u16)) {
                Some(c) => c,
                None => ' ',
            };
        let mut text = String::new();
        let mut y: u16 = 0;
        while y < height
            invariant
                y <= height,
                at == |x: int, y: int|
                    match shown(self@.cell(x as u16, y as u16)) {
                        Some(c) => c,
                        None => ' ',
                    },
                showable(self@, width as nat, y as nat),
                text@ == grid_text(at, width as nat, y as nat),
            decreases height - y,
        {
            let ghost above = text@;
            let mut x: u16 = 0;
            while x < width
                invariant
                    x <= width,
                    y < height,
                    at == |x: int, y: int|
                        match shown(self@.cell(x as u16, y as u16)) {
                            Some(c) => c,
                            None => ' ',
                        },
                    showable(self@, width as nat, y as nat),
                    forall|k: u16| k < x ==> (#[trigger] shown(self@.cell(k, y))) is Some,
                    text@ == above + row_text(at, y as int, width as nat).take(x as int),
                decreases width - x,
            {
                match shown_of(self.get(x, y)) {
                    Some(c) => {
                        text.push(c);
                        assert(row_text(at, y as int, width as nat).take(x + 1) == row_text(
                            at,
                            y as int,
                            width as nat,
                        ).take(x as int).push(c));
                    },
                    None => {
                        assert(!showable(self@, width as nat, height as nat));
                        return None;
                    },
                }
                x += 1;
            }
            assert(row_text(at, y as int, width as nat).take(width as int) == row_text(
                at,
                y as int,
                width as nat,
            ));
            text.push('\n');
            y += 1;
        }
        Some(text)
    }
}

} // verus!
