use vstd::prelude::*;

verus! {

/// A colour as red, green and blue intensities.
#[derive(Clone, Copy, Debug, PartialEq, Eq, Structural)]
pub struct Color {
    pub r: u8,
    pub g: u8,
    pub b: u8,
}

/// Background of a cell that blocks sight.
pub open spec fn dark_wall() -> Color {
    Color { r: 0, g: 0, b: 100 }
}

/// Background of a cell that does not block sight.
pub open spec fn dark_ground() -> Color {
    Color { r: 50, g: 50, b: 150 }
}

impl Color {
    /// Background of a cell that blocks sight.
    pub fn dark_wall() -> (c: Color)
        ensures
            c == dark_wall(),
    {
        Color { r: 0, g: 0, b: 100 }
    }

    /// Background of a cell that does not block sight.
    pub fn dark_ground() -> (c: Color)
        ensures
            c == dark_ground(),
    {
        Color { r: 50, g: 50, b: 150 }
    }
}

/// One character cell of a frame.
#[derive(Clone, Copy, Debug, PartialEq, Eq, Structural)]
pub struct Cell {
    pub glyph: char,
    pub fg: Color,
    pub bg: Color,
}

/// An offscreen grid of character cells, indexed as `cells[x][y]`, composed in full before
/// it is shown.
pub struct Frame {
    pub cells: Vec<Vec<Cell>>,
    /// The colour in which `put_char` draws.
    pub default_fg: Color,
}

/// A blank cell: a space, white on black.
pub open spec fn blank_cell() -> Cell {
    Cell { glyph: ' ', fg: Color { r: 255, g: 255, b: 255 }, bg: Color { r: 0, g: 0, b: 0 } }
}

impl Frame {
    /// Whether `(x, y)` names a cell of the frame.
    pub open spec fn in_frame(&self, x: int, y: int) -> bool {
        0 <= x < self.cells@.len() && 0 <= y < self.cells@[x]@.len()
    }

    /// The cell at `(x, y)`; meaningful when `self.in_frame(x, y)`.
    pub open spec fn cell_at(&self, x: int, y: int) -> Cell {
        self.cells@[x]@[y]
    }

    /// Two frames have the same columns with the same number of cells each.
    pub open spec fn same_shape(&self, other: &Frame) -> bool {
        &&& self.cells@.len() == other.cells@.len()
        &&& forall|x: int|
            0 <= x < self.cells@.len() ==> #[trigger] self.cells@[x]@.len()
                == other.cells@[x]@.len()
    }

    /// A cleared frame of `width` columns and `height` rows.
    pub fn new(width: usize, height: usize) -> (f: Frame)
        ensures
            f.cells@.len() == width,
            forall|x: int| 0 <= x < width ==> #[trigger] f.cells@[x]@.len() == height,
            forall|x: int, y: int| #![trigger f.cell_at(x, y)]
                f.in_frame(x, y) ==> f.cell_at(x, y) == blank_cell(),
            f.default_fg == (Color { r: 255, g: 255, b: 255 }),
    {
        let mut cells: Vec<Vec<Cell>> = Vec::new();
        let mut x: usize = 0;
        while x < width
            invariant
                cells@.len() == x,
                x <= width,
                forall|i: int| 0 <= i < x ==> #[trigger] cells@[i]@.len() == height,
                forall|i: int, j: int|
                    0 <= i < x && 0 <= j < cells@[i]@.len() ==> #[trigger] cells@[i]@[j]
                        == blank_cell(),
            decreases width - x,
        {
            let mut col: Vec<Cell> = Vec::new();
            let mut y: usize = 0;
            while y < height
                invariant
                    col@.len() == y,
                    y <= height,
                    forall|j: int| 0 <= j < y ==> #[trigger] col@[j] == blank_cell(),
                decreases height - y,
            {
                col.push(
                    Cell {
                        glyph: ' ',
                        fg: Color { r: 255, g: 255, b: 255 },
                        bg: Color { r: 0, g: 0, b: 0 },
                    },
                );
                y += 1;
            }
            let ghost prev = cells;
            cells.push(col);
            proof {
                assert forall|i: int, j: int|
                    0 <= i < cells@.len() && 0 <= j < cells@[i]@.len() implies #[trigger] cells@[i]@[j]
                        == blank_cell() by {
                    if i < x {
                        assert(cells@[i] == prev@[i]);
                    }
                }
            }
            x += 1;
        }
        Frame { cells, default_fg: Color { r: 255, g: 255, b: 255 } }
    }

    /// Sets the colour in which later characters are drawn.
    pub fn set_default_foreground(&mut self, color: Color)
        ensures
            final(self).default_fg == color,
            final(self).cells == old(self).cells,
    {
        self.default_fg = color;
    }

    /// Draws `c` at `(x, y)` in the default foreground colour, keeping the cell's
    /// background. A position outside the frame is ignored.
    pub fn put_char(&mut self, x: i32, y: i32, c: char)
        ensures
            final(self).default_fg == old(self).default_fg,
            final(self).same_shape(old(self)),
            forall|i: int, j: int| #![trigger final(self).cell_at(i, j)]
                old(self).in_frame(i, j) ==> final(self).cell_at(i, j) == (if i == x && j == y {
                    Cell { glyph: c, fg: old(self).default_fg, bg: old(self).cell_at(i, j).bg }
                } else {
                    old(self).cell_at(i, j)
                }),
    {
        if x >= 0 && (x as usize) < self.cells.len() && y >= 0 && (y as usize) < self.cells[
            x as usize].len() {
            let (xi, yi) = (x as usize, y as usize);
            let bg = self.cells[xi][yi].bg;
            self.cells[xi][yi] = Cell { glyph: c, fg: self.default_fg, bg };
        }
    }

    /// Sets the background colour of the cell at `(x, y)`, keeping its character and
    /// foreground. A position outside the frame is ignored.
    pub fn set_char_background(&mut self, x: usize, y: usize, color: Color)
        ensures
            final(self).default_fg == old(self).default_fg,
            final(self).same_shape(old(self)),
            forall|i: int, j: int| #![trigger final(self).cell_at(i, j)]
                old(self).in_frame(i, j) ==> final(self).cell_at(i, j) == (if i == x && j == y {
                    Cell { bg: color, ..old(self).cell_at(i, j) }
                } else {
                    old(self).cell_at(i, j)
                }),
    {
        if x < self.cells.len() && y < self.cells[x].len() {
            let old_cell = self.cells[x][y];
            self.cells[x][y] = Cell { bg: color, ..old_cell };
        }
    }
}

} // verus!
