//! The VGA text screen: a grid of character cells, and a writer that fills
//! its last row and scrolls.

use vstd::prelude::*;
use vstd::string::StringSliceAdditionalSpecFns;

verus! {

/// Rows of the screen.
pub const M: usize = 25;

/// Columns of the screen.
pub const N: usize = 80;

/// The byte that ends a line.
pub const NEWLINE: u8 = 0x0a;

/// The character of an empty cell.
pub const BLANK: u8 = 0x20;

/// The glyph shown in place of a byte that cannot be printed.
pub const REPLACEMENT: u8 = 0xfe;

/// The sixteen colours of the text mode, in the order of their codes.
#[derive(Debug, Clone, Copy, PartialEq, Eq, Structural)]
pub enum Color {
    Black,
    Blue,
    Green,
    Cyan,
    Red,
    Magenta,
    Brown,
    LightGray,
    DarkGray,
    LightBlue,
    LightGreen,
    LightCyan,
    LightRed,
    Pink,
    Yellow,
    White,
}

impl Color {
    /// The colour's code, from 0 for black to 15 for white.
    pub open spec fn spec_code(&self) -> u8 {
        match self {
            Color::Black => 0,
            Color::Blue => 1,
            Color::Green => 2,
            Color::Cyan => 3,
            Color::Red => 4,
            Color::Magenta => 5,
            Color::Brown => 6,
            Color::LightGray => 7,
            Color::DarkGray => 8,
            Color::LightBlue => 9,
            Color::LightGreen => 10,
            Color::LightCyan => 11,
            Color::LightRed => 12,
            Color::Pink => 13,
            Color::Yellow => 14,
            Color::White => 15,
        }
    }

    #[verifier::when_used_as_spec(spec_code)]
    pub fn code(&self) -> (code: u8)
        ensures
            code == self.code(),
            code < 16,
    {
        match self {
            Color::Black => 0,
            Color::Blue => 1,
            Color::Green => 2,
            Color::Cyan => 3,
            Color::Red => 4,
            Color::Magenta => 5,
            Color::Brown => 6,
            Color::LightGray => 7,
            Color::DarkGray => 8,
            Color::LightBlue => 9,
            Color::LightGreen => 10,
            Color::LightCyan => 11,
            Color::LightRed => 12,
            Color::Pink => 13,
            Color::Yellow => 14,
            Color::White => 15,
        }
    }

    /// The attribute byte of a cell with foreground `f` on background `b`:
    /// the background's code in the high four bits, the foreground's in the
    /// low four.
    pub open spec fn attribute(f: Color, b: Color) -> u8 {
        (b.code() << 4) | f.code()
    }

    /// The attribute byte of a cell with foreground `f` on background `b`.
    #[allow(non_snake_case)]
    #[verifier::when_used_as_spec(attribute)]
    pub fn GenColorCode(f: Color, b: Color) -> (attribute: u8)
        ensures
            attribute == Color::attribute(f, b),
            attribute == (b.code() << 4) | f.code(),
            attribute == 16 * b.code() + f.code(),
    {
        let back = b.code();
        let front = f.code();
        assert((back << 4) | front == 16 * back + front) by (bit_vector)
            requires
                back < 16,
                front < 16,
        ;
        (back << 4) | front
    }
}

/// One cell of the screen.
#[derive(Debug, Clone, Copy, PartialEq, Eq, Structural)]
pub struct Char {
    /// The character, in code page 437.
    pub ch: u8,
    /// The attribute byte: background and foreground colour.
    pub color_code: u8,
}

impl Char {
    /// The cell as the display reads it, in one 16-bit word: the character
    /// in the low byte, the attribute in the high byte.
    pub open spec fn spec_to_word(&self) -> u16 {
        (self.ch as u16) | ((self.color_code as u16) << 8)
    }

    /// The cell that the display shows for a word.
    pub open spec fn spec_from_word(word: u16) -> Char {
        Char { ch: (word & 0xff) as u8, color_code: (word >> 8) as u8 }
    }

    /// The cell as the display reads it, to be stored in one piece.
    #[verifier::when_used_as_spec(spec_to_word)]
    pub fn to_word(&self) -> (word: u16)
        ensures
            word == self.to_word(),
            Char::from_word(word) == *self,
    {
        let ch = self.ch;
        let color_code = self.color_code;
        assert((((ch as u16) | ((color_code as u16) << 8)) & 0xff) as u8 == ch && (((ch as u16) | ((
        color_code as u16) << 8)) >> 8) as u8 == color_code) by (bit_vector);
        (self.ch as u16) | ((self.color_code as u16) << 8)
    }

    /// The cell that the display shows for a word.
    #[verifier::when_used_as_spec(spec_from_word)]
    pub fn from_word(word: u16) -> (cell: Char)
        ensures
            cell == Char::from_word(word),
            cell.to_word() == word,
    {
        assert(word & 0xff <= 0xff && word >> 8 <= 0xff && (((word & 0xff) as u8) as u16) | ((((word
            >> 8) as u8) as u16) << 8) == word) by (bit_vector);
        Char { ch: (word & 0xff) as u8, color_code: (word >> 8) as u8 }
    }
}

/// Whether `grid` has the screen's rows and columns.
pub open spec fn is_grid(grid: Seq<Seq<Char>>) -> bool {
    &&& grid.len() == M
    &&& forall|row: int| 0 <= row < M ==> (#[trigger] grid[row]).len() == N
}

/// A row of empty cells with the attribute `color_code`.
pub open spec fn blank_row(color_code: u8) -> Seq<Char> {
    Seq::new(N as nat, |col: int| Char { ch: BLANK, color_code })
}

/// The cells of the screen. Whoever holds the value holds the screen: cells
/// are read and written by row and column, within the grid.
pub struct Buffer {
    chars: [[Char; N]; M],
}

impl Buffer {
    /// The cells, row by row.
    pub closed spec fn view(&self) -> Seq<Seq<Char>> {
        Seq::new(M as nat, |row: int| Seq::new(N as nat, |col: int| self.chars[row][col]))
    }

    /// A screen that shows `fill` in every cell.
    pub fn new(fill: Char) -> (buffer: Buffer)
        ensures
            is_grid(buffer@),
            forall|row: int, col: int|
                0 <= row < M && 0 <= col < N ==> (#[trigger] buffer@[row][col]) == fill,
    {
        Buffer { chars: [[fill;N];M] }
    }

    /// The cell at `row` and `col`.
    pub fn read(&self, row: usize, col: usize) -> (cell: Char)
        requires
            row < M,
            col < N,
        ensures
            cell == self@[row as int][col as int],
        no_unwind
    {
        self.chars[row][col]
    }

    /// Puts `cell` at `row` and `col`; every other cell is kept.
    pub fn write(&mut self, row: usize, col: usize, cell: Char)
        requires
            row < M,
            col < N,
        ensures
            final(self)@ == old(self)@.update(
                row as int,
                old(self)@[row as int].update(col as int, cell),
            ),
        no_unwind
    {
        self.chars[row][col] = cell;
        assert(self@ =~~= old(self)@.update(
            row as int,
            old(self)@[row as int].update(col as int, cell),
        ));
    }
}

/// A screen has the grid's rows and columns.
pub proof fn lemma_buffer_is_grid(buffer: Buffer)
    ensures
        is_grid(buffer@),
{
}

/// Whether a byte has a glyph of its own: the ASCII characters from the
/// space to the tilde.
pub open spec fn is_printable(byte: u8) -> bool {
    0x20 <= byte <= 0x7e
}

/// The character that the screen shows for a byte: the byte itself if it is
/// printable, the replacement glyph if not.
pub open spec fn spec_glyph(byte: u8) -> u8 {
    if is_printable(byte) {
        byte
    } else {
        REPLACEMENT
    }
}

/// The character that the screen shows for a byte.
#[verifier::when_used_as_spec(spec_glyph)]
pub fn glyph(byte: u8) -> (ch: u8)
    ensures
        ch == glyph(byte),
{
    if 0x20 <= byte && byte <= 0x7e {
        byte
    } else {
        REPLACEMENT
    }
}

/// What a writer is: where the next character goes, in which colours, what
/// the screen shows, and how often it has scrolled.
pub struct Screen {
    /// Column of the next character in the last row. It is `N` when the row
    /// is full and the next character has to scroll first.
    pub col: nat,
    /// Attribute byte of the cells that the writer fills.
    pub color_code: u8,
    /// The cells, row by row.
    pub grid: Seq<Seq<Char>>,
    /// Number of scrolls since the writer was made.
    pub scrolls: nat,
}

impl Screen {
    /// The column lies within the row or just behind it, and the grid has
    /// the screen's rows and columns.
    pub open spec fn wf(self) -> bool {
        self.col <= N && is_grid(self.grid)
    }

    /// The same screen with row `row` emptied.
    pub open spec fn clear_row(self, row: int) -> Screen {
        Screen { grid: self.grid.update(row, blank_row(self.color_code)), ..self }
    }

    /// One scroll: every row moves up by one, the first is lost, the last
    /// is empty, and the next character goes to its first column.
    pub open spec fn scroll(self) -> Screen {
        Screen {
            col: 0,
            color_code: self.color_code,
            grid: Seq::new(
                M as nat,
                |row: int|
                    if row < M - 1 {
                        self.grid[row + 1]
                    } else {
                        blank_row(self.color_code)
                    },
            ),
            scrolls: self.scrolls + 1,
        }
    }

    /// The screen after one byte. A newline scrolls. Any other byte scrolls
    /// first if the last row is full, and then shows its glyph in the next
    /// column of the last row.
    pub open spec fn put(self, byte: u8) -> Screen {
        if byte == NEWLINE {
            self.scroll()
        } else {
            let start = if self.col >= N {
                self.scroll()
            } else {
                self
            };
            Screen {
                col: start.col + 1,
                grid: start.grid.update(
                    M - 1,
                    start.grid[M - 1].update(
                        start.col as int,
                        Char { ch: glyph(byte), color_code: self.color_code },
                    ),
                ),
                ..start
            }
        }
    }

    /// The screen after the bytes of `bytes`, from the first to the last.
    pub open spec fn put_all(self, bytes: Seq<u8>) -> Screen
        decreases bytes.len(),
    {
        if bytes.len() == 0 {
            self
        } else {
            self.put_all(bytes.drop_last()).put(bytes.last())
        }
    }
}

/// Whether no byte of `bytes` ends a line.
pub open spec fn no_newline(bytes: Seq<u8>) -> bool {
    forall|i: int| 0 <= i < bytes.len() ==> bytes[i] != NEWLINE
}

/// A byte keeps the screen in shape: the column stays within the row or
/// just behind it, and the grid keeps its rows and columns.
pub proof fn lemma_put_wf(screen: Screen, byte: u8)
    requires
        screen.wf(),
    ensures
        screen.put(byte).wf(),
        screen.put(byte).color_code == screen.color_code,
{
    assert(is_grid(screen.scroll().grid));
}

/// So does any run of bytes.
pub proof fn lemma_put_all_wf(screen: Screen, bytes: Seq<u8>)
    requires
        screen.wf(),
    ensures
        screen.put_all(bytes).wf(),
        screen.put_all(bytes).color_code == screen.color_code,
    decreases bytes.len(),
{
    if bytes.len() > 0 {
        lemma_put_all_wf(screen, bytes.drop_last());
        lemma_put_wf(screen.put_all(bytes.drop_last()), bytes.last());
    }
}

/// Writing one run and then another is writing the two as one.
pub proof fn lemma_put_all_concat(screen: Screen, first: Seq<u8>, second: Seq<u8>)
    ensures
        screen.put_all(first + second) == screen.put_all(first).put_all(second),
    decreases second.len(),
{
    if second.len() == 0 {
        assert(first + second =~= first);
    } else {
        lemma_put_all_concat(screen, first, second.drop_last());
        assert((first + second).drop_last() =~= first + second.drop_last());
        assert((first + second).last() == second.last());
    }
}

/// A newline scrolls exactly once and leaves the column at 0, wherever the
/// column was.
pub proof fn lemma_newline_scrolls(screen: Screen)
    ensures
        screen.put(NEWLINE) == screen.scroll(),
        screen.put(NEWLINE).col == 0,
        screen.put(NEWLINE).scrolls == screen.scrolls + 1,
{
}

/// A byte that is no newline lands in the last row in the writer's colours,
/// and the column then stands just behind it. If it is printable it shows
/// as itself, and if not as the replacement glyph. It scrolls first, once,
/// exactly if the last row was full.
pub proof fn lemma_put_cell(screen: Screen, byte: u8)
    requires
        screen.wf(),
        byte != NEWLINE,
    ensures
        1 <= screen.put(byte).col <= N,
        screen.col < N ==> screen.put(byte).col == screen.col + 1,
        screen.col < N ==> screen.put(byte).scrolls == screen.scrolls,
        screen.col == N ==> screen.put(byte).col == 1,
        screen.col == N ==> screen.put(byte).scrolls == screen.scrolls + 1,
        screen.put(byte).grid[M - 1][screen.put(byte).col - 1] == (Char {
            ch: glyph(byte),
            color_code: screen.color_code,
        }),
        is_printable(byte) ==> screen.put(byte).grid[M - 1][screen.put(byte).col - 1].ch == byte,
        !is_printable(byte) ==> screen.put(byte).grid[M - 1][screen.put(byte).col - 1].ch
            == REPLACEMENT,
{
    assert(is_grid(screen.scroll().grid));
}

/// Where a run without newline ends. From column `c`, `n` bytes with
/// `n > 0` leave the column at `(c + n - 1) % N + 1` and scroll
/// `(c + n - 1) / N` times: once for each time the run finds the last row
/// full.
pub proof fn lemma_run(screen: Screen, bytes: Seq<u8>)
    requires
        screen.wf(),
        bytes.len() > 0,
        no_newline(bytes),
    ensures
        screen.put_all(bytes).col == (screen.col + bytes.len() - 1) % (N as int) + 1,
        screen.put_all(bytes).scrolls
            == screen.scrolls + (screen.col + bytes.len() - 1) / (N as int),
    decreases bytes.len(),
{
    let init = bytes.drop_last();
    let before = screen.put_all(init);
    lemma_put_all_wf(screen, init);
    lemma_put_cell(before, bytes.last());
    if init.len() == 0 {
        assert(before == screen);
    } else {
        lemma_run(screen, init);
    }
}

/// A full row. From column 0, `N` bytes without newline fill the last row:
/// the column then is `N`, and nothing has scrolled. One byte more scrolls
/// exactly once, goes to column 0 of the emptied row, and leaves the column
/// at 1.
pub proof fn lemma_full_row(screen: Screen, bytes: Seq<u8>, next: u8)
    requires
        screen.wf(),
        screen.col == 0,
        bytes.len() == N,
        no_newline(bytes),
        next != NEWLINE,
    ensures
        screen.put_all(bytes).col == N,
        screen.put_all(bytes).scrolls == screen.scrolls,
        screen.put_all(bytes).put(next).col == 1,
        screen.put_all(bytes).put(next).scrolls == screen.scrolls + 1,
        screen.put_all(bytes).put(next).grid[M - 1][0].ch == glyph(next),
{
    lemma_run(screen, bytes);
    lemma_put_all_wf(screen, bytes);
    lemma_put_cell(screen.put_all(bytes), next);
}

/// Writes characters to the last row of the screen and scrolls when the row
/// is full or a line ends.
pub struct Writer {
    col: usize,
    color_code: u8,
    buffer: Buffer,
    scrolls: Ghost<nat>,
}

impl Writer {
    #[verifier::type_invariant]
    spec fn inv(self) -> bool {
        self.col <= N
    }

    pub closed spec fn view(&self) -> Screen {
        Screen {
            col: self.col as nat,
            color_code: self.color_code,
            grid: self.buffer@,
            scrolls: self.scrolls@,
        }
    }

    /// A writer for the screen `buffer`, with foreground `front` on
    /// background `back`. It starts in the first column of the last row and
    /// leaves what the screen shows as it is.
    pub fn new(front: Color, back: Color, buffer: Buffer) -> (writer: Self)
        ensures
            writer@ == (Screen {
                col: 0,
                color_code: Color::GenColorCode(front, back),
                grid: buffer@,
                scrolls: 0,
            }),
            writer@.wf(),
    {
        Self { col: 0, color_code: Color::GenColorCode(front, back), buffer, scrolls: Ghost(0) }
    }

    /// Column of the next character.
    pub fn col(&self) -> (col: usize)
        ensures
            col == self@.col,
            col <= N,
            self@.wf(),
    {
        proof {
            use_type_invariant(self);
        }
        self.col
    }

    /// Attribute byte of the cells that the writer fills.
    pub fn color_code(&self) -> (color_code: u8)
        ensures
            color_code == self@.color_code,
    {
        self.color_code
    }

    /// The screen.
    pub fn buffer(&self) -> (buffer: &Buffer)
        ensures
            buffer@ == self@.grid,
    {
        &self.buffer
    }

    /// Empties row `raw`: every cell of it becomes a blank in the writer's
    /// colours.
    fn clear_raw(&mut self, raw: usize)
        requires
            raw < M,
        ensures
            final(self)@ == old(self)@.clear_row(raw as int),
    {
        proof {
            use_type_invariant(&*self);
        }
        let blank = Char { ch: BLANK, color_code: self.color_code };
        for col in 0..N
            invariant
                raw < M,
                self.col <= N,
                blank == (Char { ch: BLANK, color_code: self.color_code }),
                self.col == old(self).col,
                self.color_code == old(self).color_code,
                self.scrolls == old(self).scrolls,
                self.buffer@.len() == M,
                forall|row: int|
                    0 <= row < M && row != raw ==> self.buffer@[row] == old(self).buffer@[row],
                self.buffer@[raw as int].len() == N,
                forall|c: int| 0 <= c < col ==> self.buffer@[raw as int][c] == blank,
                forall|c: int|
                    col <= c < N ==> self.buffer@[raw as int][c]
                        == old(self).buffer@[raw as int][c],
        {
            self.buffer.write(raw, col, blank);
        }
        assert(self.buffer@ =~~= old(self).buffer@.update(raw as int, blank_row(self.color_code)));
    }

    /// Scrolls: every row moves up by one, the last row is emptied, and the
    /// next character goes to its first column.
    fn new_line(&mut self)
        ensures
            final(self)@ == old(self)@.scroll(),
    {
        proof {
            use_type_invariant(&*self);
        }
        for i in 1..M
            invariant
                self.col <= N,
                self.col == old(self).col,
                self.color_code == old(self).color_code,
                self.scrolls == old(self).scrolls,
                self.buffer@.len() == M,
                forall|row: int| 0 <= row < M ==> (#[trigger] self.buffer@[row]).len() == N,
                forall|row: int|
                    0 <= row < i - 1 ==> self.buffer@[row] == old(self).buffer@[row + 1],
                forall|row: int| i - 1 <= row < M ==> self.buffer@[row] == old(self).buffer@[row],
        {
            for j in 0..N
                invariant
                    1 <= i < M,
                    self.col <= N,
                    self.col == old(self).col,
                    self.color_code == old(self).color_code,
                    self.scrolls == old(self).scrolls,
                    self.buffer@.len() == M,
                    forall|row: int|
                        0 <= row < M ==> (#[trigger] self.buffer@[row]).len() == N,
                    forall|row: int|
                        0 <= row < i - 1 ==> self.buffer@[row] == old(self).buffer@[row + 1],
                    forall|row: int|
                        i <= row < M ==> self.buffer@[row] == old(self).buffer@[row],
                    forall|c: int|
                        0 <= c < j ==> self.buffer@[i - 1][c] == old(self).buffer@[i as int][c],
            {
                let cell = self.buffer.read(i, j);
                self.buffer.write(i - 1, j, cell);
            }
            assert(self.buffer@[i - 1] =~= old(self).buffer@[i as int]);
        }
        self.clear_raw(M - 1);
        self.col = 0;
        proof {
            self.scrolls = Ghost(self.scrolls@ + 1);
        }
        assert(self@.grid =~= old(self)@.scroll().grid);
    }

    /// Writes one byte. A newline scrolls. Any other byte shows its glyph in
    /// the next column of the last row, after a scroll if that row is full;
    /// a byte outside the printable ASCII range shows the replacement glyph.
    pub fn write_byte(&mut self, byte: u8)
        ensures
            final(self)@ == old(self)@.put(byte),
            final(self)@.wf(),
            byte == NEWLINE ==> final(self)@.col == 0,
            byte != NEWLINE ==> 1 <= final(self)@.col <= N,
            byte != NEWLINE ==> final(self)@.grid[M - 1][final(self)@.col - 1] == (Char {
                ch: glyph(byte),
                color_code: old(self)@.color_code,
            }),
    {
        proof {
            use_type_invariant(&*self);
            lemma_put_wf(self@, byte);
            if byte != NEWLINE {
                lemma_put_cell(self@, byte);
            }
        }
        if byte == NEWLINE {
            self.new_line();
        } else {
            if self.col >= N {
                self.new_line();
            }
            let cell = Char { ch: glyph(byte), color_code: self.color_code };
            self.buffer.write(M - 1, self.col, cell);
            self.col += 1;
        }
    }

    /// Writes the bytes of `s`, one after the other.
    pub fn write_string(&mut self, s: &str)
        ensures
            final(self)@ == old(self)@.put_all(s.spec_bytes()),
            final(self)@.wf(),
    {
        proof {
            use_type_invariant(&*self);
            lemma_put_all_wf(self@, s.spec_bytes());
        }
        let bytes = s.as_bytes();
        for i in 0..bytes.len()
            invariant
                bytes@ == s.spec_bytes(),
                self@ == old(self)@.put_all(bytes@.take(i as int)),
        {
            assert(bytes@.take(i + 1).drop_last() =~= bytes@.take(i as int));
            self.write_byte(bytes[i]);
        }
        assert(bytes@.take(bytes@.len() as int) =~= bytes@);
    }
}

} // verus!
