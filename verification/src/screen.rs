//! The text screen: 25 rows of 80 cells, two bytes each, the character and
//! its attribute.
//!
//! A [`Screen`] is the picture the kernel wants shown. Its owner copies the
//! bytes into the display's memory whenever the picture has changed.

use vstd::prelude::*;
use vstd::string::StringSliceAdditionalSpecFns;
use vstd::utf8::encode_utf8;
use crate::idt::{fault_message, message_of, Handler};

verus! {

/// Cells in a row.
pub const SCREEN_COLUMNS: usize = 80;

/// Rows on the screen.
pub const SCREEN_ROWS: usize = 25;

/// Bytes of the whole screen.
pub const SCREEN_BYTES: usize = 4000;

/// The blank character.
pub const BLANK: u8 = 0x20;

/// Foreground of blank cells: bright white.
pub const BLANK_COLOR: u8 = 0x0F;

/// Attribute of the fault screens: white on red.
pub const ALARM: u8 = 0x4F;

/// The text screen.
pub struct Screen {
    cells: [u8; 4000],
    background: u8,
}

/// What a [`Screen`] stands for.
pub struct ScreenView {
    /// Character and attribute of each cell, row by row.
    pub cells: Seq<u8>,
    /// The background color of whatever is written next.
    pub background: u8,
}

/// The attribute byte for `color` on `background`.
pub open spec fn attribute(background: u8, color: u8) -> u8 {
    (background << 4) | color
}

/// The position in the screen bytes of the cell in column `x` of row `y`.
pub open spec fn cell_offset(x: int, y: int) -> int {
    (y * 80 + x) * 2
}

/// How many characters of a text of `len` bytes fit on a row from column `x`
/// on.
pub open spec fn fitting(x: int, len: int) -> int {
    if x >= 80 {
        0
    } else if len <= 80 - x {
        len
    } else {
        80 - x
    }
}

/// The screen bytes after `text` has been put into row `y` from column `x`
/// on with attribute `attr`, as far as it fits on the row.
pub open spec fn with_text(cells: Seq<u8>, x: int, y: int, text: Seq<u8>, attr: u8) -> Seq<u8> {
    Seq::new(
        cells.len(),
        |k: int|
            {
                let i = (k - cell_offset(x, y)) / 2;
                if cell_offset(x, y) <= k && i < fitting(x, text.len() as int) {
                    if k % 2 == 0 {
                        text[i]
                    } else {
                        attr
                    }
                } else {
                    cells[k]
                }
            },
    )
}

/// The screen bytes after the rows from `first` up to `end` have been
/// blanked with attribute `attr`.
pub open spec fn with_blank_rows(cells: Seq<u8>, first: int, end: int, attr: u8) -> Seq<u8> {
    Seq::new(
        cells.len(),
        |k: int|
            if first * 160 <= k < end * 160 {
                if k % 2 == 0 {
                    BLANK
                } else {
                    attr
                }
            } else {
                cells[k]
            },
    )
}

/// The screen bytes after every row has moved up by one and the last row has
/// been blanked with attribute `attr`.
pub open spec fn scrolled(cells: Seq<u8>, attr: u8) -> Seq<u8> {
    Seq::new(
        cells.len(),
        |k: int|
            if k < 24 * 160 {
                cells[k + 160]
            } else if k % 2 == 0 {
                BLANK
            } else {
                attr
            },
    )
}

/// The screen bytes after every cell has been given the background `color`
/// and has kept its character and its foreground.
pub open spec fn recolored(cells: Seq<u8>, color: u8) -> Seq<u8> {
    Seq::new(
        cells.len(),
        |k: int|
            if k % 2 == 0 {
                cells[k]
            } else {
                (color << 4) | (cells[k] & 0x0F)
            },
    )
}

/// The eight hexadecimal digits of the low 32 bits of `value`, in capitals.
pub open spec fn hex_digits(value: usize) -> Seq<u8> {
    Seq::new(8, |i: int| hex_digit(((value >> ((28 - i * 4) as usize)) & 0xF) as u8))
}

/// The capital hexadecimal digit for `nibble`, which is below 16.
pub open spec fn hex_digit(nibble: u8) -> u8 {
    if nibble < 10 {
        (48 + nibble) as u8
    } else {
        (55 + nibble) as u8
    }
}

/// The screen bytes of the panic screen: everything blank in the alarm
/// attribute, the message in row 10 from column 30 on.
pub open spec fn panic_cells(cells: Seq<u8>) -> Seq<u8> {
    with_text(
        with_blank_rows(cells, 0, 25, ALARM),
        30,
        10,
        encode_utf8("!!! KERNEL PANIC !!!"@),
        ALARM,
    )
}

/// The screen bytes after a failed allocation of `size` bytes aligned to
/// `align` has been reported in rows 10 to 12.
pub open spec fn alloc_error_cells(cells: Seq<u8>, size: usize, align: usize) -> Seq<u8> {
    let message = with_text(cells, 0, 10, encode_utf8("ALLOC ERROR!"@), ALARM);
    let size_label = with_text(message, 0, 11, encode_utf8("Size:"@), ALARM);
    let size_value = with_text(size_label, 6, 11, hex_digits(size), ALARM);
    let align_label = with_text(size_value, 0, 12, encode_utf8("Align:"@), ALARM);
    with_text(align_label, 7, 12, hex_digits(align), ALARM)
}

impl View for Screen {
    type V = ScreenView;

    closed spec fn view(&self) -> ScreenView {
        ScreenView { cells: self.cells@, background: self.background }
    }
}

impl Screen {
    /// A blank screen with black background.
    pub fn new() -> (screen: Self)
        ensures
            screen@.background == 0,
            screen@.cells == with_blank_rows(
                Seq::new(SCREEN_BYTES as nat, |k: int| 0u8),
                0,
                25,
                attribute(0, BLANK_COLOR),
            ),
    {
        let mut screen = Screen { cells: [0u8; 4000], background: 0 };
        assert(screen.cells@ =~= Seq::new(SCREEN_BYTES as nat, |k: int| 0u8));
        screen.clear_screen();
        screen
    }

    /// The screen that shows `cells`, with `background` for what is written
    /// next.
    pub fn from_cells(cells: [u8; 4000], background: u8) -> (screen: Self)
        ensures
            screen@ == (ScreenView { cells: cells@, background }),
    {
        Screen { cells, background }
    }

    /// The bytes to show, character and attribute of each cell, row by row.
    pub fn cells(&self) -> (cells: &[u8; 4000])
        ensures
            cells@ == self@.cells,
            cells@.len() == SCREEN_BYTES,
    {
        &self.cells
    }

    /// The background color of whatever is written next.
    pub fn background(&self) -> (color: u8)
        ensures
            color == self@.background,
    {
        self.background
    }

    /// Sets the background color of whatever is written next. What is on the
    /// screen stays as it is.
    pub fn set_background(&mut self, color: u8)
        ensures
            final(self)@ == (ScreenView { background: color, ..old(self)@ }),
    {
        self.background = color;
    }

    /// Puts the bytes `text` into row `y` from column `x` on, each with the
    /// attribute `attr`. What does not fit on the row is left out.
    pub fn put(&mut self, x: usize, y: usize, text: &[u8], attr: u8)
        requires
            y < SCREEN_ROWS,
        ensures
            final(self)@ == (ScreenView {
                cells: with_text(old(self)@.cells, x as int, y as int, text@, attr),
                ..old(self)@
            }),
    {
        if x >= SCREEN_COLUMNS {
            assert(self.cells@ =~= with_text(old(self).cells@, x as int, y as int, text@, attr));
            return ;
        }
        let offset: usize = (y * 80 + x) * 2;
        let room: usize = SCREEN_COLUMNS - x;
        let count: usize = if text.len() <= room {
            text.len()
        } else {
            room
        };
        let mut i: usize = 0;
        while i < count
            invariant
                i <= count,
                count == fitting(x as int, text@.len() as int),
                x < 80,
                y < 25,
                offset == cell_offset(x as int, y as int),
                forall|k: int|
                    0 <= k < 4000 ==> self.cells@[k] == if offset <= k < offset + 2 * i {
                        if k % 2 == 0 {
                            text@[(k - offset) / 2]
                        } else {
                            attr
                        }
                    } else {
                        old(self).cells@[k]
                    },
                self.background == old(self).background,
            decreases count - i,
        {
            self.cells[offset + i * 2] = text[i];
            self.cells[offset + i * 2 + 1] = attr;
            i = i + 1;
        }
        assert(self.cells@ =~= with_text(old(self).cells@, x as int, y as int, text@, attr));
    }

    /// Writes `s` into row `y` from column `x` on, in `color` on the current
    /// background. What does not fit on the row is left out.
    pub fn vga_write(&mut self, x: usize, y: usize, s: &str, color: u8)
        requires
            y < SCREEN_ROWS,
        ensures
            final(self)@ == (ScreenView {
                cells: with_text(
                    old(self)@.cells,
                    x as int,
                    y as int,
                    s.spec_bytes(),
                    attribute(old(self)@.background, color),
                ),
                ..old(self)@
            }),
    {
        let attr: u8 = (self.background << 4) | color;
        self.put(x, y, s.as_bytes(), attr);
    }

    /// Blanks the rows from `first` up to `end` with attribute `attr`.
    fn blank_rows(&mut self, first: usize, end: usize, attr: u8)
        requires
            first <= end <= SCREEN_ROWS,
        ensures
            final(self)@ == (ScreenView {
                cells: with_blank_rows(old(self)@.cells, first as int, end as int, attr),
                ..old(self)@
            }),
    {
        let mut k: usize = first * 160;
        while k < end * 160
            invariant
                first * 160 <= k <= end * 160,
                k % 2 == 0,
                first <= end <= 25,
                forall|j: int|
                    0 <= j < 4000 ==> self.cells@[j] == if first * 160 <= j < k {
                        if j % 2 == 0 {
                            BLANK
                        } else {
                            attr
                        }
                    } else {
                        old(self).cells@[j]
                    },
                self.background == old(self).background,
            decreases end * 160 - k,
        {
            self.cells[k] = BLANK;
            self.cells[k + 1] = attr;
            k = k + 2;
        }
        assert(self.cells@ =~= with_blank_rows(
            old(self).cells@,
            first as int,
            end as int,
            attr,
        ));
    }

    /// Blanks the whole screen in the current background.
    pub fn clear_screen(&mut self)
        ensures
            final(self)@ == (ScreenView {
                cells: with_blank_rows(
                    old(self)@.cells,
                    0,
                    25,
                    attribute(old(self)@.background, BLANK_COLOR),
                ),
                ..old(self)@
            }),
    {
        let attr: u8 = (self.background << 4) | BLANK_COLOR;
        self.blank_rows(0, SCREEN_ROWS, attr);
    }

    /// Blanks row `row` in the current background.
    pub fn clear_line(&mut self, row: usize)
        requires
            row < SCREEN_ROWS,
        ensures
            final(self)@ == (ScreenView {
                cells: with_blank_rows(
                    old(self)@.cells,
                    row as int,
                    row + 1,
                    attribute(old(self)@.background, BLANK_COLOR),
                ),
                ..old(self)@
            }),
    {
        let attr: u8 = (self.background << 4) | BLANK_COLOR;
        self.blank_rows(row, row + 1, attr);
    }

    /// Moves every row up by one, which drops the first row, and blanks the
    /// last row in the current background.
    pub fn scroll_up(&mut self)
        ensures
            final(self)@ == (ScreenView {
                cells: scrolled(
                    old(self)@.cells,
                    attribute(old(self)@.background, BLANK_COLOR),
                ),
                ..old(self)@
            }),
    {
        let attr: u8 = (self.background << 4) | BLANK_COLOR;
        let mut k: usize = 0;
        while k < 24 * 160
            invariant
                k <= 24 * 160,
                forall|j: int|
                    0 <= j < 4000 ==> self.cells@[j] == if j < k {
                        old(self).cells@[j + 160]
                    } else {
                        old(self).cells@[j]
                    },
                self.background == old(self).background,
            decreases 24 * 160 - k,
        {
            self.cells[k] = self.cells[k + 160];
            k = k + 1;
        }
        self.blank_rows(24, SCREEN_ROWS, attr);
        assert(self.cells@ =~= scrolled(old(self).cells@, attr));
    }

    /// Gives every cell the background `color` and keeps its character and
    /// its foreground. The background of what is written next is not changed.
    pub fn change_background(&mut self, color: u8)
        ensures
            final(self)@ == (ScreenView {
                cells: recolored(old(self)@.cells, color),
                ..old(self)@
            }),
    {
        let mut cell: usize = 0;
        while cell < 80 * 25
            invariant
                cell <= 2000,
                forall|j: int|
                    0 <= j < 4000 ==> self.cells@[j] == if j < 2 * cell && j % 2 == 1 {
                        (color << 4) | (old(self).cells@[j] & 0x0F)
                    } else {
                        old(self).cells@[j]
                    },
                self.background == old(self).background,
            decreases 2000 - cell,
        {
            let foreground: u8 = self.cells[cell * 2 + 1] & 0x0F;
            self.cells[cell * 2 + 1] = (color << 4) | foreground;
            cell = cell + 1;
        }
        assert(self.cells@ =~= recolored(old(self).cells@, color));
    }

    /// Writes the low 32 bits of `value` as eight hexadecimal digits into row
    /// `y` from column `x` on, in the alarm attribute.
    pub fn write_hex(&mut self, x: usize, y: usize, value: usize)
        requires
            y < SCREEN_ROWS,
        ensures
            final(self)@ == (ScreenView {
                cells: with_text(old(self)@.cells, x as int, y as int, hex_digits(value), ALARM),
                ..old(self)@
            }),
    {
        let mut digits: [u8; 8] = [0u8; 8];
        let mut i: usize = 0;
        while i < 8
            invariant
                i <= 8,
                forall|j: int| 0 <= j < i ==> digits@[j] == hex_digits(value)[j],
            decreases 8 - i,
        {
            let shift: usize = 28 - i * 4;
            let nibble: usize = (value >> shift) & 0xF;
            assert(nibble < 16) by (bit_vector)
                requires
                    nibble == (value >> shift) & 0xF,
            ;
            let digit: u8 = nibble as u8;
            digits[i] = if digit < 10 {
                48 + digit
            } else {
                55 + digit
            };
            i = i + 1;
        }
        assert(digits@ =~= hex_digits(value));
        self.put(x, y, digits.as_slice(), ALARM);
    }

    /// Reports the fault that the routine `handler` halts on: its message
    /// in the alarm attribute at the start of the top row.
    pub fn show_fault(&mut self, handler: Handler)
        ensures
            final(self)@ == (ScreenView {
                cells: with_text(
                    old(self)@.cells,
                    0,
                    0,
                    encode_utf8(message_of(handler)),
                    ALARM,
                ),
                ..old(self)@
            }),
    {
        self.put(0, 0, fault_message(handler).as_bytes(), ALARM);
    }

    /// Shows the panic screen.
    pub fn show_panic(&mut self)
        ensures
            final(self)@ == (ScreenView { cells: panic_cells(old(self)@.cells), ..old(self)@ }),
    {
        self.blank_rows(0, SCREEN_ROWS, ALARM);
        self.put(30, 10, "!!! KERNEL PANIC !!!".as_bytes(), ALARM);
    }

    /// Reports a failed allocation of `size` bytes aligned to `align`.
    pub fn show_alloc_error(&mut self, size: usize, align: usize)
        ensures
            final(self)@ == (ScreenView {
                cells: alloc_error_cells(old(self)@.cells, size, align),
                ..old(self)@
            }),
    {
        self.put(0, 10, "ALLOC ERROR!".as_bytes(), ALARM);
        self.put(0, 11, "Size:".as_bytes(), ALARM);
        self.write_hex(6, 11, size);
        self.put(0, 12, "Align:".as_bytes(), ALARM);
        self.write_hex(7, 12, align);
    }
}

} // verus!
