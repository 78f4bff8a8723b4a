//! The console: the shell, the screen, and what a key does to both.
//!
//! The mainline loop polls the keyboard and hands every scancode it reads to
//! the console. The console decodes it, edits or executes the line, and
//! redraws the screen. Its answer says whether the loop goes on or the
//! machine is to be shut down or reset.

use vstd::prelude::*;
use vstd::slice::slice_subrange;
use vstd::string::StringSliceAdditionalSpecFns;
use vstd::utf8::encode_utf8;
use crate::interrupts::{is_key_press, key_pressed};
use crate::port::PortOp;
use crate::screen::{
    attribute, recolored, scrolled, with_blank_rows, with_text, Screen, ScreenView, BLANK_COLOR,
};
use crate::shell::{
    command_text, elapsed_ticks, execute_outcome, rejects_color, Shell, ShellOutcome, ShellResult,
    ShellView, LINE_CAPACITY,
};
use crate::text::{
    format_uptime, lemma_decimal_digits, lemma_digit_count, pow10, scancode_char,
    scancode_to_char, uptime_text, utf8_text,
};

verus! {

/// Row of the first prompt.
pub const FIRST_PROMPT_ROW: usize = 5;

/// The lowest row a prompt can stand in. Output that would go below it
/// scrolls the screen instead.
pub const LAST_PROMPT_ROW: usize = 23;

/// Timer ticks in a second.
pub const TICKS_PER_SECOND: u64 = 100;

/// Port that takes the shutdown command of the emulator.
pub const SHUTDOWN_PORT: u16 = 0x604;

/// The shutdown command.
pub const SHUTDOWN_COMMAND: u16 = 0x2000;

/// Command port of the keyboard controller, which also resets the machine.
pub const RESET_PORT: u16 = 0x64;

/// The reset command.
pub const RESET_COMMAND: u8 = 0xFE;

/// How often the keyboard is polled and emptied before the first prompt.
pub const KEYBOARD_DRAIN_READS: usize = 10;

/// How many pause instructions the mainline loop spends between two polls.
pub const PAUSE_SPINS: usize = 500;

/// What the mainline loop does after a key has been handled.
#[derive(Clone, Copy, PartialEq, Eq, Debug, Structural)]
pub enum Next {
    /// Poll on.
    Continue,
    /// Send the shutdown command and halt.
    Shutdown,
    /// Send the reset command and halt.
    Reboot,
}

/// The shell, the screen and the row of the prompt.
pub struct Console {
    shell: Shell,
    screen: Screen,
    current_row: usize,
}

/// What a [`Console`] stands for.
pub struct ConsoleView {
    pub shell: ShellView,
    pub screen: ScreenView,
    /// The row of the prompt.
    pub row: usize,
}

/// A screen and the row that is written next.
pub struct Page {
    pub screen: ScreenView,
    pub row: int,
}

/// `page` with `text` written into its row from column `x` on.
pub open spec fn written(page: Page, x: int, text: Seq<u8>, color: u8) -> Page {
    Page {
        screen: ScreenView {
            cells: with_text(
                page.screen.cells,
                x,
                page.row,
                text,
                attribute(page.screen.background, color),
            ),
            ..page.screen
        },
        ..page
    }
}

/// `page` one row further down. From the last prompt row on the screen
/// scrolls up instead and the row stays the last prompt row.
pub open spec fn advanced(page: Page) -> Page {
    if page.row + 1 >= 24 {
        Page {
            screen: ScreenView {
                cells: scrolled(
                    page.screen.cells,
                    attribute(page.screen.background, BLANK_COLOR),
                ),
                ..page.screen
            },
            row: LAST_PROMPT_ROW as int,
        }
    } else {
        Page { row: page.row + 1, ..page }
    }
}

/// `page` after one line of output: the text at the left edge, then one row
/// further down.
pub open spec fn with_line(page: Page, text: Seq<u8>, color: u8) -> Page {
    advanced(written(page, 0, text, color))
}

/// `page` after the first `count` of `lines` have been put out.
pub open spec fn with_lines(page: Page, lines: Seq<Seq<char>>, count: nat) -> Page
    decreases count,
{
    if count == 0 {
        page
    } else {
        with_line(
            with_lines(page, lines, (count - 1) as nat),
            encode_utf8(lines[count - 1]),
            0x0B,
        )
    }
}

/// `page` blanked, in its background.
pub open spec fn cleared(page: Page) -> Page {
    Page {
        screen: ScreenView {
            cells: with_blank_rows(
                page.screen.cells,
                0,
                25,
                attribute(page.screen.background, BLANK_COLOR),
            ),
            ..page.screen
        },
        ..page
    }
}

/// `page` at row `row`.
pub open spec fn at_row(page: Page, row: int) -> Page {
    Page { row, ..page }
}

/// Hours, minutes below 60 and seconds below 60 of an uptime of `ticks`
/// timer ticks.
pub open spec fn uptime_parts(ticks: u64) -> (u64, u64, u64) {
    let seconds = ticks / TICKS_PER_SECOND;
    let minutes = seconds / 60;
    ((minutes / 60) as u64, (minutes % 60) as u64, (seconds % 60) as u64)
}

/// The uptime line for `ticks` timer ticks since boot.
pub open spec fn uptime_line(ticks: u64) -> Seq<u8> {
    let parts = uptime_parts(ticks);
    uptime_text(parts.0, parts.1, parts.2)
}

/// What the outcome of a line puts on `page`, the prompt excepted.
pub open spec fn shown(page: Page, outcome: ShellOutcome) -> Page {
    match outcome {
        ShellOutcome::Clear => at_row(
            written(
                at_row(
                    written(
                        at_row(cleared(page), 0),
                        0,
                        encode_utf8("=== AerogelOS v0.1.0 ==="@),
                        0x0E,
                    ),
                    1,
                ),
                0,
                encode_utf8("Type 'help' for commands"@),
                0x07,
            ),
            3,
        ),
        ShellOutcome::Shutdown => at_row(
            written(at_row(cleared(page), 12), 30, encode_utf8("Shutting down..."@), 0x0C),
            page.row,
        ),
        ShellOutcome::Reboot => at_row(
            written(at_row(cleared(page), 12), 32, encode_utf8("Rebooting..."@), 0x0E),
            page.row,
        ),
        ShellOutcome::CpuInfo => {
            let first = written(page, 0, encode_utf8("CPU: x86_64 compatible"@), 0x0B);
            advanced(
                written(
                    at_row(first, first.row + 1),
                    0,
                    encode_utf8("Vendor: (Use CPUID for details)"@),
                    0x07,
                ),
            )
        },
        ShellOutcome::MemInfo => with_line(
            with_line(page, encode_utf8("Testing memory allocator..."@), 0x0E),
            encode_utf8("Heap: 200KB allocated, Status: OK"@),
            0x0A,
        ),
        ShellOutcome::SysInfo => with_line(
            with_line(
                with_line(
                    with_line(
                        with_line(page, encode_utf8("=== System Information ==="@), 0x0E),
                        encode_utf8("OS: AerogelOS v0.1.0"@),
                        0x0B,
                    ),
                    encode_utf8("Architecture: x86_64"@),
                    0x0B,
                ),
                encode_utf8("Memory: 200KB heap"@),
                0x0B,
            ),
            encode_utf8("Timer: 100Hz PIT"@),
            0x0B,
        ),
        ShellOutcome::DateTime => with_line(
            with_line(page, encode_utf8("Date: 2025-01-XX (RTC not impl)"@), 0x0B),
            encode_utf8("Time: HH:MM:SS (RTC not impl)"@),
            0x0B,
        ),
        ShellOutcome::Uptime(ticks) => with_line(page, uptime_line(ticks), 0x0B),
        ShellOutcome::BgColor(color) => {
            let colored = Page {
                screen: ScreenView {
                    cells: recolored(page.screen.cells, color),
                    background: color,
                },
                ..page
            };
            with_line(colored, encode_utf8("Background color changed!"@), 0x0A)
        },
        ShellOutcome::Output(text) => with_line(page, encode_utf8(text), 0x0A),
        ShellOutcome::MultiOutput(lines, count) => with_lines(page, lines, count as nat),
        ShellOutcome::Print(bytes, len) => with_line(
            page,
            command_text(bytes.take(len as int)),
            0x0F,
        ),
        ShellOutcome::Empty => page,
    }
}

/// What the mainline loop does after the outcome of a line has been shown.
pub open spec fn next_of(outcome: ShellOutcome) -> Next {
    match outcome {
        ShellOutcome::Shutdown => Next::Shutdown,
        ShellOutcome::Reboot => Next::Reboot,
        _ => Next::Continue,
    }
}

/// `page` with the prompt and the line `line` behind it in its row.
pub open spec fn redrawn(page: Page, line: Seq<u8>) -> Page {
    let blank = Page {
        screen: ScreenView {
            cells: with_blank_rows(
                page.screen.cells,
                page.row,
                page.row + 1,
                attribute(page.screen.background, BLANK_COLOR),
            ),
            ..page.screen
        },
        ..page
    };
    written(written(blank, 0, encode_utf8("> "@), 0x0F), 2, command_text(line), 0x0F)
}

/// The page of a console.
pub open spec fn page_of(console: ConsoleView) -> Page {
    Page { screen: console.screen, row: console.row as int }
}

/// The page after enter has been pressed on `line`, `elapsed` ticks after
/// boot: one row down, the outcome shown, and a new prompt unless the machine
/// is going down.
pub open spec fn entered(page: Page, line: Seq<u8>, elapsed: u64) -> Page {
    let outcome = execute_outcome(line, elapsed);
    let shown = shown(advanced(page), outcome);
    if next_of(outcome) == Next::Continue {
        written(shown, 0, encode_utf8("> "@), 0x0F)
    } else {
        shown
    }
}

/// The line of the shell after `ch` has been typed: enter executes and
/// empties it, backspace removes its last byte, anything else is appended.
pub open spec fn typed(line: Seq<u8>, ch: char) -> Seq<u8> {
    if ch == '\n' {
        if rejects_color(line) {
            line
        } else {
            Seq::empty()
        }
    } else if ch == '\u{8}' {
        if line.len() > 0 {
            line.drop_last()
        } else {
            line
        }
    } else if line.len() < LINE_CAPACITY {
        line.push(ch as u8)
    } else {
        line
    }
}

/// The console after the key that types `ch` has been pressed at tick
/// `ticks`.
pub open spec fn after_key(console: ConsoleView, ch: char, ticks: u64) -> ConsoleView {
    let line = typed(console.shell.line, ch);
    let page = if ch == '\n' {
        entered(
            page_of(console),
            console.shell.line,
            elapsed_ticks(ticks, console.shell.boot_time),
        )
    } else {
        redrawn(page_of(console), line)
    };
    ConsoleView {
        shell: ShellView { line, ..console.shell },
        screen: page.screen,
        row: page.row as usize,
    }
}

/// What the mainline loop does after the key that types `ch` has been
/// pressed.
pub open spec fn next_after_key(console: ConsoleView, ch: char, ticks: u64) -> Next {
    if ch == '\n' {
        next_of(
            execute_outcome(console.shell.line, elapsed_ticks(ticks, console.shell.boot_time)),
        )
    } else {
        Next::Continue
    }
}

/// The screen before the first boot step: blank, with the banner on top.
pub open spec fn banner_screen() -> ScreenView {
    ScreenView {
        cells: with_text(
            with_blank_rows(
                Seq::new(4000, |k: int| 0u8),
                0,
                25,
                attribute(0, BLANK_COLOR),
            ),
            0,
            0,
            encode_utf8("=== AerogelOS v0.1.0 ==="@),
            attribute(0, 0x0E),
        ),
        background: 0,
    }
}

/// The screen once the boot is done: the ready line, the greeting and the
/// first prompt.
pub open spec fn ready_screen(screen: ScreenView) -> ScreenView {
    let done = with_text(
        screen.cells,
        0,
        1,
        encode_utf8("[DONE] System ready!          "@),
        attribute(screen.background, 0x0A),
    );
    let welcome = with_text(
        done,
        0,
        2,
        encode_utf8("Welcome to AerogelOS!"@),
        attribute(screen.background, 0x0F),
    );
    let hint = with_text(
        welcome,
        0,
        3,
        encode_utf8("Type 'help' for available commands"@),
        attribute(screen.background, 0x07),
    );
    ScreenView {
        cells: with_text(hint, 0, 5, encode_utf8("> "@), attribute(screen.background, 0x0F)),
        ..screen
    }
}

/// The port access that shuts the machine down.
pub open spec fn shutdown_op() -> PortOp {
    PortOp::WriteWord { port: SHUTDOWN_PORT, word: SHUTDOWN_COMMAND }
}

/// The port access that resets the machine.
pub open spec fn reset_op() -> PortOp {
    PortOp::Write { port: RESET_PORT, value: RESET_COMMAND }
}

/// An uptime line always fits into 64 bytes.
pub proof fn lemma_uptime_line_fits(ticks: u64)
    ensures
        uptime_line(ticks).len() <= 37,
{
    let parts = uptime_parts(ticks);
    lemma_decimal_digits(parts.0 as nat);
    reveal_with_fuel(pow10, 3);
    lemma_digit_count(parts.1 as nat, 2);
    lemma_digit_count(parts.2 as nat, 2);
    reveal_strlit("Uptime: ");
    reveal_strlit("h ");
    reveal_strlit("m ");
    reveal_strlit("s");
}

/// Writes `text` into row `row` from column `x` on.
fn write_at(screen: &mut Screen, row: usize, x: usize, text: &str, color: u8)
    requires
        row < 25,
    ensures
        (Page { screen: final(screen)@, row: row as int }) == written(
            Page { screen: old(screen)@, row: row as int },
            x as int,
            text.spec_bytes(),
            color,
        ),
{
    screen.vga_write(x, row, text, color);
}

/// Goes one row down, scrolling if the screen is full.
fn advance(screen: &mut Screen, row: usize) -> (next: usize)
    requires
        row < 25,
    ensures
        (Page { screen: final(screen)@, row: next as int }) == advanced(
            Page { screen: old(screen)@, row: row as int },
        ),
        next <= LAST_PROMPT_ROW,
{
    let mut next: usize = row + 1;
    if next >= 24 {
        screen.scroll_up();
        next = LAST_PROMPT_ROW;
    }
    next
}

/// Puts out one line of output.
fn put_line(screen: &mut Screen, row: usize, text: &str, color: u8) -> (next: usize)
    requires
        row < 25,
    ensures
        (Page { screen: final(screen)@, row: next as int }) == with_line(
            Page { screen: old(screen)@, row: row as int },
            text.spec_bytes(),
            color,
        ),
        next <= LAST_PROMPT_ROW,
{
    write_at(screen, row, 0, text, color);
    advance(screen, row)
}

/// Puts out the first `count` of `lines`.
fn put_lines(screen: &mut Screen, row: usize, lines: &[&'static str; 16], count: usize) -> (next:
    usize)
    requires
        row <= LAST_PROMPT_ROW,
        count <= 16,
    ensures
        (Page { screen: final(screen)@, row: next as int }) == with_lines(
            Page { screen: old(screen)@, row: row as int },
            Seq::new(16, |i: int| lines@[i]@),
            count as nat,
        ),
        next <= LAST_PROMPT_ROW,
{
    let ghost views = Seq::new(16, |i: int| lines@[i]@);
    let ghost start = Page { screen: screen@, row: row as int };
    let mut next: usize = row;
    let mut i: usize = 0;
    while i < count
        invariant
            i <= count <= 16,
            next <= LAST_PROMPT_ROW,
            views == Seq::new(16, |i: int| lines@[i]@),
            (Page { screen: screen@, row: next as int }) == with_lines(start, views, i as nat),
        decreases count - i,
    {
        next = put_line(screen, next, lines[i], 0x0B);
        i = i + 1;
    }
    next
}

/// Splits an uptime in timer ticks into hours, minutes and seconds.
pub fn split_uptime(ticks: u64) -> (parts: (u64, u64, u64))
    ensures
        parts == uptime_parts(ticks),
{
    let seconds: u64 = ticks / TICKS_PER_SECOND;
    let minutes: u64 = seconds / 60;
    (minutes / 60, minutes % 60, seconds % 60)
}

/// Exercises the allocator the way the memory test does: a vector of ten
/// numbers and a short string, both released again.
fn exercise_heap() {
    let mut numbers: Vec<u32> = Vec::new();
    let mut i: u32 = 0;
    while i < 10
        invariant
            i <= 10,
        decreases 10 - i,
    {
        numbers.push(i * 10);
        i = i + 1;
    }
    let text = "Heap OK!".to_owned();
}

/// Shows the outcome of a line from row `row` on and returns the row that
/// comes next.
fn show(screen: &mut Screen, row: usize, result: &ShellResult) -> (next: usize)
    requires
        row <= LAST_PROMPT_ROW,
        result@ matches ShellOutcome::MultiOutput(_, count) ==> count <= 16,
        result@ matches ShellOutcome::Print(_, len) ==> len <= 256,
    ensures
        (Page { screen: final(screen)@, row: next as int }) == shown(
            Page { screen: old(screen)@, row: row as int },
            result@,
        ),
        next <= LAST_PROMPT_ROW,
{
    match result {
        ShellResult::Clear => {
            screen.clear_screen();
            write_at(screen, 0, 0, "=== AerogelOS v0.1.0 ===", 0x0E);
            write_at(screen, 1, 0, "Type 'help' for commands", 0x07);
            3
        },
        ShellResult::Shutdown => {
            screen.clear_screen();
            write_at(screen, 12, 30, "Shutting down...", 0x0C);
            row
        },
        ShellResult::Reboot => {
            screen.clear_screen();
            write_at(screen, 12, 32, "Rebooting...", 0x0E);
            row
        },
        ShellResult::CpuInfo => {
            write_at(screen, row, 0, "CPU: x86_64 compatible", 0x0B);
            write_at(screen, row + 1, 0, "Vendor: (Use CPUID for details)", 0x07);
            advance(screen, row + 1)
        },
        ShellResult::MemInfo => {
            let next = put_line(screen, row, "Testing memory allocator...", 0x0E);
            exercise_heap();
            put_line(screen, next, "Heap: 200KB allocated, Status: OK", 0x0A)
        },
        ShellResult::SysInfo => {
            let next = put_line(screen, row, "=== System Information ===", 0x0E);
            let next = put_line(screen, next, "OS: AerogelOS v0.1.0", 0x0B);
            let next = put_line(screen, next, "Architecture: x86_64", 0x0B);
            let next = put_line(screen, next, "Memory: 200KB heap", 0x0B);
            put_line(screen, next, "Timer: 100Hz PIT", 0x0B)
        },
        ShellResult::DateTime => {
            let next = put_line(screen, row, "Date: 2025-01-XX (RTC not impl)", 0x0B);
            put_line(screen, next, "Time: HH:MM:SS (RTC not impl)", 0x0B)
        },
        ShellResult::Uptime(ticks) => {
            let (hours, minutes, seconds) = split_uptime(*ticks);
            let mut buf: [u8; 64] = [0u8; 64];
            proof {
                lemma_uptime_line_fits(*ticks);
            }
            let text = format_uptime(hours, minutes, seconds, &mut buf);
            put_line(screen, row, text, 0x0B)
        },
        ShellResult::BgColor(color) => {
            screen.set_background(*color);
            screen.change_background(*color);
            put_line(screen, row, "Background color changed!", 0x0A)
        },
        ShellResult::Output(text) => put_line(screen, row, text, 0x0A),
        ShellResult::MultiOutput(lines, count) => put_lines(screen, row, lines, *count),
        ShellResult::Print(bytes, len) => {
            let part = slice_subrange(bytes.as_slice(), 0, *len);
            let text = match utf8_text(part) {
                Some(text) => text,
                None => "",
            };
            proof {
                reveal_strlit("");
                reveal_with_fuel(vstd::utf8::encode_utf8, 1);
                assert("".spec_bytes() =~= Seq::<u8>::empty());
            }
            put_line(screen, row, text, 0x0F)
        },
        ShellResult::Empty => row,
    }
}

impl View for Console {
    type V = ConsoleView;

    closed spec fn view(&self) -> ConsoleView {
        ConsoleView {
            shell: self.shell@,
            screen: self.screen@,
            row: if self.current_row <= LAST_PROMPT_ROW {
                self.current_row
            } else {
                LAST_PROMPT_ROW
            },
        }
    }
}

impl Console {

    /// The console before the first boot step: an empty line, and a blank
    /// screen with the banner on top.
    pub fn new() -> (console: Self)
        ensures
            console@.shell == (ShellView { line: Seq::empty(), boot_time: 0 }),
            console@.screen == banner_screen(),
            console@.row == FIRST_PROMPT_ROW,
    {
        let mut screen = Screen::new();
        screen.vga_write(0, 0, "=== AerogelOS v0.1.0 ===", 0x0E);
        Console { shell: Shell::new(), screen, current_row: FIRST_PROMPT_ROW }
    }

    /// Shows `status` in the status row, in grey.
    pub fn show_status(&mut self, status: &str)
        ensures
            final(self)@ == (ConsoleView {
                screen: ScreenView {
                    cells: with_text(
                        old(self)@.screen.cells,
                        0,
                        1,
                        status.spec_bytes(),
                        attribute(old(self)@.screen.background, 0x07),
                    ),
                    ..old(self)@.screen
                },
                ..old(self)@
            }),
    {
        self.screen.vga_write(0, 1, status, 0x07);
    }

    /// Ends the boot at tick `ticks`: records the boot time and shows the
    /// ready line, the greeting and the first prompt.
    pub fn ready(&mut self, ticks: u64)
        ensures
            final(self)@ == (ConsoleView {
                shell: ShellView { boot_time: ticks, ..old(self)@.shell },
                screen: ready_screen(old(self)@.screen),
                row: FIRST_PROMPT_ROW,
            }),
    {
        self.screen.vga_write(0, 1, "[DONE] System ready!          ", 0x0A);
        self.screen.vga_write(0, 2, "Welcome to AerogelOS!", 0x0F);
        self.screen.vga_write(0, 3, "Type 'help' for available commands", 0x07);
        self.screen.vga_write(0, 5, "> ", 0x0F);
        self.shell.set_boot_time(ticks);
        self.current_row = FIRST_PROMPT_ROW;
    }

    /// The screen to show.
    pub fn screen(&self) -> (screen: &Screen)
        ensures
            screen@ == self@.screen,
    {
        &self.screen
    }

    /// The shell.
    pub fn shell(&self) -> (shell: &Shell)
        ensures
            shell@ == self@.shell,
    {
        &self.shell
    }

    /// The row of the prompt.
    pub fn current_row(&self) -> (row: usize)
        ensures
            row == self@.row,
            row <= LAST_PROMPT_ROW,
    {
        if self.current_row <= LAST_PROMPT_ROW {
            self.current_row
        } else {
            LAST_PROMPT_ROW
        }
    }

    /// Handles the key that types `ch`, pressed at tick `ticks`.
    ///
    /// Enter executes the line and shows what it gives below the prompt;
    /// backspace and every other character edit the line and redraw it.
    pub fn key(&mut self, ch: char, ticks: u64) -> (next: Next)
        ensures
            final(self)@ == after_key(old(self)@, ch, ticks),
            next == next_after_key(old(self)@, ch, ticks),
    {
        let row: usize = self.current_row();
        if ch == '\n' {
            let result = self.shell.execute(ticks);
            let row = advance(&mut self.screen, row);
            let row = show(&mut self.screen, row, &result);
            self.current_row = row;
            match result {
                ShellResult::Shutdown => Next::Shutdown,
                ShellResult::Reboot => Next::Reboot,
                _ => {
                    write_at(&mut self.screen, row, 0, "> ", 0x0F);
                    Next::Continue
                },
            }
        } else {
            if ch == '\u{8}' {
                self.shell.backspace();
            } else {
                self.shell.add_char(ch);
            }
            self.screen.clear_line(row);
            self.screen.vga_write(0, row, "> ", 0x0F);
            self.screen.vga_write(2, row, self.shell.get_buffer(), 0x0F);
            self.current_row = row;
            Next::Continue
        }
    }

    /// Handles one scancode read from the keyboard at tick `ticks`: the
    /// press of a key that types a character is handled as that key,
    /// anything else changes nothing.
    pub fn scancode(&mut self, scancode: u8, ticks: u64) -> (next: Next)
        ensures
            is_key_press(scancode) && scancode_char(scancode) is Some ==> final(self)@
                == after_key(old(self)@, scancode_char(scancode)->0, ticks) && next
                == next_after_key(old(self)@, scancode_char(scancode)->0, ticks),
            !(is_key_press(scancode) && scancode_char(scancode) is Some) ==> final(self)@ == old(
                self,
            )@ && next == Next::Continue,
    {
        if key_pressed(scancode) {
            match scancode_to_char(scancode) {
                Some(ch) => self.key(ch, ticks),
                None => Next::Continue,
            }
        } else {
            Next::Continue
        }
    }
}

/// The port access that shuts the machine down.
pub fn shutdown() -> (op: PortOp)
    ensures
        op == shutdown_op(),
{
    PortOp::WriteWord { port: SHUTDOWN_PORT, word: SHUTDOWN_COMMAND }
}

/// The port access that resets the machine.
pub fn reboot() -> (op: PortOp)
    ensures
        op == reset_op(),
{
    PortOp::Write { port: RESET_PORT, value: RESET_COMMAND }
}

} // verus!
