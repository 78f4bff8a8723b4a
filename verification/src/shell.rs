//! The command shell: one line of input and what it means.
//!
//! The shell collects typed characters in a line of at most 255 bytes. On
//! enter the line is read as text, split into words at whitespace, and the
//! first word is looked up as a command. What has to be shown or done comes
//! back as a [`ShellResult`]; the shell itself shows nothing.

use vstd::prelude::*;
use vstd::slice::slice_subrange;
use vstd::string::StringSliceAdditionalSpecFns;
use vstd::utf8::{decode_first_scalar, length_of_first_scalar, valid_first_scalar, valid_utf8};
use crate::text::{ascii_bytes, utf8_text};

verus! {

/// Number of bytes a line can hold.
pub const LINE_CAPACITY: usize = 255;

/// The input line of the console.
pub struct Shell {
    buffer: [u8; 256],
    cursor: usize,
    boot_time: u64,
}

/// What the caller is to do after a line has been executed.
pub enum ShellResult {
    /// Show one line of fixed text.
    Output(&'static str),
    /// Show the first `.1` of the lines in `.0`.
    MultiOutput([&'static str; 16], usize),
    /// Clear the screen.
    Clear,
    /// Show the first `.1` bytes of `.0` as text.
    Print([u8; 256], usize),
    Shutdown,
    Reboot,
    CpuInfo,
    MemInfo,
    SysInfo,
    DateTime,
    /// Show the uptime, given the timer ticks since boot.
    Uptime(u64),
    /// Set the background to this color, 0 to 15.
    BgColor(u8),
    /// Nothing to do.
    Empty,
}

/// What a [`ShellResult`] stands for.
pub enum ShellOutcome {
    Output(Seq<char>),
    MultiOutput(Seq<Seq<char>>, usize),
    Clear,
    Print(Seq<u8>, usize),
    Shutdown,
    Reboot,
    CpuInfo,
    MemInfo,
    SysInfo,
    DateTime,
    Uptime(u64),
    BgColor(u8),
    Empty,
}

/// What a [`Shell`] stands for.
pub struct ShellView {
    /// The bytes typed so far.
    pub line: Seq<u8>,
    /// The tick count at boot, from which uptime is measured.
    pub boot_time: u64,
}

impl View for ShellResult {
    type V = ShellOutcome;

    open spec fn view(&self) -> ShellOutcome {
        match *self {
            ShellResult::Output(text) => ShellOutcome::Output(text@),
            ShellResult::MultiOutput(lines, count) => ShellOutcome::MultiOutput(
                Seq::new(16, |i: int| lines@[i]@),
                count,
            ),
            ShellResult::Clear => ShellOutcome::Clear,
            ShellResult::Print(bytes, len) => ShellOutcome::Print(bytes@, len),
            ShellResult::Shutdown => ShellOutcome::Shutdown,
            ShellResult::Reboot => ShellOutcome::Reboot,
            ShellResult::CpuInfo => ShellOutcome::CpuInfo,
            ShellResult::MemInfo => ShellOutcome::MemInfo,
            ShellResult::SysInfo => ShellOutcome::SysInfo,
            ShellResult::DateTime => ShellOutcome::DateTime,
            ShellResult::Uptime(ticks) => ShellOutcome::Uptime(ticks),
            ShellResult::BgColor(color) => ShellOutcome::BgColor(color),
            ShellResult::Empty => ShellOutcome::Empty,
        }
    }
}

/// Whether `b` is one of the whitespace characters that take one byte.
pub open spec fn is_whitespace_1(b: u8) -> bool {
    b == 0x20 || 0x09 <= b <= 0x0D
}

/// Whether two bytes encode a whitespace character: U+0085 or U+00A0.
pub open spec fn is_whitespace_2(a: u8, b: u8) -> bool {
    a == 0xC2 && (b == 0x85 || b == 0xA0)
}

/// Whether three bytes encode a whitespace character: U+1680, U+2000 to
/// U+200A, U+2028, U+2029, U+202F, U+205F or U+3000.
pub open spec fn is_whitespace_3(a: u8, b: u8, c: u8) -> bool {
    ||| a == 0xE1 && b == 0x9A && c == 0x80
    ||| a == 0xE2 && b == 0x80 && (0x80 <= c <= 0x8A || c == 0xA8 || c == 0xA9 || c == 0xAF)
    ||| a == 0xE2 && b == 0x81 && c == 0x9F
    ||| a == 0xE3 && b == 0x80 && c == 0x80
}

/// The number of bytes of the whitespace character that starts at position
/// `i` of `text`, or 0 if none starts there.
pub open spec fn whitespace_width(text: Seq<u8>, i: int) -> int {
    if !(0 <= i < text.len()) {
        0
    } else if is_whitespace_1(text[i]) {
        1
    } else if i + 1 < text.len() && is_whitespace_2(text[i], text[i + 1]) {
        2
    } else if i + 2 < text.len() && is_whitespace_3(text[i], text[i + 1], text[i + 2]) {
        3
    } else {
        0
    }
}

/// Whether the character with the code `scalar` is whitespace: U+0009 to
/// U+000D, U+0020, U+0085, U+00A0, U+1680, U+2000 to U+200A, U+2028,
/// U+2029, U+202F, U+205F and U+3000 are.
pub open spec fn is_white_space(scalar: u32) -> bool {
    ||| 0x09 <= scalar <= 0x0D
    ||| scalar == 0x20
    ||| scalar == 0x85
    ||| scalar == 0xA0
    ||| scalar == 0x1680
    ||| 0x2000 <= scalar <= 0x200A
    ||| scalar == 0x2028
    ||| scalar == 0x2029
    ||| scalar == 0x202F
    ||| scalar == 0x205F
    ||| scalar == 0x3000
}

/// Where a character starts in a text, whitespace starts exactly if that
/// character is whitespace, and it is as wide as the character's encoding.
pub proof fn lemma_whitespace_is_white_space(text: Seq<u8>, i: int)
    requires
        0 <= i < text.len(),
        valid_first_scalar(text.skip(i)),
    ensures
        whitespace_width(text, i) == if is_white_space(decode_first_scalar(text.skip(i))) {
            length_of_first_scalar(text.skip(i))
        } else {
            0
        },
{
    let rest = text.skip(i);
    let a = rest[0];
    assert(a == text[i]);
    let scalar = decode_first_scalar(rest);
    if a <= 0x7F {
        assert((a & 0x7F) as u32 == a as u32) by (bit_vector)
            requires
                a <= 0x7F,
        ;
    } else if 0xC0 <= a <= 0xDF {
        let b = rest[1];
        assert(b == text[i + 1]);
        assert({
            let d = (((a & 0x1F) as u32) << 6) | ((b & 0x3F) as u32);
            d <= 0x7FF && (d == 0x85 <==> a == 0xC2 && b == 0x85) && (d == 0xA0 <==> a == 0xC2
                && b == 0xA0)
        }) by (bit_vector)
            requires
                0xC0 <= a <= 0xDF,
                0x80 <= b <= 0xBF,
        ;
    } else if 0xE0 <= a <= 0xEF {
        let b = rest[1];
        let c = rest[2];
        assert(b == text[i + 1]);
        assert(c == text[i + 2]);
        assert({
            let d = (((a & 0x0F) as u32) << 12) | (((b & 0x3F) as u32) << 6) | ((c & 0x3F) as u32);
            &&& (d == 0x1680 <==> a == 0xE1 && b == 0x9A && c == 0x80)
            &&& (0x2000 <= d <= 0x200A <==> a == 0xE2 && b == 0x80 && 0x80 <= c <= 0x8A)
            &&& (d == 0x2028 <==> a == 0xE2 && b == 0x80 && c == 0xA8)
            &&& (d == 0x2029 <==> a == 0xE2 && b == 0x80 && c == 0xA9)
            &&& (d == 0x202F <==> a == 0xE2 && b == 0x80 && c == 0xAF)
            &&& (d == 0x205F <==> a == 0xE2 && b == 0x81 && c == 0x9F)
            &&& (d == 0x3000 <==> a == 0xE3 && b == 0x80 && c == 0x80)
        }) by (bit_vector)
            requires
                0xE0 <= a <= 0xEF,
                0x80 <= b <= 0xBF,
                0x80 <= c <= 0xBF,
        ;
    } else {
    }
}

/// The first position at or after `from` at which no whitespace starts: the
/// start of the next word, or the end of `text`.
pub open spec fn word_start(text: Seq<u8>, from: int) -> int
    decreases text.len() - from,
{
    if 0 <= from < text.len() && whitespace_width(text, from) > 0 {
        word_start(text, from + whitespace_width(text, from))
    } else {
        from
    }
}

/// The first position at or after `from` at which whitespace starts, or the
/// end of `text`: the end of a word that starts at `from`.
pub open spec fn word_end(text: Seq<u8>, from: int) -> int
    decreases text.len() - from,
{
    if 0 <= from < text.len() && whitespace_width(text, from) == 0 {
        word_end(text, from + 1)
    } else {
        from
    }
}

/// The first word of `text`; empty if it has none.
pub open spec fn first_word(text: Seq<u8>) -> Seq<u8> {
    let start = word_start(text, 0);
    text.subrange(start, word_end(text, start))
}

/// The second word of `text`; empty if it has none.
pub open spec fn second_word(text: Seq<u8>) -> Seq<u8> {
    let start = word_start(text, word_end(text, word_start(text, 0)));
    text.subrange(start, word_end(text, start))
}

/// The first position at or after `from` at which `pattern` occurs in `text`.
pub open spec fn find_from(text: Seq<u8>, pattern: Seq<u8>, from: int) -> Option<int>
    decreases text.len() - from + 1,
{
    if from < 0 || from + pattern.len() > text.len() {
        None
    } else if text.subrange(from, from + pattern.len()) == pattern {
        Some(from)
    } else {
        find_from(text, pattern, from + 1)
    }
}

/// The value of a hexadecimal digit, in either case.
pub open spec fn hex_value(b: u8) -> Option<u8> {
    if 0x30 <= b <= 0x39 {
        Some((b - 0x30) as u8)
    } else if 0x61 <= b <= 0x66 {
        Some((b - 0x61 + 10) as u8)
    } else if 0x41 <= b <= 0x46 {
        Some((b - 0x41 + 10) as u8)
    } else {
        None
    }
}

/// The lines that `help` shows. The sixteenth is a filler that is not shown.
pub open spec fn help_lines() -> Seq<Seq<char>> {
    seq![
        "Available commands:"@,
        "  help      - Show this message"@,
        "  clear     - Clear screen"@,
        "  memtest   - Test memory allocator"@,
        "  print     - Print text"@,
        "  version   - Show OS version"@,
        "  shutdown  - Shutdown (QEMU only)"@,
        "  reboot    - Reboot system"@,
        "  date      - Show current date"@,
        "  time      - Show current time"@,
        "  uptime    - Show uptime"@,
        "  bgcolor   - Change background color (0-F)"@,
        "  cpuinfo   - Show CPU information"@,
        "  meminfo   - Show memory usage"@,
        "  sysinfo   - Show system information"@,
        ""@,
    ]
}

/// What `print` hands back for the text behind the command: up to 255 bytes
/// of it, in a buffer of 256 bytes that is zero behind them.
pub open spec fn print_outcome(text: Seq<u8>) -> ShellOutcome {
    let len = if text.len() < LINE_CAPACITY {
        text.len()
    } else {
        LINE_CAPACITY as nat
    };
    if len > 0 {
        ShellOutcome::Print(
            Seq::new(256, |i: int| if i < len { text[i] } else { 0u8 }),
            len as usize,
        )
    } else {
        ShellOutcome::Output("Usage: print <text>"@)
    }
}

/// The text that a line is read as: the line itself if it is valid UTF-8,
/// and nothing otherwise.
pub open spec fn command_text(line: Seq<u8>) -> Seq<u8> {
    if valid_utf8(line) {
        line
    } else {
        Seq::empty()
    }
}

/// Whether the line asks for a background color that is no hexadecimal digit.
/// Such a line is answered with a complaint and stays in the shell.
pub open spec fn rejects_color(line: Seq<u8>) -> bool {
    let text = command_text(line);
    &&& first_word(text) == ascii_bytes("bgcolor"@)
    &&& second_word(text).len() > 0
    &&& hex_value(second_word(text)[0]) is None
}

/// What executing `line` gives, `elapsed` timer ticks after boot.
///
/// The first word is the command. `bgcolor` takes the first character of the
/// second word as a hexadecimal digit; `print` repeats everything behind the
/// first `print ` and a single space on the line. A line without a word gives
/// nothing. Anything else is an unknown command.
pub open spec fn execute_outcome(line: Seq<u8>, elapsed: u64) -> ShellOutcome {
    let text = command_text(line);
    let command = first_word(text);
    let argument = second_word(text);
    if command == ascii_bytes("help"@) {
        ShellOutcome::MultiOutput(help_lines(), 15)
    } else if command == ascii_bytes("clear"@) {
        ShellOutcome::Clear
    } else if command == ascii_bytes("memtest"@) {
        ShellOutcome::MemInfo
    } else if command == ascii_bytes("version"@) {
        ShellOutcome::Output("AerogelOS v0.1.0 - Polling Mode"@)
    } else if command == ascii_bytes("shutdown"@) {
        ShellOutcome::Shutdown
    } else if command == ascii_bytes("reboot"@) {
        ShellOutcome::Reboot
    } else if command == ascii_bytes("date"@) {
        ShellOutcome::DateTime
    } else if command == ascii_bytes("time"@) {
        ShellOutcome::DateTime
    } else if command == ascii_bytes("uptime"@) {
        ShellOutcome::Uptime(elapsed)
    } else if command == ascii_bytes("cpuinfo"@) {
        ShellOutcome::CpuInfo
    } else if command == ascii_bytes("meminfo"@) {
        ShellOutcome::MemInfo
    } else if command == ascii_bytes("sysinfo"@) {
        ShellOutcome::SysInfo
    } else if command == ascii_bytes("bgcolor"@) && argument.len() > 0 {
        match hex_value(argument[0]) {
            Some(color) => ShellOutcome::BgColor(color),
            None => ShellOutcome::Output("Invalid color! Use 0-F"@),
        }
    } else if command == ascii_bytes("print"@) && argument.len() > 0 {
        match find_from(text, ascii_bytes("print "@), 0) {
            Some(at) => print_outcome(text.skip(at + 6)),
            None => ShellOutcome::Output("Usage: print <text>"@),
        }
    } else if command == ascii_bytes("print"@) {
        ShellOutcome::Output("Usage: print <text>"@)
    } else if command.len() == 0 {
        ShellOutcome::Empty
    } else {
        ShellOutcome::Output("Unknown command. Type 'help' for commands."@)
    }
}

/// The timer ticks from `boot_time` to `current_ticks` on a tick counter that
/// wraps around.
pub open spec fn elapsed_ticks(current_ticks: u64, boot_time: u64) -> u64 {
    if current_ticks >= boot_time {
        (current_ticks - boot_time) as u64
    } else {
        (current_ticks + 0x1_0000_0000_0000_0000 - boot_time) as u64
    }
}

/// The width of the whitespace character that starts at `text[i]`.
fn whitespace_len(text: &[u8], i: usize) -> (width: usize)
    requires
        i < text@.len(),
    ensures
        width == whitespace_width(text@, i as int),
        width <= 3,
        i + width <= text@.len(),
{
    let len: usize = text.len();
    let a: u8 = text[i];
    if a == 0x20 || (0x09 <= a && a <= 0x0D) {
        return 1;
    }
    if len - i >= 2 {
        let b: u8 = text[i + 1];
        if a == 0xC2 && (b == 0x85 || b == 0xA0) {
            return 2;
        }
        if len - i >= 3 {
            let c: u8 = text[i + 2];
            if (a == 0xE1 && b == 0x9A && c == 0x80) || (a == 0xE2 && b == 0x80 && ((0x80 <= c
                && c <= 0x8A) || c == 0xA8 || c == 0xA9 || c == 0xAF)) || (a == 0xE2 && b == 0x81
                && c == 0x9F) || (a == 0xE3 && b == 0x80 && c == 0x80) {
                return 3;
            }
        }
    }
    0
}

/// Skips the whitespace that starts at `from`.
fn skip_whitespace(text: &[u8], from: usize) -> (start: usize)
    requires
        from <= text@.len(),
    ensures
        start == word_start(text@, from as int),
        from <= start <= text@.len(),
{
    let len: usize = text.len();
    let mut at: usize = from;
    while at < len
        invariant
            from <= at <= len,
            len == text@.len(),
            word_start(text@, from as int) == word_start(text@, at as int),
        decreases len - at,
    {
        let width = whitespace_len(text, at);
        if width == 0 {
            return at;
        }
        at = at + width;
    }
    at
}

/// Runs to the end of the word that starts at `from`.
fn scan_word(text: &[u8], from: usize) -> (end: usize)
    requires
        from <= text@.len(),
    ensures
        end == word_end(text@, from as int),
        from <= end <= text@.len(),
{
    let len: usize = text.len();
    let mut at: usize = from;
    while at < len
        invariant
            from <= at <= len,
            len == text@.len(),
            word_end(text@, from as int) == word_end(text@, at as int),
        decreases len - at,
    {
        let width = whitespace_len(text, at);
        if width != 0 {
            return at;
        }
        at = at + 1;
    }
    at
}

/// Whether the bytes of `text` from `start` to `end` spell the ASCII word
/// `word`.
fn spells(text: &[u8], start: usize, end: usize, word: &str) -> (same: bool)
    requires
        start <= end <= text@.len(),
        word.is_ascii(),
    ensures
        same == (text@.subrange(start as int, end as int) == ascii_bytes(word@)),
{
    broadcast use vstd::string::is_ascii_spec_bytes;

    let letters = word.as_bytes();
    assert(letters@ =~= ascii_bytes(word@));
    if letters.len() != end - start {
        return false;
    }
    let ghost part = text@.subrange(start as int, end as int);
    let mut i: usize = 0;
    while i < letters.len()
        invariant
            i <= letters@.len(),
            letters@.len() == end - start,
            letters@ == ascii_bytes(word@),
            start <= end <= text@.len(),
            part == text@.subrange(start as int, end as int),
            forall|j: int| 0 <= j < i ==> part[j] == letters@[j],
        decreases letters@.len() - i,
    {
        if text[start + i] != letters[i] {
            assert(part[i as int] != letters@[i as int]);
            return false;
        }
        i = i + 1;
    }
    assert(part =~= letters@);
    true
}

/// The first position at which the ASCII text `pattern` occurs in `text`.
fn find(text: &[u8], pattern: &str) -> (found: Option<usize>)
    requires
        pattern.is_ascii(),
    ensures
        found is Some <==> find_from(text@, ascii_bytes(pattern@), 0) is Some,
        found matches Some(at) ==> find_from(text@, ascii_bytes(pattern@), 0) == Some(at as int),
        found matches Some(at) ==> at + pattern@.len() <= text@.len(),
{
    broadcast use vstd::string::is_ascii_spec_bytes;

    let len: usize = text.len();
    let letters = pattern.as_bytes();
    let width: usize = letters.len();
    assert(letters@ =~= ascii_bytes(pattern@));
    if width > len {
        return None;
    }
    if width == 0 {
        assert(text@.subrange(0, 0) =~= ascii_bytes(pattern@));
        return Some(0);
    }
    let mut at: usize = 0;
    while at <= len - width
        invariant
            at <= len - width + 1,
            0 < width <= len,
            len == text@.len(),
            width == ascii_bytes(pattern@).len(),
            pattern.is_ascii(),
            find_from(text@, ascii_bytes(pattern@), 0) == find_from(
                text@,
                ascii_bytes(pattern@),
                at as int,
            ),
        decreases len - width + 1 - at,
    {
        if spells(text, at, at + width, pattern) {
            return Some(at);
        }
        at = at + 1;
    }
    None
}

/// The value of the hexadecimal digit `b`.
fn hex_digit(b: u8) -> (value: Option<u8>)
    ensures
        value == hex_value(b),
{
    if 0x30 <= b && b <= 0x39 {
        Some(b - 0x30)
    } else if 0x61 <= b && b <= 0x66 {
        Some(b - 0x61 + 10)
    } else if 0x41 <= b && b <= 0x46 {
        Some(b - 0x41 + 10)
    } else {
        None
    }
}

/// The help screen.
fn help() -> (result: ShellResult)
    ensures
        result@ == ShellOutcome::MultiOutput(help_lines(), 15),
{
    let lines: [&'static str; 16] = [
        "Available commands:",
        "  help      - Show this message",
        "  clear     - Clear screen",
        "  memtest   - Test memory allocator",
        "  print     - Print text",
        "  version   - Show OS version",
        "  shutdown  - Shutdown (QEMU only)",
        "  reboot    - Reboot system",
        "  date      - Show current date",
        "  time      - Show current time",
        "  uptime    - Show uptime",
        "  bgcolor   - Change background color (0-F)",
        "  cpuinfo   - Show CPU information",
        "  meminfo   - Show memory usage",
        "  sysinfo   - Show system information",
        "",
    ];
    let result = ShellResult::MultiOutput(lines, 15);
    assert(Seq::new(16, |i: int| lines@[i]@) =~= help_lines());
    result
}

/// What `print` hands back for `text`, the part of the line behind the
/// command.
fn print(text: &[u8]) -> (result: ShellResult)
    ensures
        result@ == print_outcome(text@),
{
    let len: usize = if text.len() < LINE_CAPACITY {
        text.len()
    } else {
        LINE_CAPACITY
    };
    if len == 0 {
        return ShellResult::Output("Usage: print <text>");
    }
    let mut bytes: [u8; 256] = [0u8; 256];
    let mut i: usize = 0;
    while i < len
        invariant
            i <= len <= 255,
            len <= text@.len(),
            forall|j: int| 0 <= j < i ==> bytes@[j] == text@[j],
            forall|j: int| i <= j < 256 ==> bytes@[j] == 0,
        decreases len - i,
    {
        bytes[i] = text[i];
        i = i + 1;
    }
    assert(bytes@ =~= Seq::new(256, |i: int| if i < len { text@[i] } else { 0u8 }));
    ShellResult::Print(bytes, len)
}

/// No other command is spelled like `bgcolor`.
proof fn lemma_bgcolor_is_distinct()
    ensures
        ascii_bytes("help"@) != ascii_bytes("bgcolor"@),
        ascii_bytes("clear"@) != ascii_bytes("bgcolor"@),
        ascii_bytes("memtest"@) != ascii_bytes("bgcolor"@),
        ascii_bytes("version"@) != ascii_bytes("bgcolor"@),
        ascii_bytes("shutdown"@) != ascii_bytes("bgcolor"@),
        ascii_bytes("reboot"@) != ascii_bytes("bgcolor"@),
        ascii_bytes("date"@) != ascii_bytes("bgcolor"@),
        ascii_bytes("time"@) != ascii_bytes("bgcolor"@),
        ascii_bytes("uptime"@) != ascii_bytes("bgcolor"@),
        ascii_bytes("cpuinfo"@) != ascii_bytes("bgcolor"@),
        ascii_bytes("meminfo"@) != ascii_bytes("bgcolor"@),
        ascii_bytes("sysinfo"@) != ascii_bytes("bgcolor"@),
        ascii_bytes("print"@) != ascii_bytes("bgcolor"@),
        ascii_bytes("bgcolor"@).len() == 7,
{
    reveal_strlit("help");
    reveal_strlit("clear");
    reveal_strlit("memtest");
    reveal_strlit("version");
    reveal_strlit("shutdown");
    reveal_strlit("reboot");
    reveal_strlit("date");
    reveal_strlit("time");
    reveal_strlit("uptime");
    reveal_strlit("cpuinfo");
    reveal_strlit("meminfo");
    reveal_strlit("sysinfo");
    reveal_strlit("bgcolor");
    reveal_strlit("print");
    let b = ascii_bytes("bgcolor"@);
    assert(b.len() == 7 && b[0] == 98);
    assert(ascii_bytes("help"@).len() == 4);
    assert(ascii_bytes("clear"@).len() == 5);
    assert(ascii_bytes("memtest"@)[0] == 109);
    assert(ascii_bytes("version"@)[0] == 118);
    assert(ascii_bytes("shutdown"@).len() == 8);
    assert(ascii_bytes("reboot"@).len() == 6);
    assert(ascii_bytes("date"@).len() == 4);
    assert(ascii_bytes("time"@).len() == 4);
    assert(ascii_bytes("uptime"@).len() == 6);
    assert(ascii_bytes("cpuinfo"@)[0] == 99);
    assert(ascii_bytes("meminfo"@)[0] == 109);
    assert(ascii_bytes("sysinfo"@)[0] == 115);
    assert(ascii_bytes("print"@).len() == 5);
}

/// Reads `line` as a command, `elapsed` timer ticks after boot. The second
/// part of the result says whether the line is used up.
fn interpret(line: &[u8], elapsed: u64) -> (result: (ShellResult, bool))
    ensures
        result.0@ == execute_outcome(line@, elapsed),
        result.1 == !rejects_color(line@),
{
    proof {
        reveal_strlit("help");
        reveal_strlit("clear");
        reveal_strlit("memtest");
        reveal_strlit("version");
        reveal_strlit("shutdown");
        reveal_strlit("reboot");
        reveal_strlit("date");
        reveal_strlit("time");
        reveal_strlit("uptime");
        reveal_strlit("cpuinfo");
        reveal_strlit("meminfo");
        reveal_strlit("sysinfo");
        reveal_strlit("bgcolor");
        reveal_strlit("print");
        reveal_strlit("print ");
        lemma_bgcolor_is_distinct();
    }
    let text: &[u8] = if utf8_text(line).is_some() {
        line
    } else {
        slice_subrange(line, 0, 0)
    };
    assert(text@ =~= command_text(line@));
    let start: usize = skip_whitespace(text, 0);
    let end: usize = scan_word(text, start);
    let next: usize = skip_whitespace(text, end);
    let next_end: usize = scan_word(text, next);
    let has_argument: bool = next_end > next;
    assert(first_word(text@) == text@.subrange(start as int, end as int));
    assert(second_word(text@) == text@.subrange(next as int, next_end as int));
    if spells(text, start, end, "help") {
        (help(), true)
    } else if spells(text, start, end, "clear") {
        (ShellResult::Clear, true)
    } else if spells(text, start, end, "memtest") {
        (ShellResult::MemInfo, true)
    } else if spells(text, start, end, "version") {
        (ShellResult::Output("AerogelOS v0.1.0 - Polling Mode"), true)
    } else if spells(text, start, end, "shutdown") {
        (ShellResult::Shutdown, true)
    } else if spells(text, start, end, "reboot") {
        (ShellResult::Reboot, true)
    } else if spells(text, start, end, "date") {
        (ShellResult::DateTime, true)
    } else if spells(text, start, end, "time") {
        (ShellResult::DateTime, true)
    } else if spells(text, start, end, "uptime") {
        (ShellResult::Uptime(elapsed), true)
    } else if spells(text, start, end, "cpuinfo") {
        (ShellResult::CpuInfo, true)
    } else if spells(text, start, end, "meminfo") {
        (ShellResult::MemInfo, true)
    } else if spells(text, start, end, "sysinfo") {
        (ShellResult::SysInfo, true)
    } else if spells(text, start, end, "bgcolor") {
        if has_argument {
            match hex_digit(text[next]) {
                Some(color) => (ShellResult::BgColor(color), true),
                None => (ShellResult::Output("Invalid color! Use 0-F"), false),
            }
        } else {
            (ShellResult::Output("Unknown command. Type 'help' for commands."), true)
        }
    } else if spells(text, start, end, "print") {
        if has_argument {
            match find(text, "print ") {
                Some(at) => {
                    let len: usize = text.len();
                    let behind = slice_subrange(text, at + 6, len);
                    assert(behind@ =~= text@.skip(at + 6));
                    (print(behind), true)
                },
                None => (ShellResult::Output("Usage: print <text>"), true),
            }
        } else {
            (ShellResult::Output("Usage: print <text>"), true)
        }
    } else if end == start {
        (ShellResult::Empty, true)
    } else {
        (ShellResult::Output("Unknown command. Type 'help' for commands."), true)
    }
}

impl View for Shell {
    type V = ShellView;

    closed spec fn view(&self) -> ShellView {
        ShellView { line: self.buffer@.take(self.cursor as int), boot_time: self.boot_time }
    }
}

impl Shell {
    #[verifier::type_invariant]
    spec fn well_formed(&self) -> bool {
        self.cursor <= LINE_CAPACITY
    }

    /// A shell with an empty line, booted at tick 0.
    pub fn new() -> (shell: Self)
        ensures
            shell@ == (ShellView { line: Seq::empty(), boot_time: 0 }),
    {
        let shell = Shell { buffer: [0u8; 256], cursor: 0, boot_time: 0 };
        assert(shell@.line =~= Seq::empty());
        shell
    }

    /// Records the tick count at boot.
    pub fn set_boot_time(&mut self, ticks: u64)
        ensures
            final(self)@ == (ShellView { boot_time: ticks, ..old(self)@ }),
    {
        proof {
            use_type_invariant(&*self);
        }
        self.boot_time = ticks;
    }

    /// Appends the low byte of `ch` to the line. A full line stays as it is.
    pub fn add_char(&mut self, ch: char)
        ensures
            final(self)@ == (ShellView {
                line: if old(self)@.line.len() < LINE_CAPACITY {
                    old(self)@.line.push(ch as u8)
                } else {
                    old(self)@.line
                },
                ..old(self)@
            }),
    {
        proof {
            use_type_invariant(&*self);
        }
        if self.cursor < LINE_CAPACITY {
            let ghost before = self@.line;
            self.buffer[self.cursor] = #[verifier::truncate]
            (ch as u8);
            self.cursor = self.cursor + 1;
            assert(self@.line =~= before.push(ch as u8));
        }
    }

    /// Removes the last byte of the line, if there is one.
    pub fn backspace(&mut self)
        ensures
            final(self)@ == (ShellView {
                line: if old(self)@.line.len() > 0 {
                    old(self)@.line.drop_last()
                } else {
                    old(self)@.line
                },
                ..old(self)@
            }),
    {
        proof {
            use_type_invariant(&*self);
        }
        if self.cursor > 0 {
            let ghost before = self@.line;
            self.cursor = self.cursor - 1;
            self.buffer[self.cursor] = 0;
            assert(self@.line =~= before.drop_last());
        }
    }

    /// Empties the line.
    pub fn clear(&mut self)
        ensures
            final(self)@ == (ShellView { line: Seq::empty(), ..old(self)@ }),
    {
        proof {
            use_type_invariant(&*self);
        }
        self.buffer = [0u8; 256];
        self.cursor = 0;
        assert(self@.line =~= Seq::empty());
    }

    /// The line as text. A line that is not valid UTF-8 reads as empty.
    pub fn get_buffer(&self) -> (text: &str)
        ensures
            text.spec_bytes() == command_text(self@.line),
    {
        proof {
            use_type_invariant(self);
            reveal_strlit("");
        }
        let line = slice_subrange(self.buffer.as_slice(), 0, self.cursor);
        assert(line@ =~= self@.line);
        match utf8_text(line) {
            Some(text) => text,
            None => {
                let text = "";
                assert(text.spec_bytes() =~= Seq::empty()) by {
                    reveal_with_fuel(vstd::utf8::encode_utf8, 1);
                }
                text
            },
        }
    }

    /// Executes the line at tick `current_ticks` and empties it.
    ///
    /// The one line that is not emptied is a `bgcolor` with a color that is no
    /// hexadecimal digit. `uptime` reports the ticks since the recorded boot
    /// time, on a tick counter that wraps around.
    pub fn execute(&mut self, current_ticks: u64) -> (result: ShellResult)
        ensures
            result@ == execute_outcome(
                old(self)@.line,
                elapsed_ticks(current_ticks, old(self)@.boot_time),
            ),
            final(self)@ == (ShellView {
                line: if rejects_color(old(self)@.line) {
                    old(self)@.line
                } else {
                    Seq::empty()
                },
                ..old(self)@
            }),
    {
        proof {
            use_type_invariant(&*self);
        }
        let elapsed: u64 = current_ticks.wrapping_sub(self.boot_time);
        let line = slice_subrange(self.buffer.as_slice(), 0, self.cursor);
        assert(line@ =~= self@.line);
        let (result, used_up) = interpret(line, elapsed);
        if used_up {
            self.clear();
        }
        result
    }
}

} // verus!
