//! Small text helpers of the console: decimal numbers, the uptime line and
//! the keyboard layout.

use vstd::prelude::*;
use vstd::slice::slice_subrange;
use vstd::string::StringSliceAdditionalSpecFns;
use vstd::utf8::valid_utf8;

verus! {

/// The decimal digits of `n` without the single `0` that stands for zero:
/// nothing for zero itself.
pub open spec fn significant_digits(n: nat) -> Seq<u8>
    decreases n,
{
    if n == 0 {
        Seq::empty()
    } else {
        significant_digits(n / 10).push((48 + n % 10) as u8)
    }
}

/// `n` in decimal, as ASCII digits, most significant first.
pub open spec fn decimal_digits(n: nat) -> Seq<u8> {
    if n == 0 {
        seq![48u8]
    } else {
        significant_digits(n)
    }
}

/// Ten to the power of `k`.
pub open spec fn pow10(k: nat) -> nat
    decreases k,
{
    if k == 0 {
        1
    } else {
        10 * pow10((k - 1) as nat)
    }
}

proof fn lemma_pow10_grows(k: nat)
    requires
        k >= 20,
    ensures
        pow10(k) > u64::MAX,
    decreases k,
{
    if k == 20 {
        reveal_with_fuel(pow10, 21);
    } else {
        lemma_pow10_grows((k - 1) as nat);
    }
}

/// A number below ten to the `k` has at most `k` digits.
pub proof fn lemma_digit_count(n: nat, k: nat)
    requires
        n < pow10(k),
    ensures
        significant_digits(n).len() <= k,
        decimal_digits(n).len() <= if k == 0 { 1 } else { k },
    decreases n,
{
    if n != 0 {
        if k == 0 {
        } else {
            lemma_digit_count(n / 10, (k - 1) as nat);
        }
    }
}

/// Every `u64` has at most twenty decimal digits, all of them ASCII digits.
pub proof fn lemma_decimal_digits(n: nat)
    ensures
        1 <= decimal_digits(n).len(),
        n <= u64::MAX ==> decimal_digits(n).len() <= 20,
        forall|i: int| 0 <= i < decimal_digits(n).len() ==> 48 <= #[trigger] decimal_digits(n)[i] <= 57,
{
    if n <= u64::MAX {
        lemma_pow10_grows(20);
        lemma_digit_count(n, 20);
    }
    lemma_significant_digits_ascii(n);
}

proof fn lemma_significant_digits_ascii(n: nat)
    ensures
        n > 0 ==> significant_digits(n).len() >= 1,
        forall|i: int|
            0 <= i < significant_digits(n).len() ==> 48 <= #[trigger] significant_digits(n)[i]
                <= 57,
    decreases n,
{
    if n != 0 {
        lemma_significant_digits_ascii(n / 10);
        let shorter = significant_digits(n / 10);
        assert forall|i: int| 0 <= i < significant_digits(n).len() implies 48
            <= #[trigger] significant_digits(n)[i] <= 57 by {
            if i < shorter.len() {
                assert(significant_digits(n)[i] == shorter[i]);
            }
        }
    }
}

/// Writes `num` in decimal at the start of `buf` and returns how many bytes
/// it wrote. The rest of `buf` stays as it was.
pub fn write_num(buf: &mut [u8], num: u64) -> (count: usize)
    requires
        old(buf)@.len() >= decimal_digits(num as nat).len(),
    ensures
        count == decimal_digits(num as nat).len(),
        final(buf)@ == decimal_digits(num as nat) + old(buf)@.skip(count as int),
{
    if num == 0 {
        buf[0] = 48;
        assert(buf@ =~= decimal_digits(0) + old(buf)@.skip(1));
        return 1;
    }
    let mut digits: [u8; 20] = [0u8; 20];
    let mut count: usize = 0;
    let mut rest: u64 = num;
    let ghost mut scale: nat = 1;
    while rest > 0
        invariant
            count <= 20,
            scale == pow10(count as nat),
            rest * scale <= num,
            significant_digits(num as nat) == significant_digits(rest as nat) + Seq::new(
                count as nat,
                |i: int| digits@[count - 1 - i],
            ),
        decreases rest,
    {
        proof {
            if count >= 20 {
                lemma_pow10_grows(count as nat);
                assert(rest * scale >= scale) by (nonlinear_arith)
                    requires
                        rest >= 1,
                        scale >= 0,
                ;
            }
        }
        let ghost before = digits@;
        let ghost before_rest = rest;
        digits[count] = (rest % 10) as u8 + 48;
        rest = rest / 10;
        count = count + 1;
        proof {
            assert((before_rest / 10) * (scale * 10) <= before_rest * scale) by (nonlinear_arith)
                requires
                    scale >= 0,
                    before_rest >= 0,
            ;
            scale = scale * 10;
            assert(significant_digits(before_rest as nat) == significant_digits(rest as nat).push(
                (48 + before_rest % 10) as u8,
            ));
            assert(significant_digits(rest as nat).push((48 + before_rest % 10) as u8) + Seq::new(
                (count - 1) as nat,
                |i: int| before[count - 2 - i],
            ) =~= significant_digits(rest as nat) + Seq::new(
                count as nat,
                |i: int| digits@[count - 1 - i],
            ));
        }
    }
    assert(significant_digits(num as nat) =~= Seq::new(
        count as nat,
        |i: int| digits@[count - 1 - i],
    ));
    let mut i: usize = 0;
    while i < count
        invariant
            i <= count <= 20,
            count == decimal_digits(num as nat).len(),
            count <= old(buf)@.len(),
            buf@.len() == old(buf)@.len(),
            decimal_digits(num as nat) == Seq::new(count as nat, |j: int| digits@[count - 1 - j]),
            forall|j: int| 0 <= j < i ==> buf@[j] == decimal_digits(num as nat)[j],
            forall|j: int| i <= j < buf@.len() ==> buf@[j] == old(buf)@[j],
        decreases count - i,
    {
        buf[i] = digits[count - 1 - i];
        i = i + 1;
    }
    assert(buf@ =~= decimal_digits(num as nat) + old(buf)@.skip(count as int));
    count
}

/// The bytes of a text that holds ASCII characters only.
pub open spec fn ascii_bytes(text: Seq<char>) -> Seq<u8> {
    Seq::new(text.len(), |i: int| text[i] as u8)
}

/// The uptime line: hours only when there are any, minutes when there are
/// hours or minutes, seconds always, as in `Uptime: 1h 2m 3s`.
pub open spec fn uptime_text(hours: u64, minutes: u64, seconds: u64) -> Seq<u8> {
    ascii_bytes("Uptime: "@) + (if hours > 0 {
        decimal_digits(hours as nat) + ascii_bytes("h "@)
    } else {
        Seq::empty()
    }) + (if minutes > 0 || hours > 0 {
        decimal_digits(minutes as nat) + ascii_bytes("m "@)
    } else {
        Seq::empty()
    }) + decimal_digits(seconds as nat) + ascii_bytes("s"@)
}

/// An uptime line takes at least 10 and at most 73 bytes, all of them ASCII.
pub proof fn lemma_uptime_text(hours: u64, minutes: u64, seconds: u64)
    ensures
        10 <= uptime_text(hours, minutes, seconds).len() <= 73,
        forall|i: int|
            0 <= i < uptime_text(hours, minutes, seconds).len() ==> #[trigger] uptime_text(
                hours,
                minutes,
                seconds,
            )[i] < 128,
{
    reveal_strlit("Uptime: ");
    reveal_strlit("h ");
    reveal_strlit("m ");
    reveal_strlit("s");
    lemma_decimal_digits(hours as nat);
    lemma_decimal_digits(minutes as nat);
    lemma_decimal_digits(seconds as nat);
}

/// `core::str::from_utf8`: the bytes as a string slice if they are valid
/// UTF-8, and nothing otherwise. The string slice is made of the same bytes.
#[verifier::external_body]
pub(crate) fn utf8_text(bytes: &[u8]) -> (text: Option<&str>)
    ensures
        text is Some <==> valid_utf8(bytes@),
        text matches Some(t) ==> t.spec_bytes() == bytes@,
{
    core::str::from_utf8(bytes).ok()
}

/// Bytes below 128 are valid UTF-8, one character each.
pub proof fn lemma_ascii_is_utf8(bytes: Seq<u8>)
    requires
        forall|i: int| 0 <= i < bytes.len() ==> #[trigger] bytes[i] < 128,
    ensures
        valid_utf8(bytes),
{
    assert(bytes.subrange(0, 0) =~= Seq::<u8>::empty());
    assert(vstd::utf8::partial_valid_utf8(bytes, 0));
    assert forall|i: int| 0 <= 0 <= i < bytes.len() <= bytes.len() implies #[trigger]
        vstd::utf8::is_leading_byte_width_1(bytes[i]) by {
        assert(bytes[i] < 128);
    }
    vstd::utf8::partial_valid_utf8_extend_ascii_block(bytes, 0, bytes.len() as int);
    assert(bytes.subrange(0, bytes.len() as int) =~= bytes);
}

/// Copies the ASCII text `text` into `buf` from position `pos` on and returns
/// the position behind it.
fn put_ascii(buf: &mut [u8], pos: usize, text: &str) -> (end: usize)
    requires
        text.is_ascii(),
        pos + text@.len() <= old(buf)@.len(),
    ensures
        end == pos + text@.len(),
        final(buf)@ == old(buf)@.take(pos as int) + ascii_bytes(text@) + old(buf)@.skip(end as int),
{
    broadcast use vstd::string::is_ascii_spec_bytes;

    let limit: usize = buf.len();
    let bytes = text.as_bytes();
    assert(bytes@ =~= ascii_bytes(text@));
    let mut i: usize = 0;
    while i < bytes.len()
        invariant
            i <= bytes@.len(),
            bytes@ == ascii_bytes(text@),
            pos + bytes@.len() <= buf@.len(),
            buf@.len() == old(buf)@.len(),
            buf@.len() == limit,
            forall|j: int| 0 <= j < pos ==> buf@[j] == old(buf)@[j],
            forall|j: int| 0 <= j < i ==> buf@[pos + j] == bytes@[j],
            forall|j: int| pos + i <= j < buf@.len() ==> buf@[j] == old(buf)@[j],
        decreases bytes@.len() - i,
    {
        buf[pos + i] = bytes[i];
        i = i + 1;
    }
    assert(buf@ =~= old(buf)@.take(pos as int) + ascii_bytes(text@) + old(buf)@.skip(
        pos + text@.len(),
    ));
    pos + i
}

/// Writes `num` in decimal into `buf` from position `pos` on and returns the
/// position behind it.
fn put_num(buf: &mut [u8], pos: usize, num: u64) -> (end: usize)
    requires
        pos + decimal_digits(num as nat).len() <= old(buf)@.len(),
    ensures
        end == pos + decimal_digits(num as nat).len(),
        final(buf)@ == old(buf)@.take(pos as int) + decimal_digits(num as nat) + old(buf)@.skip(
            end as int,
        ),
{
    let limit: usize = buf.len();
    let (head, tail) = buf.split_at_mut(pos);
    let count = write_num(tail, num);
    proof {
        lemma_decimal_digits(num as nat);
    }
    assert(buf@ =~= old(buf)@.take(pos as int) + decimal_digits(num as nat) + old(buf)@.skip(
        pos + count,
    ));
    pos + count
}

/// Writing `piece` behind the `written` bytes of a buffer keeps the rest of the
/// buffer as it was.
proof fn lemma_written_grows(start: Seq<u8>, now: Seq<u8>, written: Seq<u8>, piece: Seq<u8>)
    requires
        written.len() + piece.len() <= start.len(),
        now == written + start.skip(written.len() as int),
    ensures
        now.take(written.len() as int) + piece + now.skip((written.len() + piece.len()) as int)
            == (written + piece) + start.skip((written.len() + piece.len()) as int),
{
    let end = (written.len() + piece.len()) as int;
    assert(now.take(written.len() as int) =~= written);
    assert(now.skip(end) =~= start.skip(end));
    assert(written + piece + start.skip(end) =~= (written + piece) + start.skip(end));
}

/// Writes the uptime line for the given hours, minutes and seconds at the
/// start of `buf` and returns it as text.
pub fn format_uptime<'a>(hours: u64, minutes: u64, seconds: u64, buf: &'a mut [u8]) -> (text:
    &'a str)
    requires
        old(buf)@.len() >= uptime_text(hours, minutes, seconds).len(),
    ensures
        text.spec_bytes() == uptime_text(hours, minutes, seconds),
        final(buf)@ == uptime_text(hours, minutes, seconds) + old(buf)@.skip(
            uptime_text(hours, minutes, seconds).len() as int,
        ),
{
    proof {
        reveal_strlit("Uptime: ");
        reveal_strlit("h ");
        reveal_strlit("m ");
        reveal_strlit("s");
        lemma_decimal_digits(hours as nat);
        lemma_decimal_digits(minutes as nat);
        lemma_decimal_digits(seconds as nat);
    }
    let ghost start = buf@;
    let ghost mut line: Seq<u8> = Seq::empty();
    assert(buf@ =~= line + start.skip(0));
    proof {
        lemma_written_grows(start, buf@, line, ascii_bytes("Uptime: "@));
        line = line + ascii_bytes("Uptime: "@);
    }
    let mut pos: usize = put_ascii(buf, 0, "Uptime: ");
    if hours > 0 {
        proof {
            lemma_written_grows(start, buf@, line, decimal_digits(hours as nat));
            line = line + decimal_digits(hours as nat);
        }
        pos = put_num(buf, pos, hours);
        proof {
            lemma_written_grows(start, buf@, line, ascii_bytes("h "@));
            line = line + ascii_bytes("h "@);
        }
        pos = put_ascii(buf, pos, "h ");
    }
    if minutes > 0 || hours > 0 {
        proof {
            lemma_written_grows(start, buf@, line, decimal_digits(minutes as nat));
            line = line + decimal_digits(minutes as nat);
        }
        pos = put_num(buf, pos, minutes);
        proof {
            lemma_written_grows(start, buf@, line, ascii_bytes("m "@));
            line = line + ascii_bytes("m "@);
        }
        pos = put_ascii(buf, pos, "m ");
    }
    proof {
        lemma_written_grows(start, buf@, line, decimal_digits(seconds as nat));
        line = line + decimal_digits(seconds as nat);
    }
    pos = put_num(buf, pos, seconds);
    proof {
        lemma_written_grows(start, buf@, line, ascii_bytes("s"@));
        line = line + ascii_bytes("s"@);
    }
    pos = put_ascii(buf, pos, "s");
    assert(line =~= uptime_text(hours, minutes, seconds));
    assert(buf@ == line + start.skip(pos as int));
    let written = slice_subrange(buf, 0, pos);
    assert(written@ =~= line);
    proof {
        lemma_ascii_is_utf8(written@);
    }
    match utf8_text(written) {
        Some(text) => text,
        None => "Uptime: N/A",
    }
}

/// The character of a key, by the scancode of its press, on the layout the
/// console understands: the digit row, the three letter rows, space, enter
/// and backspace. Other keys have none.
pub open spec fn scancode_char(scancode: u8) -> Option<char> {
    if 0x02 <= scancode <= 0x0B {
        Some("1234567890"@[scancode - 0x02])
    } else if 0x10 <= scancode <= 0x19 {
        Some("qwertyuiop"@[scancode - 0x10])
    } else if 0x1E <= scancode <= 0x26 {
        Some("asdfghjkl"@[scancode - 0x1E])
    } else if 0x2C <= scancode <= 0x32 {
        Some("zxcvbnm"@[scancode - 0x2C])
    } else if scancode == 0x39 {
        Some(' ')
    } else if scancode == 0x1C {
        Some('\n')
    } else if scancode == 0x0E {
        Some('\u{8}')
    } else {
        None
    }
}

/// Decodes the scancode of a key press into the character it types, if the
/// key types one. Enter gives a line feed, backspace gives `'\u{8}'`.
pub fn scancode_to_char(scancode: u8) -> (ch: Option<char>)
    ensures
        ch == scancode_char(scancode),
{
    proof {
        reveal_strlit("1234567890");
        reveal_strlit("qwertyuiop");
        reveal_strlit("asdfghjkl");
        reveal_strlit("zxcvbnm");
    }
    match scancode {
        0x02 => Some('1'),
        0x03 => Some('2'),
        0x04 => Some('3'),
        0x05 => Some('4'),
        0x06 => Some('5'),
        0x07 => Some('6'),
        0x08 => Some('7'),
        0x09 => Some('8'),
        0x0A => Some('9'),
        0x0B => Some('0'),
        0x10 => Some('q'),
        0x11 => Some('w'),
        0x12 => Some('e'),
        0x13 => Some('r'),
        0x14 => Some('t'),
        0x15 => Some('y'),
        0x16 => Some('u'),
        0x17 => Some('i'),
        0x18 => Some('o'),
        0x19 => Some('p'),
        0x1E => Some('a'),
        0x1F => Some('s'),
        0x20 => Some('d'),
        0x21 => Some('f'),
        0x22 => Some('g'),
        0x23 => Some('h'),
        0x24 => Some('j'),
        0x25 => Some('k'),
        0x26 => Some('l'),
        0x2C => Some('z'),
        0x2D => Some('x'),
        0x2E => Some('c'),
        0x2F => Some('v'),
        0x30 => Some('b'),
        0x31 => Some('n'),
        0x32 => Some('m'),
        0x39 => Some(' '),
        0x1C => Some('\n'),
        0x0E => Some('\u{8}'),
        _ => None,
    }
}

/// The layout of the keys by scancode, for the scancodes below 58: the
/// character a key types, or nothing for a key that types none.
pub open spec fn ascii_layout() -> Seq<Option<char>> {
    seq![
        None, None, Some('1'), Some('2'), Some('3'), Some('4'),
        Some('5'), Some('6'), Some('7'), Some('8'), Some('9'), Some('0'),
        Some('-'), Some('='), None, None, Some('q'), Some('w'),
        Some('e'), Some('r'), Some('t'), Some('y'), Some('u'), Some('i'),
        Some('o'), Some('p'), Some('['), Some(']'), Some('\n'), None,
        Some('a'), Some('s'), Some('d'), Some('f'), Some('g'), Some('h'),
        Some('j'), Some('k'), Some('l'), Some(';'), Some('\''), Some('`'),
        None, Some('\\'), Some('z'), Some('x'), Some('c'), Some('v'),
        Some('b'), Some('n'), Some('m'), Some(','), Some('.'), Some('/'),
        None, Some('*'), None, Some(' '),
    ]
}

/// The character of the key with scancode `scancode` on the full layout,
/// which knows the punctuation keys as well. Scancodes from 58 on have none.
pub fn scancode_to_ascii(scancode: u8) -> (ch: Option<char>)
    ensures
        ch == if scancode < 58 {
            ascii_layout()[scancode as int]
        } else {
            None
        },
{
    let layout: [Option<char>; 58] = [
        None, None, Some('1'), Some('2'), Some('3'), Some('4'),
        Some('5'), Some('6'), Some('7'), Some('8'), Some('9'), Some('0'),
        Some('-'), Some('='), None, None, Some('q'), Some('w'),
        Some('e'), Some('r'), Some('t'), Some('y'), Some('u'), Some('i'),
        Some('o'), Some('p'), Some('['), Some(']'), Some('\n'), None,
        Some('a'), Some('s'), Some('d'), Some('f'), Some('g'), Some('h'),
        Some('j'), Some('k'), Some('l'), Some(';'), Some('\''), Some('`'),
        None, Some('\\'), Some('z'), Some('x'), Some('c'), Some('v'),
        Some('b'), Some('n'), Some('m'), Some(','), Some('.'), Some('/'),
        None, Some('*'), None, Some(' '),
    ];
    assert(layout@ =~= ascii_layout());
    if scancode < 58 {
        layout[scancode as usize]
    } else {
        None
    }
}

} // verus!
