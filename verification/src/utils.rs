//! The hex dump of a payload, as lines of text.
//!
//! A payload is shown sixteen bytes to a line. Each line holds a label, the
//! bytes as pairs of hexadecimal digits, and the bytes as characters where
//! they are printable:
//!
//! ```text
//! OUTGOING: 48 65 6C 6C 6F                                   |Hello|
//! ```
use vstd::prelude::*;
use crate::text::{chars_of, string_of};

verus! {

/// The number of bytes on one line.
pub const WIDTH: usize = 16;

/// The number of characters that the bytes of a full line take as
/// hexadecimal digits: two for each byte and a space between two bytes.
pub const HEX_WIDTH: usize = 47;

/// The hexadecimal digit for `n`, in upper case.
pub open spec fn hex_digit(n: int) -> char {
    if n == 0 {
        '0'
    } else if n == 1 {
        '1'
    } else if n == 2 {
        '2'
    } else if n == 3 {
        '3'
    } else if n == 4 {
        '4'
    } else if n == 5 {
        '5'
    } else if n == 6 {
        '6'
    } else if n == 7 {
        '7'
    } else if n == 8 {
        '8'
    } else if n == 9 {
        '9'
    } else if n == 10 {
        'A'
    } else if n == 11 {
        'B'
    } else if n == 12 {
        'C'
    } else if n == 13 {
        'D'
    } else if n == 14 {
        'E'
    } else {
        'F'
    }
}

/// The hexadecimal digits of the bytes of `chunk`, two for each byte, with a
/// space between two bytes.
pub open spec fn hex_column(chunk: Seq<u8>) -> Seq<char>
    decreases chunk.len(),
{
    if chunk.len() == 0 {
        Seq::empty()
    } else if chunk.len() == 1 {
        seq![hex_digit(chunk[0] as int / 16), hex_digit(chunk[0] as int % 16)]
    } else {
        hex_column(chunk.drop_last()) + seq![
            ' ',
            hex_digit(chunk.last() as int / 16),
            hex_digit(chunk.last() as int % 16),
        ]
    }
}

/// `text`, followed by as many spaces as it takes to reach `width`
/// characters; a longer text stays as it is.
pub open spec fn padded(text: Seq<char>, width: int) -> Seq<char> {
    if text.len() >= width {
        text
    } else {
        text + Seq::new((width - text.len()) as nat, |i: int| ' ')
    }
}

/// The character that shows the byte `b`: the byte itself where it is a
/// printable ASCII character, else a dot.
pub open spec fn shown(b: u8) -> char {
    if 0x20 <= b <= 0x7e {
        b as char
    } else {
        '.'
    }
}

/// The bytes of `chunk` as characters.
pub open spec fn ascii_column(chunk: Seq<u8>) -> Seq<char> {
    Seq::new(chunk.len(), |i: int| shown(chunk[i]))
}

/// The line that shows `chunk` under `label`, the label padded to
/// `label_width` characters.
pub open spec fn line(chunk: Seq<u8>, label: Seq<char>, label_width: int) -> Seq<char> {
    padded(label, label_width) + seq![':', ' '] + padded(hex_column(chunk), HEX_WIDTH as int)
        + seq![' ', ' ', '|'] + ascii_column(chunk) + seq!['|']
}

/// The number of bytes on the first line of a dump of `len` bytes.
pub open spec fn first_len(len: int) -> int {
    if len < WIDTH as int {
        len
    } else {
        WIDTH as int
    }
}

/// The lines that show `data`: one for each sixteen bytes, and one for what
/// is left.
pub open spec fn dump(data: Seq<u8>, label: Seq<char>, label_width: int) -> Seq<Seq<char>>
    decreases data.len(),
{
    if data.len() == 0 {
        Seq::empty()
    } else {
        let n = first_len(data.len() as int);
        seq![line(data.subrange(0, n), label, label_width)] + dump(
            data.subrange(n, data.len() as int),
            label,
            label_width,
        )
    }
}

/// The texts of a list of lines.
pub open spec fn lines_of(lines: Seq<String>) -> Seq<Seq<char>> {
    Seq::new(lines.len(), |i: int| lines[i]@)
}

fn hex_char(n: u8) -> (c: char)
    requires
        n < 16,
    ensures
        c == hex_digit(n as int),
{
    if n == 0 {
        '0'
    } else if n == 1 {
        '1'
    } else if n == 2 {
        '2'
    } else if n == 3 {
        '3'
    } else if n == 4 {
        '4'
    } else if n == 5 {
        '5'
    } else if n == 6 {
        '6'
    } else if n == 7 {
        '7'
    } else if n == 8 {
        '8'
    } else if n == 9 {
        '9'
    } else if n == 10 {
        'A'
    } else if n == 11 {
        'B'
    } else if n == 12 {
        'C'
    } else if n == 13 {
        'D'
    } else if n == 14 {
        'E'
    } else {
        'F'
    }
}

fn pad(text: &mut Vec<char>, width: usize)
    ensures
        final(text)@ == padded(old(text)@, width as int),
{
    let ghost start = text@;
    if text.len() < width {
        while text.len() < width
            invariant
                start.len() <= text@.len() <= width,
                text@ == start + Seq::new((text@.len() - start.len()) as nat, |i: int| ' '),
            decreases width - text.len(),
        {
            text.push(' ');
        }
    }
}

/// Appends the line that shows `data[from..to]` to `lines`.
fn push_line(
    lines: &mut Vec<String>,
    data: &[u8],
    from: usize,
    to: usize,
    label: &Vec<char>,
    label_width: usize,
)
    requires
        from < to <= data@.len(),
    ensures
        lines_of(final(lines)@) == lines_of(old(lines)@).push(
            line(data@.subrange(from as int, to as int), label@, label_width as int),
        ),
{
    let ghost chunk = data@.subrange(from as int, to as int);
    let mut hex: Vec<char> = Vec::new();
    let mut ascii: Vec<char> = Vec::new();
    let mut i: usize = from;
    while i < to
        invariant
            from <= i <= to <= data@.len(),
            chunk == data@.subrange(from as int, to as int),
            hex@ == hex_column(chunk.subrange(0, i - from)),
            ascii@ == ascii_column(chunk.subrange(0, i - from)),
        decreases to - i,
    {
        let b = data[i];
        let ghost done = chunk.subrange(0, i - from);
        let ghost more = chunk.subrange(0, i + 1 - from);
        assert(more.drop_last() == done);
        if i > from {
            hex.push(' ');
        }
        hex.push(hex_char(b / 16));
        hex.push(hex_char(b % 16));
        if 0x20 <= b && b <= 0x7e {
            ascii.push(b as char);
        } else {
            ascii.push('.');
        }
        i += 1;
    }
    assert(chunk.subrange(0, to - from) == chunk);
    let mut text = label.clone();
    pad(&mut text, label_width);
    text.push(':');
    text.push(' ');
    pad(&mut hex, HEX_WIDTH);
    text.append(&mut hex);
    text.push(' ');
    text.push(' ');
    text.push('|');
    text.append(&mut ascii);
    text.push('|');
    assert(text@ == line(chunk, label@, label_width as int));
    lines.push(string_of(text));
}

/// The dump of `data[from..]` is the line of its first bytes, then the dump
/// of the rest.
proof fn lemma_dump_unfolds(data: Seq<u8>, from: int, label: Seq<char>, label_width: int)
    requires
        0 <= from < data.len(),
    ensures
        ({
            let rest = data.subrange(from, data.len() as int);
            let n = first_len(rest.len() as int);
            dump(rest, label, label_width) == seq![
                line(data.subrange(from, from + n), label, label_width),
            ] + dump(data.subrange(from + n, data.len() as int), label, label_width)
        }),
{
    let rest = data.subrange(from, data.len() as int);
    let n = first_len(rest.len() as int);
    assert(rest.subrange(0, n) == data.subrange(from, from + n));
    assert(rest.subrange(n, rest.len() as int) == data.subrange(from + n, data.len() as int));
}

/// The lines that show `data` under `label`, the label padded to
/// `label_width` characters.
pub fn hex_lines(data: &[u8], label: &str, label_width: usize) -> (lines: Vec<String>)
    ensures
        lines_of(lines@) == dump(data@, label@, label_width as int),
{
    let label_chars = chars_of(label);
    let mut lines: Vec<String> = Vec::new();
    let mut from: usize = 0;
    assert(data@.subrange(0, data@.len() as int) == data@);
    while from < data.len()
        invariant
            from <= data@.len(),
            label_chars@ == label@,
            lines_of(lines@) + dump(
                data@.subrange(from as int, data@.len() as int),
                label@,
                label_width as int,
            ) == dump(data@, label@, label_width as int),
        decreases data.len() - from,
    {
        let to = if data.len() - from < WIDTH {
            data.len()
        } else {
            from + WIDTH
        };
        proof {
            lemma_dump_unfolds(data@, from as int, label@, label_width as int);
        }
        push_line(&mut lines, data, from, to, &label_chars, label_width);
        from = to;
    }
    lines
}

/// The hex dump of `data`, each line under the label `direction`.
pub fn hex_dump(data: &[u8], direction: &str) -> (lines: Vec<String>)
    ensures
        lines_of(lines@) == dump(data@, direction@, 0),
{
    hex_lines(data, direction, 0)
}

} // verus!
