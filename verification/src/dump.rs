//! The lines in which memory is shown: hex dumps, the program listing and
//! the examination of one word or byte.

use vstd::prelude::*;
use vstd::string::StringExecFns;
use crate::number::{digits, padded, push_number, push_padded};
use crate::text::{lemma_texts_push, texts};

verus! {

/// A byte as two capital hex digits.
pub open spec fn byte_text(b: u8) -> Seq<char> {
    padded(digits(b as nat, 16, true), 2, '0')
}

/// An address as capital hex digits, four at least.
pub open spec fn address_text(a: nat) -> Seq<char> {
    padded(digits(a, 16, true), 4, '0')
}

/// The cells of `bytes[from..to]`: each byte as two hex digits and a space.
/// In a spaced row three more spaces follow the eighth cell.
pub open spec fn cells(bytes: Seq<u8>, from: int, to: int, spaced: bool) -> Seq<char>
    decreases to - from,
{
    if to <= from {
        Seq::empty()
    } else {
        cells(bytes, from, to - 1, spaced) + byte_text(bytes[to - 1]).push(' ') + (if spaced && to
            - from == 8 {
            seq![' ', ' ', ' ']
        } else {
            Seq::empty()
        })
    }
}

/// The address of the byte `offset` places after `start`, in a 16-bit
/// address space that wraps round.
pub open spec fn address_at(start: u16, offset: int) -> nat {
    ((start + offset) % 0x1_0000) as nat
}

/// How many rows of sixteen it takes to hold `len` bytes.
pub open spec fn row_count(len: nat) -> nat {
    (len + 15) / 16
}

/// Where row `k` of `len` bytes ends.
pub open spec fn row_end(len: nat, k: int) -> int {
    if 16 * k + 16 <= len {
        16 * k + 16
    } else {
        len as int
    }
}

/// Row `k` of a dump of `bytes` that starts at address `start`: the
/// address of the row's first byte, ` | `, and the row's cells.
pub open spec fn dump_row(start: u16, bytes: Seq<u8>, k: int) -> Seq<char> {
    address_text(address_at(start, 16 * k)) + seq![' ', '|', ' '] + cells(
        bytes,
        16 * k,
        row_end(bytes.len(), k),
        true,
    )
}

/// The rows of a dump of `bytes` that starts at address `start`: sixteen
/// bytes to a row, the last row holding what is left.
pub open spec fn dump_rows_spec(start: u16, bytes: Seq<u8>) -> Seq<Seq<char>> {
    Seq::new(row_count(bytes.len()), |k: int| dump_row(start, bytes, k))
}

/// Whether row `k` of the image holds sixteen zero bytes.
pub open spec fn zero_row(image: Seq<u8>, k: int) -> bool {
    forall|i: int| 16 * k <= i < 16 * k + 16 ==> #[trigger] image[i] == 0
}

/// How many rows the listing has, counted from row `k` on: the whole rows
/// of the image up to and including the first that holds only zeros.
pub open spec fn listing_end(image: Seq<u8>, k: int) -> int
    decreases image.len() - 16 * k,
{
    if k < 0 || 16 * k + 16 > image.len() {
        k
    } else if zero_row(image, k) {
        k + 1
    } else {
        listing_end(image, k + 1)
    }
}

/// The rows of the program listing: each whole row of sixteen bytes as
/// cells without address, ending with the first row of zeros.
pub open spec fn listing_rows_spec(image: Seq<u8>) -> Seq<Seq<char>> {
    Seq::new(
        listing_end(image, 0) as nat,
        |k: int| cells(image, 16 * k, 16 * k + 16, false),
    )
}

/// Appends the cell of `b` to `out`.
fn push_cell(out: &mut String, b: u8)
    ensures
        final(out)@ == old(out)@ + byte_text(b).push(' '),
{
    push_number(out, b as u64, 16, true, 2, '0');
    out.push(' ');
    assert(out@ =~= old(out)@ + byte_text(b).push(' '));
}

/// Appends the cells of `bytes[from..to]` to `out`.
fn push_cells(out: &mut String, bytes: &[u8], from: usize, to: usize, spaced: bool)
    requires
        from <= to <= bytes.len(),
    ensures
        final(out)@ == old(out)@ + cells(bytes@, from as int, to as int, spaced),
{
    let mut i: usize = from;
    assert(out@ =~= old(out)@ + cells(bytes@, from as int, i as int, spaced));
    while i < to
        invariant
            from <= i <= to <= bytes.len(),
            out@ == old(out)@ + cells(bytes@, from as int, i as int, spaced),
        decreases to - i,
    {
        push_cell(out, bytes[i]);
        if spaced && i - from == 7 {
            out.append("   ");
            proof {
                reveal_strlit("   ");
                assert("   "@ =~= seq![' ', ' ', ' ']);
            }
        }
        i += 1;
        assert(out@ =~= old(out)@ + cells(bytes@, from as int, i as int, spaced));
    }
}

/// The rows of a dump of `bytes`, the first of which lies at address
/// `start`.
pub fn dump_rows(start: u16, bytes: &[u8]) -> (rows: Vec<String>)
    ensures
        texts(rows@) == dump_rows_spec(start, bytes@),
{
    let n: usize = bytes.len();
    let mut rows: Vec<String> = Vec::new();
    let mut from: usize = 0;
    let ghost mut k: int = 0;
    assert(texts(rows@) =~= Seq::new(0nat, |j: int| dump_row(start, bytes@, j)));
    while from < n
        invariant
            0 <= k,
            from <= n == bytes.len(),
            from < n ==> from == 16 * k,
            from == n ==> k == row_count(n as nat),
            texts(rows@) == Seq::new(k as nat, |j: int| dump_row(start, bytes@, j)),
        decreases n - from,
    {
        let to: usize = if n - from >= 16 {
            from + 16
        } else {
            n
        };
        let address: u64 = (start as u64 + (from % 0x1_0000) as u64) % 0x1_0000;
        assert(address as nat == address_at(start, 16 * k));
        let mut row = String::new();
        push_number(&mut row, address, 16, true, 4, '0');
        row.append(" | ");
        proof {
            reveal_strlit(" | ");
            assert(" | "@ =~= seq![' ', '|', ' ']);
        }
        push_cells(&mut row, bytes, from, to, true);
        assert(row@ =~= dump_row(start, bytes@, k));
        proof {
            lemma_texts_push(rows@, row);
        }
        rows.push(row);
        assert(texts(rows@) =~= Seq::new((k + 1) as nat, |j: int| dump_row(start, bytes@, j)));
        from = to;
        proof {
            k = k + 1;
        }
    }
    rows
}

/// The rows of the program listing of `image`.
pub fn listing_rows(image: &[u8]) -> (rows: Vec<String>)
    ensures
        texts(rows@) == listing_rows_spec(image@),
{
    let n: usize = image.len();
    let mut rows: Vec<String> = Vec::new();
    let mut from: usize = 0;
    let ghost mut k: int = 0;
    let mut done: bool = false;
    assert(texts(rows@) =~= Seq::new(0nat, |j: int| cells(image@, 16 * j, 16 * j + 16, false)));
    while !done && n - from >= 16
        invariant
            0 <= k,
            from <= n == image.len(),
            from == 16 * k,
            !done ==> listing_end(image@, k) == listing_end(image@, 0),
            done ==> k == listing_end(image@, 0),
            texts(rows@) == Seq::new(
                k as nat,
                |j: int| cells(image@, 16 * j, 16 * j + 16, false),
            ),
        decreases n - from + (if done { 0int } else { 1int }),
    {
        let mut row = String::new();
        push_cells(&mut row, image, from, from + 16, false);
        let mut zero: bool = true;
        let mut i: usize = from;
        while i < from + 16
            invariant
                from <= i <= from + 16 <= n == image.len(),
                zero == (forall|j: int| from <= j < i ==> #[trigger] image@[j] == 0),
            decreases from + 16 - i,
        {
            if image[i] != 0 {
                zero = false;
            }
            i += 1;
        }
        assert(zero == zero_row(image@, k));
        proof {
            lemma_texts_push(rows@, row);
        }
        rows.push(row);
        assert(texts(rows@) =~= Seq::new(
            (k + 1) as nat,
            |j: int| cells(image@, 16 * j, 16 * j + 16, false),
        ));
        from = from + 16;
        done = zero;
        proof {
            k = k + 1;
        }
    }
    rows
}

/// A 16-bit word read as a signed number: a sign, always written, and the
/// digits of its magnitude.
pub open spec fn signed_text(word: u16) -> Seq<char> {
    if word < 0x8000 {
        seq!['+'] + digits(word as nat, 10, true)
    } else {
        seq!['-'] + digits((0x1_0000 - word) as nat, 10, true)
    }
}

/// The line that shows the word read at the address written as `token`:
/// the word as an unsigned and as a signed number, each right-aligned in
/// five columns, then in hex and in binary.
pub open spec fn word_line_spec(token: Seq<char>, word: u16) -> Seq<char> {
    "(16-bit) "@ + token + ": "@ + padded(digits(word as nat, 10, true), 5, ' ') + ", "@ + padded(
        signed_text(word),
        5,
        ' ',
    ) + ", 0x"@ + padded(digits(word as nat, 16, true), 4, '0') + ", 0b"@ + padded(
        digits(word as nat, 2, true),
        16,
        '0',
    )
}

/// The line that shows the word read at the address written as `token`.
pub fn word_line(token: &str, word: u16) -> (line: String)
    ensures
        line@ == word_line_spec(token@, word),
{
    let mut line = String::from_str("(16-bit) ");
    line.append(token);
    line.append(": ");
    push_number(&mut line, word as u64, 10, true, 5, ' ');
    line.append(", ");
    let mut signed = String::new();
    if word < 0x8000 {
        signed.push('+');
        push_number(&mut signed, word as u64, 10, true, 0, ' ');
    } else {
        signed.push('-');
        push_number(&mut signed, (0x1_0000 - word as u32) as u64, 10, true, 0, ' ');
    }
    assert(signed@ =~= signed_text(word));
    push_padded(&mut line, signed.as_str(), 5, ' ');
    line.append(", 0x");
    push_number(&mut line, word as u64, 16, true, 4, '0');
    line.append(", 0b");
    push_number(&mut line, word as u64, 2, true, 16, '0');
    assert(line@ =~= word_line_spec(token@, word));
    line
}

/// Whether the byte is a printable ASCII character or ASCII whitespace.
pub open spec fn is_shown_as_char(byte: u8) -> bool {
    0x21 <= byte <= 0x7E || byte == 0x20 || byte == 0x09 || byte == 0x0A || byte == 0x0C || byte
        == 0x0D
}

/// The character of a byte between quotes, written with a backslash where
/// it is a tab, a line feed, a carriage return, a quote or a backslash, and
/// as `\u{c}` where it is a form feed.
pub open spec fn quoted_char(byte: u8) -> Seq<char> {
    if byte == 0x09 {
        "'\\t'"@
    } else if byte == 0x0A {
        "'\\n'"@
    } else if byte == 0x0D {
        "'\\r'"@
    } else if byte == 0x27 {
        "'\\''"@
    } else if byte == 0x5C {
        "'\\\\'"@
    } else if byte == 0x0C {
        "'\\u{c}'"@
    } else {
        seq!['\'', byte as char, '\'']
    }
}

/// The line that shows the byte read at the address written as `token`:
/// the byte as a number right-aligned in three columns, in hex and in
/// binary, and as a character where it is one that can be shown.
pub open spec fn byte_line_spec(token: Seq<char>, byte: u8) -> Seq<char> {
    " (8-bit) "@ + token + ": "@ + padded(digits(byte as nat, 10, true), 3, ' ') + ", 0x"@
        + byte_text(byte) + ", 0b"@ + padded(digits(byte as nat, 2, true), 8, '0') + (
    if is_shown_as_char(byte) {
        ", "@ + quoted_char(byte)
    } else {
        Seq::empty()
    })
}

/// The line that shows the byte read at the address written as `token`.
pub fn byte_line(token: &str, byte: u8) -> (line: String)
    ensures
        line@ == byte_line_spec(token@, byte),
{
    let mut line = String::from_str(" (8-bit) ");
    line.append(token);
    line.append(": ");
    push_number(&mut line, byte as u64, 10, true, 3, ' ');
    line.append(", 0x");
    push_number(&mut line, byte as u64, 16, true, 2, '0');
    line.append(", 0b");
    push_number(&mut line, byte as u64, 2, true, 8, '0');
    let ghost head = line@;
    if (0x21 <= byte && byte <= 0x7E) || byte == 0x20 || byte == 0x09 || byte == 0x0A || byte
        == 0x0C || byte == 0x0D {
        line.append(", ");
        if byte == 0x09 {
            line.append("'\\t'");
        } else if byte == 0x0A {
            line.append("'\\n'");
        } else if byte == 0x0D {
            line.append("'\\r'");
        } else if byte == 0x27 {
            line.append("'\\''");
        } else if byte == 0x5C {
            line.append("'\\\\'");
        } else if byte == 0x0C {
            line.append("'\\u{c}'");
        } else {
            line.push('\'');
            line.push(byte as char);
            line.push('\'');
            assert(line@ =~= head + ", "@ + seq!['\'', byte as char, '\'']);
        }
        assert(line@ =~= head + (", "@ + quoted_char(byte)));
    } else {
        assert(line@ =~= head + Seq::<char>::empty());
    }
    line
}

} // verus!
