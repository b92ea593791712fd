//! Numeric literals: reading an operand in base 2, 8, 10 or 16 and writing
//! a number out in one of those bases.

use vstd::prelude::*;
use crate::text::chars_of;
use vstd::string::StringExecFns;

verus! {

/// The value of `c` as a digit: `0`–`9`, then `a`–`f` or `A`–`F` for ten to
/// fifteen. No other character is a digit.
pub open spec fn digit_of(c: char) -> Option<nat> {
    if '0' <= c <= '9' {
        Some((c as int - '0' as int) as nat)
    } else if 'a' <= c <= 'f' {
        Some((c as int - 'a' as int + 10) as nat)
    } else if 'A' <= c <= 'F' {
        Some((c as int - 'A' as int + 10) as nat)
    } else {
        None
    }
}

/// Whether `c` is a digit of the given base.
pub open spec fn is_digit(c: char, base: nat) -> bool {
    digit_of(c) matches Some(d) && d < base
}

/// Whether `s` holds digits of the given base and nothing else.
pub open spec fn all_digits(s: Seq<char>, base: nat) -> bool {
    forall|i: int| 0 <= i < s.len() ==> is_digit(#[trigger] s[i], base)
}

/// The number that the digits `s` write in the given base, the first digit
/// weighing most.
pub open spec fn digits_value(s: Seq<char>, base: nat) -> nat
    decreases s.len(),
{
    if s.len() == 0 {
        0
    } else {
        digits_value(s.drop_last(), base) * base + digit_of(s.last()).unwrap_or(0)
    }
}

/// What a run of digits reads as: its value, where it is not empty, holds
/// only digits of the base and its value is at most `max`.
pub open spec fn read_digits(s: Seq<char>, base: nat, max: nat) -> Option<nat> {
    if s.len() > 0 && all_digits(s, base) && digits_value(s, base) <= max {
        Some(digits_value(s, base))
    } else {
        None
    }
}

/// Whether `t` starts with `0` and then the letter `mark`.
pub open spec fn has_prefix(t: Seq<char>, mark: char) -> bool {
    t.len() >= 2 && t[0] == '0' && t[1] == mark
}

/// The base that the token's prefix selects: `0b` two, `0o` eight, `0x`
/// sixteen, and ten where there is no such prefix.
pub open spec fn literal_base(t: Seq<char>) -> nat {
    if has_prefix(t, 'b') {
        2
    } else if has_prefix(t, 'o') {
        8
    } else if has_prefix(t, 'x') {
        16
    } else {
        10
    }
}

/// The token without its base prefix.
pub open spec fn literal_digits(t: Seq<char>) -> Seq<char> {
    if literal_base(t) == 10 {
        t
    } else {
        t.skip(2)
    }
}

/// The 16-bit value that an operand token stands for, if any.
pub open spec fn parse_number_spec(t: Seq<char>) -> Option<u16> {
    match read_digits(literal_digits(t), literal_base(t), 0xFFFF) {
        Some(n) => Some(n as u16),
        None => None,
    }
}

/// The value of the digits does not shrink as more digits follow.
pub proof fn lemma_value_grows(s: Seq<char>, k: int, base: nat)
    requires
        0 <= k <= s.len(),
        base >= 1,
    ensures
        digits_value(s.take(k), base) <= digits_value(s, base),
    decreases s.len() - k,
{
    if k == s.len() {
        assert(s.take(k) =~= s);
    } else {
        lemma_value_grows(s.drop_last(), k, base);
        assert(s.drop_last().take(k) =~= s.take(k));
        let v = digits_value(s.drop_last(), base);
        assert(v * base >= v) by (nonlinear_arith)
            requires
                base >= 1,
                v >= 0,
        ;
    }
}

/// The digit that `c` is in base sixteen, if it is one.
pub fn digit_value(c: char) -> (d: Option<u8>)
    ensures
        d matches Some(v) ==> digit_of(c) == Some(v as nat),
        d is None ==> digit_of(c) is None,
{
    let n: u32 = c as u32;
    if 48 <= n && n <= 57 {
        Some((n - 48) as u8)
    } else if 97 <= n && n <= 102 {
        Some((n - 97 + 10) as u8)
    } else if 65 <= n && n <= 70 {
        Some((n - 65 + 10) as u8)
    } else {
        None
    }
}

/// Reads `chars[from..]` as digits of the given base, up to `max`.
pub fn parse_digits(chars: &Vec<char>, from: usize, base: u8, max: u64) -> (value: Option<u64>)
    requires
        from <= chars.len(),
        2 <= base <= 16,
    ensures
        value matches Some(n) ==> read_digits(chars@.skip(from as int), base as nat, max as nat)
            == Some(n as nat),
        value is None ==> read_digits(chars@.skip(from as int), base as nat, max as nat) is None,
{
    let ghost digits = chars@.skip(from as int);
    let n: usize = chars.len();
    if from == n {
        return None;
    }
    let mut acc: u64 = 0;
    let mut i: usize = from;
    assert(digits.take(0) =~= Seq::<char>::empty());
    while i < n
        invariant
            from <= i <= n == chars.len(),
            2 <= base <= 16,
            digits == chars@.skip(from as int),
            all_digits(digits.take(i - from), base as nat),
            acc as nat == digits_value(digits.take(i - from), base as nat),
            acc <= max,
        decreases n - i,
    {
        let c: char = chars[i];
        assert(digits[i - from] == c);
        let d: u8 = match digit_value(c) {
            Some(d) => d,
            None => {
                return None;
            },
        };
        if d >= base {
            return None;
        }
        assert(acc * base + d <= 0x11_0000_0000_0000_0000) by (nonlinear_arith)
            requires
                acc <= 0xFFFF_FFFF_FFFF_FFFF,
                base <= 16,
                d < 16,
        ;
        let wide: u128 = (acc as u128) * (base as u128) + (d as u128);
        let ghost next = digits.take(i - from + 1);
        proof {
            assert(next.drop_last() =~= digits.take(i - from));
            assert(next.last() == c);
            assert(wide as nat == digits_value(next, base as nat));
            assert forall|k: int| 0 <= k < next.len() implies is_digit(
                #[trigger] next[k],
                base as nat,
            ) by {
                if k < next.len() - 1 {
                    assert(next[k] == digits.take(i - from)[k]);
                }
            }
        }
        if wide > max as u128 {
            proof {
                lemma_value_grows(digits, i - from + 1, base as nat);
            }
            return None;
        }
        acc = wide as u64;
        i += 1;
    }
    assert(digits.take(i - from) =~= digits);
    Some(acc)
}

/// Reads an operand token. A token is an optional base prefix (`0b`, `0o`
/// or `0x`) and then at least one digit of that base; it stands for the
/// number that the digits write, provided that fits in sixteen bits. Every
/// other token is refused.
pub fn parse_number(s: &str) -> (value: Option<u16>)
    ensures
        value == parse_number_spec(s@),
{
    let chars = chars_of(s);
    let mut base: u8 = 10;
    let mut from: usize = 0;
    if chars.len() >= 2 && chars[0] == '0' {
        if chars[1] == 'b' {
            base = 2;
            from = 2;
        } else if chars[1] == 'o' {
            base = 8;
            from = 2;
        } else if chars[1] == 'x' {
            base = 16;
            from = 2;
        }
    }
    assert(base as nat == literal_base(s@));
    assert(chars@.skip(from as int) =~= literal_digits(s@));
    match parse_digits(&chars, from, base, 0xFFFF) {
        Some(n) => Some(n as u16),
        None => None,
    }
}

/// The character that writes the digit `d`, with capital or small letters
/// from ten on.
pub open spec fn digit_char(d: nat, upper: bool) -> char {
    if d < 10 {
        ('0' as int + d) as char
    } else if upper {
        ('A' as int + d - 10) as char
    } else {
        ('a' as int + d - 10) as char
    }
}

/// The digits of `n` in the given base, without leading zeros; `0` is
/// written as one digit.
pub open spec fn digits(n: nat, base: nat, upper: bool) -> Seq<char>
    decreases n,
    via digits_shrink
{
    if base < 2 || n < base {
        seq![digit_char(n, upper)]
    } else {
        digits(n / base, base, upper).push(digit_char(n % base, upper))
    }
}

#[via_fn]
proof fn digits_shrink(n: nat, base: nat, upper: bool) {
    if base >= 2 && n >= base {
        assert(n / base < n) by (nonlinear_arith)
            requires
                2 <= base <= n,
        ;
    }
}

/// `s`, with as many copies of `fill` before it as bring it to `width`
/// characters; `s` itself where it is that long already.
pub open spec fn padded(s: Seq<char>, width: nat, fill: char) -> Seq<char> {
    if s.len() >= width {
        s
    } else {
        Seq::new((width - s.len()) as nat, |i: int| fill) + s
    }
}

/// The character that writes the digit `d`.
pub fn digit_to_char(d: u8, upper: bool) -> (c: char)
    requires
        d < 16,
    ensures
        c == digit_char(d as nat, upper),
{
    if d < 10 {
        (48 + d) as char
    } else if upper {
        (65 + d - 10) as char
    } else {
        (97 + d - 10) as char
    }
}

/// Appends the digits of `n` in the given base to `out`.
pub fn push_digits(out: &mut String, n: u64, base: u8, upper: bool)
    requires
        2 <= base <= 16,
    ensures
        final(out)@ == old(out)@ + digits(n as nat, base as nat, upper),
    decreases n,
{
    let wide: u64 = base as u64;
    if n >= wide {
        assert(n / wide < n) by (nonlinear_arith)
            requires
                2 <= wide <= n,
        ;
        push_digits(out, n / wide, base, upper);
    }
    let ghost mid = out@;
    out.push(digit_to_char((n % wide) as u8, upper));
    proof {
        let d = digit_char((n as nat) % (base as nat), upper);
        if n >= wide {
            assert(digits(n as nat, base as nat, upper) == digits(
                (n as nat) / (base as nat),
                base as nat,
                upper,
            ).push(d));
            assert(out@ =~= (old(out)@ + digits((n / wide) as nat, base as nat, upper)).push(d));
        } else {
            assert((n as nat) % (base as nat) == n as nat) by (nonlinear_arith)
                requires
                    n < wide,
                    wide == base,
            ;
            assert(digits(n as nat, base as nat, upper) =~= seq![d]);
            assert(mid == old(out)@);
        }
        assert(out@ =~= old(out)@ + digits(n as nat, base as nat, upper));
    }
}

/// Appends `body` to `out`, after as many copies of `fill` as bring it to
/// `width` characters.
pub fn push_padded(out: &mut String, body: &str, width: usize, fill: char)
    ensures
        final(out)@ == old(out)@ + padded(body@, width as nat, fill),
{
    let len: usize = body.unicode_len();
    let mut i: usize = len;
    while i < width
        invariant
            len <= i,
            i <= width || i == len,
            out@ == old(out)@ + Seq::new((i - len) as nat, |k: int| fill),
        decreases width - i,
    {
        out.push(fill);
        i += 1;
        assert(out@ =~= old(out)@ + Seq::new((i - len) as nat, |k: int| fill));
    }
    let ghost filled = out@;
    out.append(body);
    proof {
        if len >= width {
            assert(filled =~= old(out)@);
        } else {
            assert(out@ =~= old(out)@ + (Seq::new((width - len) as nat, |k: int| fill) + body@));
        }
    }
}

/// Appends `n` to `out`, written in the given base and brought to `width`
/// characters with `fill` in front.
pub fn push_number(out: &mut String, n: u64, base: u8, upper: bool, width: usize, fill: char)
    requires
        2 <= base <= 16,
    ensures
        final(out)@ == old(out)@ + padded(digits(n as nat, base as nat, upper), width as nat, fill),
{
    let mut body = String::new();
    push_digits(&mut body, n, base, upper);
    assert(body@ =~= digits(n as nat, base as nat, upper));
    push_padded(out, body.as_str(), width, fill);
}

pub proof fn lemma_digit_char(d: nat, base: nat, upper: bool)
    requires
        d < base <= 16,
    ensures
        digit_of(digit_char(d, upper)) == Some(d),
        is_digit(digit_char(d, upper), base),
{
}

/// What `digits` writes is not empty, holds only digits of the base, and
/// has the value that was written.
pub proof fn lemma_digits_value(n: nat, base: nat, upper: bool)
    requires
        2 <= base <= 16,
    ensures
        digits(n, base, upper).len() > 0,
        all_digits(digits(n, base, upper), base),
        digits_value(digits(n, base, upper), base) == n,
    decreases n,
{
    let s = digits(n, base, upper);
    if n < base {
        lemma_digit_char(n, base, upper);
        assert(s.drop_last() =~= Seq::<char>::empty());
        assert(digits_value(s.drop_last(), base) == 0);
        assert(digits_value(s, base) == 0 * base + n);
    } else {
        let q = n / base;
        let r = n % base;
        assert(q < n && r < base && q * base + r == n) by (nonlinear_arith)
            requires
                q == n / base,
                r == n % base,
                2 <= base <= n,
        ;
        lemma_digits_value(q, base, upper);
        lemma_digit_char(r, base, upper);
        assert(s.drop_last() =~= digits(q, base, upper));
        assert forall|i: int| 0 <= i < s.len() implies is_digit(#[trigger] s[i], base) by {
            if i < s.len() - 1 {
                assert(s[i] == digits(q, base, upper)[i]);
            }
        }
    }
}

/// Leading zeros do not change what digits are worth.
pub proof fn lemma_zeros_value(s: Seq<char>, zeros: nat, base: nat)
    requires
        2 <= base <= 16,
    ensures
        digits_value(Seq::new(zeros, |i: int| '0') + s, base) == digits_value(s, base),
        all_digits(s, base) ==> all_digits(Seq::new(zeros, |i: int| '0') + s, base),
    decreases s.len(),
{
    let z = Seq::new(zeros, |i: int| '0');
    if s.len() == 0 {
        assert(z + s =~= z);
        lemma_only_zeros(zeros, base);
    } else {
        lemma_zeros_value(s.drop_last(), zeros, base);
        assert((z + s).drop_last() =~= z + s.drop_last());
        assert((z + s).last() == s.last());
    }
    if all_digits(s, base) {
        assert forall|i: int| 0 <= i < (z + s).len() implies is_digit(#[trigger] (z + s)[i], base) by {
            if i >= zeros {
                assert((z + s)[i] == s[i - zeros]);
            }
        }
    }
}

proof fn lemma_only_zeros(zeros: nat, base: nat)
    requires
        2 <= base <= 16,
    ensures
        digits_value(Seq::new(zeros, |i: int| '0'), base) == 0,
    decreases zeros,
{
    let z = Seq::new(zeros, |i: int| '0');
    if zeros > 0 {
        lemma_only_zeros((zeros - 1) as nat, base);
        assert(z.drop_last() =~= Seq::new((zeros - 1) as nat, |i: int| '0'));
        assert(z.last() == '0');
        assert(digit_of('0') == Some(0nat));
        assert(digits_value(z, base) == digits_value(z.drop_last(), base) * base + 0);
        assert(0 * base == 0);
    }
}

/// The prefix that selects a base: `0b`, `0o`, `0x`, or nothing for ten.
pub open spec fn base_prefix(base: nat) -> Seq<char> {
    if base == 2 {
        seq!['0', 'b']
    } else if base == 8 {
        seq!['0', 'o']
    } else if base == 16 {
        seq!['0', 'x']
    } else {
        Seq::empty()
    }
}

/// Writing and reading agree: a 16-bit number, written in any of the four
/// bases with its prefix, with capital or small letters and with any number
/// of leading zeros, is read back as that number. In particular a token in
/// base two, eight or sixteen is read as the same number as its decimal
/// form.
pub proof fn lemma_parse_round_trip(n: u16, base: nat, upper: bool, width: nat)
    requires
        base == 2 || base == 8 || base == 10 || base == 16,
    ensures
        parse_number_spec(base_prefix(base) + padded(digits(n as nat, base, upper), width, '0'))
            == Some(n),
{
    let d = digits(n as nat, base, upper);
    let body = padded(d, width, '0');
    let t = base_prefix(base) + body;
    lemma_digits_value(n as nat, base, upper);
    if d.len() < width {
        lemma_zeros_value(d, (width - d.len()) as nat, base);
    }
    assert(body.len() > 0 && all_digits(body, base) && digits_value(body, base) == n);
    if base == 10 {
        assert(t =~= body);
        if t.len() >= 2 {
            assert(is_digit(t[1], 10));
        }
        assert(literal_base(t) == 10);
    } else {
        assert(t[0] == '0');
        assert(literal_base(t) == base);
        assert(t.skip(2) =~= body);
    }
}

/// A token is refused exactly when it is malformed: when nothing follows
/// its prefix, when a character after the prefix is not a digit of its
/// base, or when its digits write a number above 65535.
pub proof fn lemma_parse_refuses_malformed(t: Seq<char>)
    ensures
        parse_number_spec(t) is None <==> {
            ||| literal_digits(t).len() == 0
            ||| exists|i: int|
                0 <= i < literal_digits(t).len() && !is_digit(
                    #[trigger] literal_digits(t)[i],
                    literal_base(t),
                )
            ||| digits_value(literal_digits(t), literal_base(t)) > 0xFFFF
        },
{
}

} // verus!
