//! Character sequences: decimal rendering of integers, and splitting a
//! text at a separator.

use vstd::prelude::*;

verus! {

/// The character that stands for the decimal digit `d`; `9` for anything
/// above.
pub open spec fn digit_char(d: int) -> char {
    if d == 0 {
        '0'
    } else if d == 1 {
        '1'
    } else if d == 2 {
        '2'
    } else if d == 3 {
        '3'
    } else if d == 4 {
        '4'
    } else if d == 5 {
        '5'
    } else if d == 6 {
        '6'
    } else if d == 7 {
        '7'
    } else if d == 8 {
        '8'
    } else {
        '9'
    }
}

/// Whether `c` is one of the ten decimal digits.
pub open spec fn is_digit(c: char) -> bool {
    exists|d: int| 0 <= d < 10 && c == #[trigger] digit_char(d)
}

/// The decimal digits of `n`, most significant first, with zeros in front
/// where `n` has fewer than `width` digits.
pub open spec fn padded_decimal(n: nat, width: nat) -> Seq<char>
    decreases n, width,
{
    if n < 10 && width <= 1 {
        seq![digit_char(n as int)]
    } else {
        let rest: nat = if width == 0 {
            0
        } else {
            (width - 1) as nat
        };
        padded_decimal(n / 10, rest).push(digit_char((n % 10) as int))
    }
}

/// The decimal digits of `n` without padding.
pub open spec fn decimal(n: nat) -> Seq<char> {
    padded_decimal(n, 1)
}

/// How a signed integer is written: a minus sign in front of the digits of a
/// negative number, the bare digits otherwise.
pub open spec fn signed_decimal(v: int) -> Seq<char> {
    if v < 0 {
        seq!['-'] + decimal((-v) as nat)
    } else {
        decimal(v as nat)
    }
}

/// The one-character string of the decimal digit `d`.
pub fn digit_str(d: u8) -> (s: &'static str)
    ensures
        s@ == seq![digit_char(d as int)],
{
    proof {
        reveal_strlit("0");
        reveal_strlit("1");
        reveal_strlit("2");
        reveal_strlit("3");
        reveal_strlit("4");
        reveal_strlit("5");
        reveal_strlit("6");
        reveal_strlit("7");
        reveal_strlit("8");
        reveal_strlit("9");
    }
    let s = match d {
        0 => "0",
        1 => "1",
        2 => "2",
        3 => "3",
        4 => "4",
        5 => "5",
        6 => "6",
        7 => "7",
        8 => "8",
        _ => "9",
    };
    s
}

/// Writes `n` in decimal.
pub fn decimal_string(n: u64) -> (s: String)
    ensures
        s@ == decimal(n as nat),
    decreases n,
{
    if n < 10 {
        String::from_str(digit_str(n as u8))
    } else {
        let mut s = decimal_string(n / 10);
        s.append(digit_str((n % 10) as u8));
        proof {
            let high = (n / 10) as nat;
            assert(s@ =~= padded_decimal(high, 0).push(digit_char((n % 10) as int)));
        }
        s
    }
}

/// Writes `v` in decimal, with a minus sign if it is negative.
pub fn signed_decimal_string(v: i32) -> (s: String)
    ensures
        s@ == signed_decimal(v as int),
{
    if v < 0 {
        let magnitude: u64 = (-(v as i64)) as u64;
        let mut s = String::from_str("-");
        proof {
            reveal_strlit("-");
        }
        let digits = decimal_string(magnitude);
        s.append(digits.as_str());
        s
    } else {
        decimal_string(v as u64)
    }
}

/// Different digits are written with different characters.
pub proof fn lemma_digit_char_injective(a: int, b: int)
    requires
        0 <= a < 10,
        0 <= b < 10,
        digit_char(a) == digit_char(b),
    ensures
        a == b,
{
}

/// A decimal digit is no sign and no separator.
pub proof fn lemma_digit_is_plain(c: char)
    requires
        is_digit(c),
    ensures
        c != '-',
        c != '+',
        c != '/',
        c != '.',
{
    let d = choose|d: int| 0 <= d < 10 && c == #[trigger] digit_char(d);
    assert(c == digit_char(d));
}

/// A number's digits are at least one, at least as many as the width asked
/// for, and nothing but digits.
pub proof fn lemma_padded_decimal_shape(n: nat, width: nat)
    ensures
        padded_decimal(n, width).len() >= 1,
        padded_decimal(n, width).len() >= width,
        forall|i: int|
            0 <= i < padded_decimal(n, width).len() ==> is_digit(
                #[trigger] padded_decimal(n, width)[i],
            ),
    decreases n, width,
{
    if n >= 10 || width > 1 {
        let rest: nat = if width == 0 {
            0
        } else {
            (width - 1) as nat
        };
        lemma_padded_decimal_shape(n / 10, rest);
    }
}

/// Two numbers that are written alike, at the same width, are the same
/// number.
pub proof fn lemma_padded_decimal_injective(n: nat, m: nat, width: nat)
    requires
        padded_decimal(n, width) == padded_decimal(m, width),
    ensures
        n == m,
    decreases n, width,
{
    let rest: nat = if width == 0 {
        0
    } else {
        (width - 1) as nat
    };
    let n_is_short = n < 10 && width <= 1;
    let m_is_short = m < 10 && width <= 1;
    if n_is_short && m_is_short {
        assert(padded_decimal(n, width)[0] == digit_char(n as int));
        assert(padded_decimal(m, width)[0] == digit_char(m as int));
        lemma_digit_char_injective(n as int, m as int);
    } else if n_is_short {
        lemma_padded_decimal_shape(m / 10, rest);
        assert(padded_decimal(m, width).len() >= 2);
    } else if m_is_short {
        lemma_padded_decimal_shape(n / 10, rest);
        assert(padded_decimal(n, width).len() >= 2);
    } else {
        let high_n = padded_decimal(n / 10, rest);
        let high_m = padded_decimal(m / 10, rest);
        let low_n = digit_char((n % 10) as int);
        let low_m = digit_char((m % 10) as int);
        assert(high_n.push(low_n).last() == high_m.push(low_m).last());
        assert(high_n.push(low_n).drop_last() =~= high_n);
        assert(high_m.push(low_m).drop_last() =~= high_m);
        lemma_digit_char_injective((n % 10) as int, (m % 10) as int);
        lemma_padded_decimal_injective(n / 10, m / 10, rest);
    }
}

/// A number below 100 is written in two digits at width 2.
pub proof fn lemma_two_digits(n: nat)
    requires
        n < 100,
    ensures
        padded_decimal(n, 2) == seq![digit_char((n / 10) as int), digit_char((n % 10) as int)],
{
    assert(padded_decimal(n / 10, 1) == seq![digit_char((n / 10) as int)]);
    assert(padded_decimal(n, 2) =~= seq![
        digit_char((n / 10) as int),
        digit_char((n % 10) as int),
    ]);
}

/// A number below 1000 is written in three digits at width 3.
pub proof fn lemma_three_digits(n: nat)
    requires
        n < 1000,
    ensures
        padded_decimal(n, 3) == seq![
            digit_char((n / 100) as int),
            digit_char((n / 10 % 10) as int),
            digit_char((n % 10) as int),
        ],
{
    lemma_two_digits(n / 10);
    assert(padded_decimal(n, 3) =~= seq![
        digit_char((n / 100) as int),
        digit_char((n / 10 % 10) as int),
        digit_char((n % 10) as int),
    ]);
}

/// The pieces of `text` between the occurrences of `separator`, in order.
/// A text without the separator is one piece; two separators in a row, or
/// one at either end, bound an empty piece.
pub open spec fn split_on(text: Seq<char>, separator: char) -> Seq<Seq<char>>
    decreases text.len(),
{
    if text.len() == 0 {
        seq![Seq::<char>::empty()]
    } else {
        let front = split_on(text.drop_last(), separator);
        if text.last() == separator {
            front.push(Seq::<char>::empty())
        } else {
            front.drop_last().push(front.last().push(text.last()))
        }
    }
}

/// The pieces put together again, with the separator between neighbours.
pub open spec fn join_with(pieces: Seq<Seq<char>>, separator: char) -> Seq<char>
    decreases pieces.len(),
{
    if pieces.len() == 0 {
        Seq::<char>::empty()
    } else if pieces.len() == 1 {
        pieces[0]
    } else {
        join_with(pieces.drop_last(), separator).push(separator) + pieces.last()
    }
}

/// Splits `text` at every occurrence of `separator`.
pub fn split_text(text: &str, separator: char) -> (pieces: Vec<String>)
    ensures
        pieces.deep_view() == split_on(text@, separator),
{
    let total = text.unicode_len();
    let mut pieces: Vec<String> = Vec::new();
    let mut start: usize = 0;
    let mut seen: usize = 0;
    assert(text@.take(0) =~= Seq::<char>::empty());
    for c in it: text.chars()
        invariant
            seen == it.index(),
            it.seq() == text@,
            total == text@.len(),
            start <= seen <= total,
            split_on(text@.take(seen as int), separator) == pieces.deep_view().push(
                text@.subrange(start as int, seen as int),
            ),
    {
        assert(text@.take(seen + 1).drop_last() =~= text@.take(seen as int));
        if c == separator {
            let piece = String::from_str(text.substring_char(start, seen));
            pieces.push(piece);
            start = seen + 1;
            assert(text@.subrange(start as int, seen + 1) =~= Seq::<char>::empty());
        } else {
            assert(text@.subrange(start as int, seen + 1) =~= text@.subrange(
                start as int,
                seen as int,
            ).push(c));
        }
        seen = seen + 1;
    }
    let piece = String::from_str(text.substring_char(start, total));
    pieces.push(piece);
    assert(text@.take(total as int) =~= text@);
    pieces
}

/// Splitting yields at least one piece, and no piece holds the separator.
pub proof fn lemma_split_pieces(text: Seq<char>, separator: char)
    ensures
        split_on(text, separator).len() >= 1,
        forall|k: int, i: int|
            0 <= k < split_on(text, separator).len() && 0 <= i < split_on(text, separator)[k].len()
                ==> split_on(text, separator)[k][i] != separator,
    decreases text.len(),
{
    if text.len() > 0 {
        lemma_split_pieces(text.drop_last(), separator);
    }
}

/// Splitting loses nothing: the pieces, joined by the separator, are the
/// text again.
pub proof fn law_split_then_join(text: Seq<char>, separator: char)
    ensures
        join_with(split_on(text, separator), separator) == text,
    decreases text.len(),
{
    if text.len() > 0 {
        let shorter = text.drop_last();
        let front = split_on(shorter, separator);
        let pieces = split_on(text, separator);
        law_split_then_join(shorter, separator);
        lemma_split_pieces(shorter, separator);
        if text.last() == separator {
            assert(pieces.drop_last() =~= front);
        } else if front.len() > 1 {
            assert(pieces.drop_last() =~= front.drop_last());
        }
        assert(shorter.push(text.last()) =~= text);
    }
}

} // verus!
