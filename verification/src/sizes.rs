//! Font sizes given as text: a list of numbers separated by commas.

use vstd::prelude::*;
use crate::text::{chars_of, trim_bounds, trimmed};

verus! {

/// The size used where a request names none that can be read.
pub const DEFAULT_BOOK_SIZE: u16 = 18;

/// The decimal digits.
pub open spec fn is_digit(c: char) -> bool {
    0x30 <= c as u32 <= 0x39
}

/// The number that a digit stands for.
pub open spec fn digit_value(c: char) -> nat {
    (c as u32 - 0x30) as nat
}

/// The number that a run of digits spells in base ten.
pub open spec fn digits_value(digits: Seq<char>) -> nat
    decreases digits.len(),
{
    if digits.len() == 0 {
        0
    } else {
        10 * digits_value(digits.drop_last()) + digit_value(digits.last())
    }
}

/// Whether every character is a digit.
pub open spec fn all_digits(digits: Seq<char>) -> bool {
    forall|i: int| 0 <= i < digits.len() ==> is_digit(#[trigger] digits[i])
}

/// The number that a text spells as a `u16`: an optional `+`, then one or
/// more digits, nothing else, and a value of at most 65535.
pub open spec fn parsed_u16(text: Seq<char>) -> Option<u16> {
    let digits = if text.len() > 0 && text[0] == '+' {
        text.skip(1)
    } else {
        text
    };
    if digits.len() > 0 && all_digits(digits) && digits_value(digits) <= u16::MAX {
        Some(digits_value(digits) as u16)
    } else {
        None
    }
}

/// How many characters stand before the first comma, or the length of the
/// text where it has no comma.
pub open spec fn field_len(text: Seq<char>) -> nat
    decreases text.len(),
{
    if text.len() == 0 || text[0] == ',' {
        0
    } else {
        1 + field_len(text.skip(1))
    }
}

/// The sizes that a text lists: the text is cut at its commas, each piece
/// is taken without the white space around it, and the pieces that spell
/// a `u16` give the sizes, in order. The other pieces are passed over.
pub open spec fn sizes_in(text: Seq<char>) -> Seq<u16>
    decreases text.len(),
{
    let n = field_len(text);
    let head = match parsed_u16(trimmed(text.take(n as int))) {
        Some(size) => seq![size],
        None => Seq::empty(),
    };
    if n >= text.len() {
        head
    } else {
        head + sizes_in(text.skip(n as int + 1))
    }
}

/// The first field of a text ends at its first comma, or at its end.
proof fn lemma_field_len(text: Seq<char>, k: int)
    requires
        0 <= k <= text.len(),
        forall|i: int| 0 <= i < k ==> text[i] != ',',
        k == text.len() || text[k] == ',',
    ensures
        field_len(text) == k,
    decreases k,
{
    if k > 0 {
        let rest = text.skip(1);
        assert forall|i: int| 0 <= i < k - 1 implies rest[i] != ',' by {
            assert(rest[i] == text[i + 1]);
        }
        lemma_field_len(rest, k - 1);
    }
}

/// The value of a run of digits is at least the value of each of its
/// beginnings.
proof fn lemma_digits_value_grows(digits: Seq<char>, m: int)
    requires
        0 <= m <= digits.len(),
    ensures
        digits_value(digits.take(m)) <= digits_value(digits),
    decreases digits.len(),
{
    if m < digits.len() {
        let shorter = digits.drop_last();
        lemma_digits_value_grows(shorter, m);
        assert(shorter.take(m) =~= digits.take(m));
    } else {
        assert(digits.take(m) =~= digits);
    }
}

/// Reads `chars[from..to]` as a `u16`.
pub(crate) fn parse_u16_at(chars: &Vec<char>, from: usize, to: usize) -> (parsed: Option<u16>)
    requires
        from <= to <= chars.len(),
    ensures
        parsed == parsed_u16(chars@.subrange(from as int, to as int)),
{
    let ghost text = chars@.subrange(from as int, to as int);
    let mut first: usize = from;
    if from < to && chars[from] == '+' {
        first = from + 1;
    }
    let ghost digits = chars@.subrange(first as int, to as int);
    proof {
        if first == from {
            assert(digits =~= text);
        } else {
            assert(digits =~= text.skip(1));
        }
    }
    if first >= to {
        return None;
    }
    let mut value: u32 = 0;
    let mut k: usize = first;
    while k < to
        invariant
            from <= first <= k <= to <= chars.len(),
            first < to,
            text == chars@.subrange(from as int, to as int),
            digits == chars@.subrange(first as int, to as int),
            digits == if text.len() > 0 && text[0] == '+' {
                text.skip(1)
            } else {
                text
            },
            all_digits(digits.take(k - first)),
            value == digits_value(digits.take(k - first)),
            value <= u16::MAX,
        decreases to - k,
    {
        let code: u32 = chars[k] as u32;
        if !(0x30 <= code && code <= 0x39) {
            proof {
                assert(digits[k - first] == chars@[k as int]);
                assert(!is_digit(digits[k - first]));
            }
            return None;
        }
        let next: u32 = value * 10 + (code - 0x30);
        proof {
            let shorter = digits.take(k - first);
            let longer = digits.take(k - first + 1);
            assert(longer.drop_last() =~= shorter);
            assert(longer.last() == chars@[k as int]);
            assert(next == digits_value(longer));
            assert forall|i: int| 0 <= i < longer.len() implies is_digit(#[trigger] longer[i]) by {
                if i < shorter.len() {
                    assert(longer[i] == shorter[i]);
                }
            }
        }
        if next > 0xFFFF {
            proof {
                lemma_digits_value_grows(digits, k - first + 1);
            }
            return None;
        }
        value = next;
        k += 1;
    }
    proof {
        assert(digits.take(to - first) =~= digits);
    }
    Some(value as u16)
}

/// Reads a list of sizes: numbers separated by commas, with white space
/// allowed around each. Pieces that are not a number from 0 to 65535 are
/// passed over.
pub fn parse_sizes(value: &str) -> (sizes: Vec<u16>)
    ensures
        sizes@ == sizes_in(value@),
{
    let chars = chars_of(value);
    let n = chars.len();
    let mut sizes: Vec<u16> = Vec::new();
    let mut start: usize = 0;
    proof {
        assert(chars@.skip(0) =~= chars@);
    }
    loop
        invariant_except_break
            start <= n,
            sizes_in(chars@) == sizes@ + sizes_in(chars@.skip(start as int)),
        invariant
            n == chars.len(),
        ensures
            sizes_in(chars@) == sizes@,
        decreases n - start,
    {
        let ghost rest = chars@.skip(start as int);
        let ghost before = sizes@;
        let mut end: usize = start;
        while end < n && chars[end] != ','
            invariant
                start <= end <= n,
                n == chars.len(),
                forall|i: int| start <= i < end ==> chars@[i] != ',',
            decreases n - end,
        {
            end += 1;
        }
        proof {
            assert forall|i: int| 0 <= i < end - start implies rest[i] != ',' by {
                assert(rest[i] == chars@[start + i]);
            }
            lemma_field_len(rest, end - start);
            assert(rest.take(end - start) =~= chars@.subrange(start as int, end as int));
        }
        let (a, b) = trim_bounds(&chars, start, end);
        match parse_u16_at(&chars, a, b) {
            Some(size) => {
                sizes.push(size);
                proof {
                    assert(sizes@ =~= before + seq![size]);
                }
            },
            None => {
                proof {
                    assert(sizes@ =~= before + Seq::<u16>::empty());
                }
            },
        }
        if end >= n {
            proof {
                assert(rest.len() == n - start);
            }
            break ;
        }
        proof {
            assert(rest.skip(end - start + 1) =~= chars@.skip(end as int + 1));
            let head = match parsed_u16(trimmed(rest.take(end - start))) {
                Some(size) => seq![size],
                None => Seq::<u16>::empty(),
            };
            assert(sizes@ == before + head);
            assert(before + (head + sizes_in(chars@.skip(end as int + 1))) =~= (before + head)
                + sizes_in(chars@.skip(end as int + 1)));
        }
        start = end + 1;
    }
    sizes
}

/// The sizes to render a book in: those that the text lists, or the
/// default size alone where it lists none.
pub open spec fn book_sizes_of(text: Seq<char>) -> Seq<u16> {
    if sizes_in(text).len() == 0 {
        seq![DEFAULT_BOOK_SIZE]
    } else {
        sizes_in(text)
    }
}

/// The sizes to render a book in, read from the request.
pub fn book_sizes(value: &str) -> (sizes: Vec<u16>)
    ensures
        sizes@ == book_sizes_of(value@),
        sizes@.len() > 0,
{
    let mut sizes = parse_sizes(value);
    if sizes.len() == 0 {
        sizes.push(DEFAULT_BOOK_SIZE);
        proof {
            assert(sizes@ =~= seq![DEFAULT_BOOK_SIZE]);
        }
    }
    sizes
}

} // verus!
