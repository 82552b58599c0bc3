//! Text as sequences of characters: the predicates and cuts that the rest of
//! the library is stated over, each with an executable counterpart working on
//! a vector of characters.

use vstd::prelude::*;

verus! {

/// Trusted: `String::push` appends the character to the end of the string
/// and changes nothing else.
pub assume_specification[ String::push ](s: &mut String, ch: char)
    ensures
        final(s)@ == old(s)@.push(ch),
;

/// The name of what `str::to_lowercase` returns for a text: its lowercase
/// form under the Unicode case mapping that the standard library carries.
pub uninterp spec fn lowercase_of(text: Seq<char>) -> Seq<char>;

/// Trusted: calls `str::to_lowercase`. The result is a function of the text
/// alone; the contract only gives it its name.
#[verifier::external_body]
pub(crate) fn to_lowercase(text: &str) -> (lower: String)
    ensures
        lower@ == lowercase_of(text@),
{
    text.to_lowercase()
}

/// The characters of a string, in order.
pub fn chars_of(text: &str) -> (chars: Vec<char>)
    ensures
        chars@ == text@,
{
    let mut chars: Vec<char> = Vec::new();
    for c in it: text.chars()
        invariant
            chars@ == it.history(),
            it.seq() == text@,
    {
        chars.push(c);
    }
    chars
}

/// The string made of `chars[from..to]`.
pub(crate) fn string_of(chars: &Vec<char>, from: usize, to: usize) -> (text: String)
    requires
        from <= to <= chars.len(),
    ensures
        text@ == chars@.subrange(from as int, to as int),
{
    let mut text = String::new();
    let mut i: usize = from;
    while i < to
        invariant
            from <= i <= to <= chars.len(),
            text@ == chars@.subrange(from as int, i as int),
        decreases to - i,
    {
        text.push(chars[i]);
        proof {
            assert(chars@.subrange(from as int, i as int + 1) =~= chars@.subrange(
                from as int,
                i as int,
            ).push(chars@[i as int]));
        }
        i += 1;
    }
    text
}

/// Whether `chars` spells `literal`.
pub fn spells(chars: &Vec<char>, literal: &str) -> (same: bool)
    ensures
        same == (chars@ == literal@),
{
    let lit = chars_of(literal);
    if chars.len() != lit.len() {
        return false;
    }
    let mut i: usize = 0;
    while i < chars.len()
        invariant
            i <= chars.len(),
            chars.len() == lit.len(),
            lit@ == literal@,
            forall|j: int| 0 <= j < i ==> chars@[j] == lit@[j],
        decreases chars.len() - i,
    {
        if chars[i] != lit[i] {
            return false;
        }
        i += 1;
    }
    proof {
        assert(chars@ =~= lit@);
    }
    true
}

/// Whether two strings hold the same characters.
pub fn same_text(a: &str, b: &str) -> (same: bool)
    ensures
        same == (a@ == b@),
{
    let x = chars_of(a);
    spells(&x, b)
}

/// The white space of Unicode: the characters that it marks `White_Space`.
pub open spec fn is_white_space(c: char) -> bool {
    let n = c as u32;
    ||| 0x09 <= n <= 0x0D
    ||| n == 0x20
    ||| n == 0x85
    ||| n == 0xA0
    ||| n == 0x1680
    ||| 0x2000 <= n <= 0x200A
    ||| n == 0x2028
    ||| n == 0x2029
    ||| n == 0x202F
    ||| n == 0x205F
    ||| n == 0x3000
}

/// Whether `c` is white space.
pub fn is_white_space_char(c: char) -> (white: bool)
    ensures
        white == is_white_space(c),
{
    let n: u32 = c as u32;
    (0x09 <= n && n <= 0x0D) || n == 0x20 || n == 0x85 || n == 0xA0 || n == 0x1680 || (0x2000 <= n
        && n <= 0x200A) || n == 0x2028 || n == 0x2029 || n == 0x202F || n == 0x205F || n == 0x3000
}

/// `s` without its leading white space.
pub open spec fn trim_start(s: Seq<char>) -> Seq<char>
    decreases s.len(),
{
    if s.len() > 0 && is_white_space(s[0]) {
        trim_start(s.skip(1))
    } else {
        s
    }
}

/// `s` without its trailing white space.
pub open spec fn trim_end(s: Seq<char>) -> Seq<char>
    decreases s.len(),
{
    if s.len() > 0 && is_white_space(s.last()) {
        trim_end(s.drop_last())
    } else {
        s
    }
}

/// `s` without leading and trailing white space.
pub open spec fn trimmed(s: Seq<char>) -> Seq<char> {
    trim_end(trim_start(s))
}

/// Where the leading white space of `s` ends: `trim_start` drops exactly
/// the white space before the first character that is none.
pub proof fn lemma_trim_start(s: Seq<char>) -> (a: int)
    ensures
        0 <= a <= s.len(),
        trim_start(s) == s.skip(a),
        a < s.len() ==> !is_white_space(s[a]),
        forall|i: int| 0 <= i < a ==> is_white_space(s[i]),
    decreases s.len(),
{
    if s.len() > 0 && is_white_space(s[0]) {
        let rest = s.skip(1);
        let inner = lemma_trim_start(rest);
        assert(rest.skip(inner) =~= s.skip(inner + 1));
        assert forall|i: int| 0 <= i < inner + 1 implies is_white_space(s[i]) by {
            if i > 0 {
                assert(rest[i - 1] == s[i]);
            }
        }
        if inner < rest.len() {
            assert(rest[inner] == s[inner + 1]);
        }
        inner + 1
    } else {
        assert(s.skip(0) =~= s);
        0
    }
}

/// Where the trailing white space of `s` begins: `trim_end` drops exactly
/// the white space after the last character that is none.
pub proof fn lemma_trim_end(s: Seq<char>) -> (b: int)
    ensures
        0 <= b <= s.len(),
        trim_end(s) == s.take(b),
        b > 0 ==> !is_white_space(s[b - 1]),
        forall|i: int| b <= i < s.len() ==> is_white_space(s[i]),
    decreases s.len(),
{
    if s.len() > 0 && is_white_space(s.last()) {
        let rest = s.drop_last();
        let inner = lemma_trim_end(rest);
        assert(rest.take(inner) =~= s.take(inner));
        assert forall|i: int| inner <= i < s.len() implies is_white_space(s[i]) by {
            if i < rest.len() {
                assert(rest[i] == s[i]);
            }
        }
        if inner > 0 {
            assert(rest[inner - 1] == s[inner - 1]);
        }
        inner
    } else {
        assert(s.take(s.len() as int) =~= s);
        s.len() as int
    }
}

/// A trimmed text is the stretch of the text from its first character that
/// is no white space to its last: all that is cut is white space, and what
/// is left neither begins nor ends with white space.
pub proof fn lemma_trimmed(s: Seq<char>) -> (cut: (int, int))
    ensures
        0 <= cut.0 <= cut.1 <= s.len(),
        trimmed(s) == s.subrange(cut.0, cut.1),
        forall|i: int| 0 <= i < cut.0 || cut.1 <= i < s.len() ==> is_white_space(s[i]),
        cut.0 < cut.1 ==> !is_white_space(s[cut.0]) && !is_white_space(s[cut.1 - 1]),
        trimmed(s).len() > 0 ==> !is_white_space(trimmed(s)[0]) && !is_white_space(
            trimmed(s).last(),
        ),
{
    let a = lemma_trim_start(s);
    let tail = s.skip(a);
    let b = lemma_trim_end(tail);
    assert(tail.take(b) =~= s.subrange(a, a + b));
    assert forall|i: int| 0 <= i < a || a + b <= i < s.len() implies is_white_space(s[i]) by {
        if i >= a + b {
            assert(tail[i - a] == s[i]);
        }
    }
    if b > 0 {
        assert(tail[b - 1] == s[a + b - 1]);
        assert(tail[0] == s[a]);
    }
    (a, a + b)
}

/// The bounds of `chars[from..to]` once white space is cut from both ends.
pub(crate) fn trim_bounds(chars: &Vec<char>, from: usize, to: usize) -> (cut: (usize, usize))
    requires
        from <= to <= chars.len(),
    ensures
        from <= cut.0 <= cut.1 <= to,
        chars@.subrange(cut.0 as int, cut.1 as int) == trimmed(
            chars@.subrange(from as int, to as int),
        ),
{
    let ghost whole = chars@.subrange(from as int, to as int);
    let mut a: usize = from;
    while a < to && is_white_space_char(chars[a])
        invariant
            from <= a <= to <= chars.len(),
            trim_start(whole) == trim_start(chars@.subrange(a as int, to as int)),
        decreases to - a,
    {
        proof {
            assert(chars@.subrange(a as int, to as int).skip(1) =~= chars@.subrange(
                a as int + 1,
                to as int,
            ));
        }
        a += 1;
    }
    let ghost tail = chars@.subrange(a as int, to as int);
    assert(trim_start(whole) == tail);
    let mut b: usize = to;
    while b > a && is_white_space_char(chars[b - 1])
        invariant
            a <= b <= to <= chars.len(),
            trim_end(tail) == trim_end(chars@.subrange(a as int, b as int)),
        decreases b,
    {
        proof {
            assert(chars@.subrange(a as int, b as int).drop_last() =~= chars@.subrange(
                a as int,
                b as int - 1,
            ));
        }
        b -= 1;
    }
    (a, b)
}

/// Whether `pat` stands at the start of `chars[from..to]`.
pub(crate) fn starts_with_at(chars: &Vec<char>, from: usize, to: usize, pat: &Vec<char>) -> (found: bool)
    requires
        from <= to <= chars.len(),
    ensures
        found == pat@.is_prefix_of(chars@.subrange(from as int, to as int)),
{
    let ghost window = chars@.subrange(from as int, to as int);
    if pat.len() > to - from {
        return false;
    }
    let mut k: usize = 0;
    while k < pat.len()
        invariant
            k <= pat.len() <= to - from,
            from <= to <= chars.len(),
            window == chars@.subrange(from as int, to as int),
            forall|j: int| 0 <= j < k ==> pat@[j] == window[j],
        decreases pat.len() - k,
    {
        if pat[k] != chars[from + k] {
            proof {
                assert(window.subrange(0, pat@.len() as int)[k as int] == window[k as int]);
            }
            return false;
        }
        k += 1;
    }
    proof {
        assert(pat@ =~= window.subrange(0, pat@.len() as int));
    }
    true
}

/// Whether `pat` stands at the end of `chars[from..to]`.
pub(crate) fn ends_with_at(chars: &Vec<char>, from: usize, to: usize, pat: &Vec<char>) -> (found: bool)
    requires
        from <= to <= chars.len(),
    ensures
        found == pat@.is_suffix_of(chars@.subrange(from as int, to as int)),
{
    let ghost window = chars@.subrange(from as int, to as int);
    if pat.len() > to - from {
        return false;
    }
    let base: usize = to - pat.len();
    let ghost lead = window.len() - pat@.len();
    let mut k: usize = 0;
    while k < pat.len()
        invariant
            k <= pat.len() <= to - from,
            from <= to <= chars.len(),
            base == to - pat.len(),
            lead == window.len() - pat@.len(),
            window == chars@.subrange(from as int, to as int),
            forall|j: int| 0 <= j < k ==> pat@[j] == window[lead + j],
        decreases pat.len() - k,
    {
        if pat[k] != chars[base + k] {
            proof {
                assert(window.subrange(lead, window.len() as int)[k as int] == window[lead + k]);
            }
            return false;
        }
        k += 1;
    }
    proof {
        assert(pat@ =~= window.subrange(lead, window.len() as int));
    }
    true
}

/// A directory and a name put together as a path: the name alone where it
/// is absolute, else the directory, a `/` unless the directory is empty or
/// ends in one, and the name.
pub open spec fn joined(dir: Seq<char>, name: Seq<char>) -> Seq<char> {
    if name.len() > 0 && name[0] == '/' {
        name
    } else if dir.len() == 0 || dir.last() == '/' {
        dir + name
    } else {
        dir.push('/') + name
    }
}

/// The path of `name` under `dir`.
pub fn join_path(dir: &str, name: &str) -> (path: String)
    ensures
        path@ == joined(dir@, name@),
{
    let d = chars_of(dir);
    let n = chars_of(name);
    let mut out: Vec<char> = Vec::new();
    if !(n.len() > 0 && n[0] == '/') {
        let mut i: usize = 0;
        while i < d.len()
            invariant
                i <= d.len(),
                out@ == d@.take(i as int),
            decreases d.len() - i,
        {
            out.push(d[i]);
            proof {
                assert(d@.take(i as int + 1) =~= d@.take(i as int).push(d@[i as int]));
            }
            i += 1;
        }
        proof {
            assert(d@.take(d.len() as int) =~= d@);
        }
        if d.len() > 0 && d[d.len() - 1] != '/' {
            out.push('/');
        }
    }
    let ghost head = out@;
    let mut j: usize = 0;
    while j < n.len()
        invariant
            j <= n.len(),
            out@ == head + n@.take(j as int),
        decreases n.len() - j,
    {
        out.push(n[j]);
        proof {
            assert(n@.take(j as int + 1) =~= n@.take(j as int).push(n@[j as int]));
            assert(head + n@.take(j as int + 1) =~= (head + n@.take(j as int)).push(n@[j as int]));
        }
        j += 1;
    }
    proof {
        assert(n@.take(n.len() as int) =~= n@);
        assert(Seq::<char>::empty() + n@ =~= n@);
    }
    string_of(&out, 0, out.len())
}

} // verus!
