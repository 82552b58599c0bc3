//! File names offered to a client: a name asked for in a request is
//! cleaned before it is used, and every binary answer carries its name in
//! a `Content-Disposition` header.

use vstd::prelude::*;
use crate::text::{
    chars_of, lemma_trimmed, string_of, trim_bounds, trim_end, trim_start, trimmed,
};

verus! {

/// The characters that a file name may keep: ASCII letters and digits,
/// `.`, `_`, `-` and the space.
pub open spec fn is_kept(c: char) -> bool {
    let n = c as u32;
    ||| 0x30 <= n <= 0x39
    ||| 0x41 <= n <= 0x5A
    ||| 0x61 <= n <= 0x7A
    ||| c == '.'
    ||| c == '_'
    ||| c == '-'
    ||| c == ' '
}

/// Whether a file name may keep `c`.
pub fn is_kept_char(c: char) -> (keep: bool)
    ensures
        keep == is_kept(c),
{
    let n: u32 = c as u32;
    (0x30 <= n && n <= 0x39) || (0x41 <= n && n <= 0x5A) || (0x61 <= n && n <= 0x7A) || c == '.'
        || c == '_' || c == '-' || c == ' '
}

/// `is_kept` as a predicate.
pub open spec fn kept_chars() -> spec_fn(char) -> bool {
    |c: char| is_kept(c)
}

/// The clean form of a name, or `fallback` where nothing of the name is
/// left: the name is taken without the white space around it, then without
/// any character that a file name may not keep, then again without the
/// white space around it.
pub open spec fn sanitized(name: Seq<char>, fallback: Seq<char>) -> Seq<char> {
    let clean = trimmed(trimmed(name).filter(kept_chars()));
    if clean.len() == 0 {
        fallback
    } else {
        clean
    }
}

/// A cleaned name is either the fallback, or it is not empty, holds only
/// characters that a file name may keep, and neither begins nor ends with
/// a space.
pub proof fn lemma_sanitized_is_clean(name: Seq<char>, fallback: Seq<char>)
    ensures
        sanitized(name, fallback) == fallback || {
            let clean = sanitized(name, fallback);
            &&& clean.len() > 0
            &&& forall|i: int| 0 <= i < clean.len() ==> is_kept(#[trigger] clean[i])
            &&& clean[0] != ' '
            &&& clean.last() != ' '
        },
{
    let kept = trimmed(name).filter(kept_chars());
    let clean = trimmed(kept);
    if clean.len() > 0 {
        let (a, b) = lemma_trimmed(kept);
        assert forall|i: int| 0 <= i < clean.len() implies is_kept(#[trigger] clean[i]) by {
            assert(clean[i] == kept[a + i]);
            trimmed(name).lemma_filter_pred(kept_chars(), a + i);
        }
    }
}

/// A name without white space around it that holds only characters that
/// may be kept is left as it is.
pub proof fn lemma_clean_name_is_unchanged(name: Seq<char>, fallback: Seq<char>)
    requires
        name.len() > 0,
        forall|i: int| 0 <= i < name.len() ==> is_kept(#[trigger] name[i]),
        name[0] != ' ',
        name.last() != ' ',
    ensures
        sanitized(name, fallback) == name,
{
    assert(is_kept(name[0]));
    assert(is_kept(name[name.len() - 1]));
    assert(trim_start(name) == name);
    assert(trim_end(name) == name);
    lemma_filter_keeps_all(name);
}

/// Filtering a text that holds only characters to keep changes nothing.
proof fn lemma_filter_keeps_all(s: Seq<char>)
    requires
        forall|i: int| 0 <= i < s.len() ==> is_kept(#[trigger] s[i]),
    ensures
        s.filter(kept_chars()) == s,
    decreases s.len(),
{
    reveal(Seq::filter);
    if s.len() > 0 {
        let shorter = s.drop_last();
        assert forall|i: int| 0 <= i < shorter.len() implies is_kept(#[trigger] shorter[i]) by {
            assert(shorter[i] == s[i]);
        }
        lemma_filter_keeps_all(shorter);
        assert(is_kept(s[s.len() - 1]));
        assert(shorter.push(s.last()) =~= s);
    }
}

/// Cleans a file name that a request asked for. The result is `fallback`
/// where the name is empty or holds nothing that may be kept.
pub fn sanitize_filename(name: &str, fallback: &str) -> (clean: String)
    ensures
        clean@ == sanitized(name@, fallback@),
{
    let chars = chars_of(name);
    proof {
        assert(chars@.subrange(0, chars@.len() as int) =~= chars@);
    }
    let (a, b) = trim_bounds(&chars, 0, chars.len());
    let ghost inner = chars@.subrange(a as int, b as int);
    let mut kept: Vec<char> = Vec::new();
    let mut i: usize = a;
    proof {
        reveal(Seq::filter);
        assert(chars@.subrange(a as int, a as int) =~= Seq::<char>::empty());
    }
    while i < b
        invariant
            a <= i <= b <= chars.len(),
            kept@ == chars@.subrange(a as int, i as int).filter(kept_chars()),
        decreases b - i,
    {
        proof {
            reveal(Seq::filter);
            let longer = chars@.subrange(a as int, i as int + 1);
            assert(longer.drop_last() =~= chars@.subrange(a as int, i as int));
            assert(longer.last() == chars@[i as int]);
        }
        if is_kept_char(chars[i]) {
            kept.push(chars[i]);
        }
        i += 1;
    }
    proof {
        assert(kept@.subrange(0, kept@.len() as int) =~= kept@);
    }
    let (c, d) = trim_bounds(&kept, 0, kept.len());
    if c == d {
        fallback.to_owned()
    } else {
        string_of(&kept, c, d)
    }
}

/// The name under which a converted file is offered: the cleaned form of
/// the name asked for, or `fallback` where none was asked for.
pub open spec fn output_name_of(requested: Option<Seq<char>>, fallback: Seq<char>) -> Seq<char> {
    match requested {
        Some(name) => sanitized(name, fallback),
        None => fallback,
    }
}

/// The view of a name that may be absent.
pub open spec fn name_view(name: Option<&str>) -> Option<Seq<char>> {
    match name {
        Some(n) => Some(n@),
        None => None,
    }
}

/// The name under which a converted file is offered.
pub fn output_filename(requested: Option<&str>, fallback: &str) -> (name: String)
    ensures
        name@ == output_name_of(name_view(requested), fallback@),
{
    match requested {
        Some(asked) => sanitize_filename(asked, fallback),
        None => fallback.to_owned(),
    }
}

/// The name of a converted image where the request gives none.
pub open spec fn image_fallback() -> Seq<char> {
    "converted.tri"@
}

/// The name of a converted book where the request gives none.
pub open spec fn book_fallback() -> Seq<char> {
    "converted.trbk"@
}

/// The name under which a converted image is offered.
pub fn image_output_name(requested: Option<&str>) -> (name: String)
    ensures
        name@ == output_name_of(name_view(requested), image_fallback()),
{
    output_filename(requested, "converted.tri")
}

/// The name under which a converted book is offered.
pub fn book_output_name(requested: Option<&str>) -> (name: String)
    ensures
        name@ == output_name_of(name_view(requested), book_fallback()),
{
    output_filename(requested, "converted.trbk")
}

/// The value of the `Content-Disposition` header for a file name.
pub open spec fn disposition_of(file_name: Seq<char>) -> Seq<char> {
    "attachment; filename="@ + file_name
}

/// The value of the `Content-Disposition` header that offers a binary
/// answer as an attachment named `file_name`.
pub fn content_disposition(file_name: &str) -> (value: String)
    ensures
        value@ == disposition_of(file_name@),
{
    let name = chars_of(file_name);
    let mut value = "attachment; filename=".to_string();
    let ghost head = value@;
    let mut i: usize = 0;
    proof {
        assert(head + name@.take(0) =~= head);
    }
    while i < name.len()
        invariant
            i <= name.len(),
            value@ == head + name@.take(i as int),
        decreases name.len() - i,
    {
        value.push(name[i]);
        proof {
            assert(head + name@.take(i as int + 1) =~= (head + name@.take(i as int)).push(
                name@[i as int],
            ));
        }
        i += 1;
    }
    proof {
        assert(name@.take(name.len() as int) =~= name@);
    }
    value
}

} // verus!
