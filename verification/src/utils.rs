//! File names that are safe to create on any file system.

use crate::text::{
    char_is_control, chars_of, is_control, skip_end, skip_start, slice_of, string_of, strip_both,
    trim, Strip,
};
use vstd::prelude::*;

verus! {

broadcast use vstd::string::group_string_axioms;

/// Characters that separate path components or that common file systems
/// refuse in a name.
pub open spec fn is_reserved(c: char) -> bool {
    c == '/' || c == '\\' || c == ':' || c == '*' || c == '?' || c == '"' || c == '<' || c == '>'
        || c == '|'
}

/// What stands in a sanitized name in place of `c`.
pub open spec fn clean_char(c: char) -> char {
    if is_reserved(c) || is_control(c) {
        '_'
    } else {
        c
    }
}

/// The name given to what would otherwise have no name at all.
pub open spec fn fallback_name() -> Seq<char> {
    seq!['u', 'n', 'n', 'a', 'm', 'e', 'd']
}

/// `name` with each character replaced by what stands for it.
pub open spec fn cleaned_chars(name: Seq<char>) -> Seq<char> {
    Seq::new(name.len(), |i: int| clean_char(name[i]))
}

/// The sanitized form of `name`: reserved and control characters become `_`,
/// surrounding whitespace and then surrounding dots are dropped, and an empty
/// result becomes the fallback name.
pub open spec fn sanitized(name: Seq<char>) -> Seq<char> {
    let cleaned = cleaned_chars(name);
    let trimmed = strip_both(trim(cleaned), Strip::Char('.'));
    if trimmed.len() == 0 {
        fallback_name()
    } else {
        trimmed
    }
}

/// Whether a name can be used as a single path component as it stands.
pub open spec fn is_safe_name(name: Seq<char>) -> bool {
    &&& name.len() > 0
    &&& forall|i: int| 0 <= i < name.len() ==> !is_reserved(name[i]) && !is_control(name[i])
}

fn char_is_reserved(c: char) -> (b: bool)
    ensures
        b == is_reserved(c),
{
    c == '/' || c == '\\' || c == ':' || c == '*' || c == '?' || c == '"' || c == '<' || c == '>'
        || c == '|'
}

/// The fallback name as characters.
pub fn fallback_chars() -> (v: Vec<char>)
    ensures
        v@ == fallback_name(),
{
    proof {
        reveal_strlit("unnamed");
    }
    let v = chars_of("unnamed");
    assert(v@ =~= fallback_name());
    v
}

/// Sanitizes a name given as characters.
pub fn sanitize_chars(name: &Vec<char>) -> (r: Vec<char>)
    ensures
        r@ == sanitized(name@),
        is_safe_name(r@),
{
    let mut cleaned: Vec<char> = Vec::new();
    let mut i: usize = 0;
    while i < name.len()
        invariant
            i <= name.len(),
            cleaned@ == cleaned_chars(name@.take(i as int)),
        decreases name.len() - i,
    {
        let c = name[i];
        let d = if char_is_reserved(c) || char_is_control(c) {
            '_'
        } else {
            c
        };
        cleaned.push(d);
        assert(cleaned_chars(name@.take(i + 1)) =~= cleaned_chars(name@.take(i as int)).push(d));
        i += 1;
    }
    assert(name@.take(name@.len() as int) =~= name@);
    assert(forall|j: int|
        0 <= j < cleaned@.len() ==> !is_reserved(#[trigger] cleaned@[j]) && !is_control(
            cleaned@[j],
        ));
    let n: usize = cleaned.len();
    assert(cleaned@.subrange(0, n as int) =~= cleaned@);
    let a = skip_start(&cleaned, 0, n, Strip::Whitespace);
    let b = skip_end(&cleaned, a, n, Strip::Whitespace);
    let lo = skip_start(&cleaned, a, b, Strip::Char('.'));
    let hi = skip_end(&cleaned, lo, b, Strip::Char('.'));
    if lo == hi {
        assert(cleaned@.subrange(lo as int, hi as int).len() == 0);
        fallback_chars()
    } else {
        slice_of(&cleaned, lo, hi)
    }
}

/// Turns `name` into a file name that is safe to create: see [`sanitized`].
/// The result is never empty and holds no reserved or control character.
pub fn sanitize_filename(name: &str) -> (r: String)
    ensures
        r@ == sanitized(name@),
        is_safe_name(r@),
{
    let chars = chars_of(name);
    let clean = sanitize_chars(&chars);
    string_of(&clean)
}

} // verus!
