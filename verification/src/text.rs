//! Character-level text operations with exact specifications over `Seq<char>`.
//!
//! Strings cross the library's boundary as `&str` and `String`; inside, the
//! logic works on `Vec<char>` so that every operation can be stated and proved
//! over the sequence of characters.

use vstd::prelude::*;

verus! {

broadcast use vstd::string::group_string_axioms;

/// `String::push`: the character is appended to the end of the string.
pub assume_specification[ String::push ](s: &mut String, c: char)
    ensures
        final(s)@ == old(s)@.push(c),
;

/// The lowercase form of a text, as `str::to_lowercase` computes it.
pub uninterp spec fn lowercase_of(s: Seq<char>) -> Seq<char>;

/// `str::to_lowercase`: the Unicode lowercase mapping of the whole string. The
/// mapping is a function of the text alone; the contract only gives it a name.
#[verifier::external_body]
pub(crate) fn to_lowercase(s: &str) -> (r: String)
    ensures
        r@ == lowercase_of(s@),
{
    s.to_lowercase()
}

/// Whether `c` has the Unicode `White_Space` property.
pub open spec fn is_whitespace(c: char) -> bool {
    let n = c as u32;
    ||| 0x09 <= n <= 0x0D
    ||| n == 0x20
    ||| n == 0x85
    ||| n == 0xA0
    ||| n == 0x1680
    ||| 0x2000 <= n <= 0x200A
    ||| n == 0x2028
    ||| n == 0x2029
    ||| n == 0x202F
    ||| n == 0x205F
    ||| n == 0x3000
}

/// Whether `c` is a control character (general category `Cc`).
pub open spec fn is_control(c: char) -> bool {
    let n = c as u32;
    n <= 0x1F || 0x7F <= n <= 0x9F
}

pub fn char_is_whitespace(c: char) -> (b: bool)
    ensures
        b == is_whitespace(c),
{
    let n: u32 = c as u32;
    (0x09 <= n && n <= 0x0D) || n == 0x20 || n == 0x85 || n == 0xA0 || n == 0x1680 || (0x2000 <= n
        && n <= 0x200A) || n == 0x2028 || n == 0x2029 || n == 0x202F || n == 0x205F || n == 0x3000
}

pub fn char_is_control(c: char) -> (b: bool)
    ensures
        b == is_control(c),
{
    let n: u32 = c as u32;
    n <= 0x1F || (0x7F <= n && n <= 0x9F)
}

/// A class of characters that can be stripped from the ends of a text.
#[derive(Clone, Copy, Debug)]
pub enum Strip {
    Whitespace,
    Char(char),
}

impl Strip {
    pub open spec fn takes(self, c: char) -> bool {
        match self {
            Strip::Whitespace => is_whitespace(c),
            Strip::Char(d) => c == d,
        }
    }

    pub fn test(&self, c: char) -> (b: bool)
        ensures
            b == self.takes(c),
    {
        match self {
            Strip::Whitespace => char_is_whitespace(c),
            Strip::Char(d) => c == *d,
        }
    }
}

/// `s` without its longest prefix of characters in `k`.
pub open spec fn strip_start(s: Seq<char>, k: Strip) -> Seq<char>
    decreases s.len(),
{
    if s.len() > 0 && k.takes(s[0]) {
        strip_start(s.drop_first(), k)
    } else {
        s
    }
}

/// `s` without its longest suffix of characters in `k`.
pub open spec fn strip_end(s: Seq<char>, k: Strip) -> Seq<char>
    decreases s.len(),
{
    if s.len() > 0 && k.takes(s.last()) {
        strip_end(s.drop_last(), k)
    } else {
        s
    }
}

/// `s` without the characters of `k` at either end.
pub open spec fn strip_both(s: Seq<char>, k: Strip) -> Seq<char> {
    strip_end(strip_start(s, k), k)
}

/// `s` without leading and trailing whitespace.
pub open spec fn trim(s: Seq<char>) -> Seq<char> {
    strip_both(s, Strip::Whitespace)
}

/// `s` with every leading repetition of the non-empty text `p` removed.
pub open spec fn strip_prefix_all(s: Seq<char>, p: Seq<char>) -> Seq<char>
    decreases s.len(),
{
    if p.len() > 0 && p.is_prefix_of(s) {
        strip_prefix_all(s.skip(p.len() as int), p)
    } else {
        s
    }
}

/// `s` with every trailing repetition of the non-empty text `p` removed.
pub open spec fn strip_suffix_all(s: Seq<char>, p: Seq<char>) -> Seq<char>
    decreases s.len(),
{
    if p.len() > 0 && p.is_suffix_of(s) {
        strip_suffix_all(s.take(s.len() - p.len()), p)
    } else {
        s
    }
}

/// Whether `p` occurs in `s` at position `i`.
pub open spec fn occurs_at(s: Seq<char>, p: Seq<char>, i: int) -> bool {
    0 <= i && i + p.len() <= s.len() && s.subrange(i, i + p.len()) == p
}

/// Whether `p` occurs somewhere in `s`.
pub open spec fn contains_text(s: Seq<char>, p: Seq<char>) -> bool {
    exists|i: int| occurs_at(s, p, i)
}

/// The position of the first element equal to `x`, or the length of `s` where
/// there is none.
pub open spec fn first_index<T>(s: Seq<T>, x: T) -> int
    decreases s.len(),
{
    if s.len() == 0 {
        0
    } else if s[0] == x {
        0
    } else {
        1 + first_index(s.drop_first(), x)
    }
}

/// The pieces of `s` between occurrences of `sep`. There is always at least
/// one piece, and pieces may be empty.
pub open spec fn split(s: Seq<char>, sep: char) -> Seq<Seq<char>>
    decreases s.len(),
{
    let i = first_index(s, sep);
    if i < 0 || i >= s.len() {
        seq![s]
    } else {
        seq![s.take(i)] + split(s.skip(i + 1), sep)
    }
}

pub proof fn lemma_first_index<T>(s: Seq<T>, x: T)
    ensures
        0 <= first_index(s, x) <= s.len(),
        first_index(s, x) < s.len() ==> s[first_index(s, x)] == x,
        forall|j: int| 0 <= j < first_index(s, x) ==> s[j] != x,
    decreases s.len(),
{
    if s.len() > 0 && s[0] != x {
        let t = s.drop_first();
        lemma_first_index(t, x);
        assert forall|j: int| 0 <= j < first_index(s, x) implies s[j] != x by {
            if j > 0 {
                assert(s[j] == t[j - 1]);
            }
        }
    }
}

/// The first position is determined by what stands there and before it.
pub proof fn lemma_first_index_is<T>(s: Seq<T>, x: T, i: int)
    requires
        0 <= i <= s.len(),
        forall|j: int| 0 <= j < i ==> s[j] != x,
        i < s.len() ==> s[i] == x,
    ensures
        first_index(s, x) == i,
{
    lemma_first_index(s, x);
}

/// The characters of `s`, in order.
pub fn chars_of(s: &str) -> (v: Vec<char>)
    ensures
        v@ == s@,
{
    let mut v: Vec<char> = Vec::new();
    for c in it: s.chars()
        invariant
            it.seq() == s@,
            v@ == s@.take(it.index() as int),
    {
        v.push(c);
        assert(s@.take(it.index() + 1) =~= s@.take(it.index()).push(c));
    }
    assert(s@.take(s@.len() as int) =~= s@);
    v
}

/// The string made of the characters of `v`, in order.
pub fn string_of(v: &Vec<char>) -> (s: String)
    ensures
        s@ == v@,
{
    let mut s = String::new();
    let mut i: usize = 0;
    while i < v.len()
        invariant
            i <= v.len(),
            s@ == v@.take(i as int),
        decreases v.len() - i,
    {
        s.push(v[i]);
        assert(v@.take(i + 1) =~= v@.take(i as int).push(v@[i as int]));
        i += 1;
    }
    assert(v@.take(v@.len() as int) =~= v@);
    s
}

/// The characters of `s` from `lo` up to `hi`.
pub fn slice_of(s: &Vec<char>, lo: usize, hi: usize) -> (v: Vec<char>)
    requires
        lo <= hi <= s.len(),
    ensures
        v@ == s@.subrange(lo as int, hi as int),
{
    let mut v: Vec<char> = Vec::new();
    let mut i: usize = lo;
    while i < hi
        invariant
            lo <= i <= hi <= s.len(),
            v@ == s@.subrange(lo as int, i as int),
        decreases hi - i,
    {
        v.push(s[i]);
        assert(s@.subrange(lo as int, i + 1) =~= s@.subrange(lo as int, i as int).push(s@[i as int]));
        i += 1;
    }
    v
}

/// `a` followed by `b`.
pub fn concat(a: &Vec<char>, b: &Vec<char>) -> (v: Vec<char>)
    ensures
        v@ == a@ + b@,
{
    let mut v: Vec<char> = Vec::new();
    let mut i: usize = 0;
    while i < a.len()
        invariant
            i <= a.len(),
            v@ == a@.take(i as int),
        decreases a.len() - i,
    {
        v.push(a[i]);
        assert(a@.take(i + 1) =~= a@.take(i as int).push(a@[i as int]));
        i += 1;
    }
    assert(a@.take(a@.len() as int) =~= a@);
    let mut j: usize = 0;
    while j < b.len()
        invariant
            j <= b.len(),
            v@ == a@ + b@.take(j as int),
        decreases b.len() - j,
    {
        v.push(b[j]);
        assert(a@ + b@.take(j + 1) =~= (a@ + b@.take(j as int)).push(b@[j as int]));
        j += 1;
    }
    assert(b@.take(b@.len() as int) =~= b@);
    v
}

/// Whether the two texts are the same.
pub fn same_text(a: &Vec<char>, b: &Vec<char>) -> (r: bool)
    ensures
        r == (a@ == b@),
{
    if a.len() != b.len() {
        return false;
    }
    let mut i: usize = 0;
    while i < a.len()
        invariant
            i <= a.len(),
            a.len() == b.len(),
            a@.take(i as int) == b@.take(i as int),
        decreases a.len() - i,
    {
        if a[i] != b[i] {
            return false;
        }
        assert(a@.take(i + 1) =~= a@.take(i as int).push(a@[i as int]));
        assert(b@.take(i + 1) =~= b@.take(i as int).push(b@[i as int]));
        i += 1;
    }
    assert(a@.take(a@.len() as int) =~= a@);
    assert(b@.take(b@.len() as int) =~= b@);
    true
}

/// Whether `p` stands in `s` at position `i`.
pub fn matches_at(s: &Vec<char>, p: &Vec<char>, i: usize) -> (r: bool)
    ensures
        r == occurs_at(s@, p@, i as int),
{
    if i > s.len() || p.len() > s.len() - i {
        return false;
    }
    let mut j: usize = 0;
    while j < p.len()
        invariant
            j <= p.len(),
            i + p.len() <= s.len(),
            s@.subrange(i as int, i + j) == p@.take(j as int),
        decreases p.len() - j,
    {
        if s[i + j] != p[j] {
            assert(s@.subrange(i as int, i + p.len())[j as int] != p@[j as int]);
            return false;
        }
        assert(s@.subrange(i as int, i + j + 1) =~= s@.subrange(i as int, i + j).push(
            s@[i + j],
        ));
        assert(p@.take(j + 1) =~= p@.take(j as int).push(p@[j as int]));
        j += 1;
    }
    assert(p@.take(p@.len() as int) =~= p@);
    true
}

/// Whether `s` begins with `p`.
pub fn starts_with(s: &Vec<char>, p: &Vec<char>) -> (r: bool)
    ensures
        r == p@.is_prefix_of(s@),
{
    matches_at(s, p, 0)
}

/// Whether `s` ends with `p`.
pub fn ends_with(s: &Vec<char>, p: &Vec<char>) -> (r: bool)
    ensures
        r == p@.is_suffix_of(s@),
{
    if p.len() > s.len() {
        return false;
    }
    matches_at(s, p, s.len() - p.len())
}

/// Whether `p` occurs somewhere in `s`.
pub fn contains(s: &Vec<char>, p: &Vec<char>) -> (r: bool)
    ensures
        r == contains_text(s@, p@),
{
    if p.len() > s.len() {
        return false;
    }
    let last: usize = s.len() - p.len();
    let mut i: usize = 0;
    while i < last
        invariant
            i <= last == s.len() - p.len(),
            forall|k: int| 0 <= k < i ==> !occurs_at(s@, p@, k),
        decreases last - i,
    {
        if matches_at(s, p, i) {
            return true;
        }
        i += 1;
    }
    matches_at(s, p, last)
}

/// Where the text of `s` between `lo` and `hi` begins once its leading
/// characters in `k` are removed.
pub fn skip_start(s: &Vec<char>, lo: usize, hi: usize, k: Strip) -> (r: usize)
    requires
        lo <= hi <= s.len(),
    ensures
        lo <= r <= hi,
        s@.subrange(r as int, hi as int) == strip_start(s@.subrange(lo as int, hi as int), k),
{
    let mut i: usize = lo;
    while i < hi && k.test(s[i])
        invariant
            lo <= i <= hi <= s.len(),
            strip_start(s@.subrange(i as int, hi as int), k) == strip_start(
                s@.subrange(lo as int, hi as int),
                k,
            ),
        decreases hi - i,
    {
        assert(s@.subrange(i as int, hi as int).drop_first() =~= s@.subrange(i + 1, hi as int));
        i += 1;
    }
    i
}

/// Where the text of `s` between `lo` and `hi` ends once its trailing
/// characters in `k` are removed.
pub fn skip_end(s: &Vec<char>, lo: usize, hi: usize, k: Strip) -> (r: usize)
    requires
        lo <= hi <= s.len(),
    ensures
        lo <= r <= hi,
        s@.subrange(lo as int, r as int) == strip_end(s@.subrange(lo as int, hi as int), k),
{
    let mut i: usize = hi;
    while i > lo && k.test(s[i - 1])
        invariant
            lo <= i <= hi <= s.len(),
            strip_end(s@.subrange(lo as int, i as int), k) == strip_end(
                s@.subrange(lo as int, hi as int),
                k,
            ),
        decreases i - lo,
    {
        assert(s@.subrange(lo as int, i as int).drop_last() =~= s@.subrange(lo as int, i - 1));
        i -= 1;
    }
    i
}

/// `s` without the characters of `k` at either end.
pub fn stripped(s: &Vec<char>, k: Strip) -> (v: Vec<char>)
    ensures
        v@ == strip_both(s@, k),
{
    let lo = skip_start(s, 0, s.len(), k);
    let hi = skip_end(s, lo, s.len(), k);
    assert(s@.subrange(0, s@.len() as int) =~= s@);
    slice_of(s, lo, hi)
}

/// `s` without the characters of `k` at its end.
pub fn stripped_end(s: &Vec<char>, k: Strip) -> (v: Vec<char>)
    ensures
        v@ == strip_end(s@, k),
{
    let hi = skip_end(s, 0, s.len(), k);
    assert(s@.subrange(0, s@.len() as int) =~= s@);
    slice_of(s, 0, hi)
}

/// `s` with every leading repetition of `p` removed.
pub fn without_prefix_all(s: &Vec<char>, p: &Vec<char>) -> (v: Vec<char>)
    ensures
        v@ == strip_prefix_all(s@, p@),
{
    let n: usize = s.len();
    let mut i: usize = 0;
    if p.len() > 0 {
        assert(s@.subrange(0, n as int) =~= s@);
        while matches_at(s, p, i)
            invariant
                i <= n == s.len(),
                p.len() > 0,
                strip_prefix_all(s@.subrange(i as int, n as int), p@) == strip_prefix_all(s@, p@),
            decreases n - i,
        {
            let ghost rest = s@.subrange(i as int, n as int);
            assert(rest.subrange(0, p@.len() as int) =~= s@.subrange(i as int, i + p.len()));
            assert(rest.skip(p@.len() as int) =~= s@.subrange(i + p.len(), n as int));
            i += p.len();
        }
        proof {
            let rest = s@.subrange(i as int, n as int);
            if p@.is_prefix_of(rest) {
                assert(rest.subrange(0, p@.len() as int) =~= s@.subrange(i as int, i + p.len()));
            }
        }
    }
    assert(s@.subrange(0, n as int) =~= s@);
    slice_of(s, i, n)
}

/// `s` with every trailing repetition of `p` removed.
pub fn without_suffix_all(s: &Vec<char>, p: &Vec<char>) -> (v: Vec<char>)
    ensures
        v@ == strip_suffix_all(s@, p@),
{
    let mut hi: usize = s.len();
    if p.len() > 0 {
        assert(s@.subrange(0, hi as int) =~= s@);
        while hi >= p.len() && matches_at(s, p, hi - p.len())
            invariant
                hi <= s.len(),
                p.len() > 0,
                strip_suffix_all(s@.subrange(0, hi as int), p@) == strip_suffix_all(s@, p@),
            decreases hi,
        {
            let ghost rest = s@.subrange(0, hi as int);
            assert(rest.subrange(rest.len() - p@.len(), rest.len() as int) =~= s@.subrange(
                hi - p.len(),
                hi as int,
            ));
            assert(rest.take(rest.len() - p@.len()) =~= s@.subrange(0, hi - p.len()));
            hi -= p.len();
        }
        proof {
            let rest = s@.subrange(0, hi as int);
            if p@.is_suffix_of(rest) {
                assert(rest.subrange(rest.len() - p@.len(), rest.len() as int) =~= s@.subrange(
                    hi - p.len(),
                    hi as int,
                ));
            }
        }
    }
    slice_of(s, 0, hi)
}

/// The view of a list of texts.
pub open spec fn texts(v: Seq<Vec<char>>) -> Seq<Seq<char>> {
    v.map_values(|p: Vec<char>| p@)
}

/// The pieces of `s` between occurrences of `sep`.
pub fn split_on(s: &Vec<char>, sep: char) -> (pieces: Vec<Vec<char>>)
    ensures
        texts(pieces@) == split(s@, sep),
{
    let n: usize = s.len();
    let mut pieces: Vec<Vec<char>> = Vec::new();
    let mut start: usize = 0;
    let mut i: usize = 0;
    assert(s@.skip(0) =~= s@);
    assert(texts(pieces@) + split(s@.skip(0), sep) =~= split(s@, sep));
    while i < n
        invariant
            start <= i <= n == s.len(),
            texts(pieces@) + split(s@.skip(start as int), sep) == split(s@, sep),
            forall|j: int| start <= j < i ==> s@[j] != sep,
        decreases n - i,
    {
        if s[i] == sep {
            let piece = slice_of(s, start, i);
            proof {
                let rest = s@.skip(start as int);
                lemma_first_index_is(rest, sep, i - start);
                assert(rest.take(i - start) =~= piece@);
                assert(rest.skip(i - start + 1) =~= s@.skip(i + 1));
                assert(texts(pieces@.push(piece)) =~= texts(pieces@) + seq![piece@]);
            }
            pieces.push(piece);
            start = i + 1;
        }
        i += 1;
    }
    let piece = slice_of(s, start, n);
    proof {
        let rest = s@.skip(start as int);
        lemma_first_index_is(rest, sep, n - start);
        assert(rest =~= piece@);
        assert(texts(pieces@.push(piece)) =~= texts(pieces@) + seq![piece@]);
    }
    pieces.push(piece);
    pieces
}

/// Whether `s` is exactly the text `lit`.
pub fn text_is(s: &Vec<char>, lit: &str) -> (r: bool)
    ensures
        r == (s@ == lit@),
{
    let l = chars_of(lit);
    same_text(s, &l)
}

/// Whether the string `s` begins with the text `p`.
pub fn str_starts_with(s: &str, p: &str) -> (r: bool)
    ensures
        r == p@.is_prefix_of(s@),
{
    starts_with(&chars_of(s), &chars_of(p))
}

/// Whether the string `s` ends with the text `p`.
pub fn str_ends_with(s: &str, p: &str) -> (r: bool)
    ensures
        r == p@.is_suffix_of(s@),
{
    ends_with(&chars_of(s), &chars_of(p))
}

/// The string `a` followed by the string `b`.
pub fn str_concat(a: &str, b: &str) -> (r: String)
    ensures
        r@ == a@ + b@,
{
    string_of(&concat(&chars_of(a), &chars_of(b)))
}

/// The lowercase form of a text given as characters.
pub fn lowercase(s: &Vec<char>) -> (r: Vec<char>)
    ensures
        r@ == lowercase_of(s@),
{
    let text = string_of(s);
    let lower = to_lowercase(text.as_str());
    chars_of(lower.as_str())
}

/// `p` without one carriage return at its end.
pub open spec fn strip_cr(p: Seq<char>) -> Seq<char> {
    if p.len() > 0 && p.last() == '\r' {
        p.drop_last()
    } else {
        p
    }
}

/// The lines of `s`. A line ends at a line feed; a carriage return just
/// before the line feed belongs to the line ending. The last line needs no
/// line ending, and there is no empty line after the last line ending.
pub open spec fn lines(s: Seq<char>) -> Seq<Seq<char>> {
    let pieces = split(s, '\n');
    let count = if pieces.last().len() == 0 {
        pieces.len() - 1
    } else {
        pieces.len() as int
    };
    Seq::new(
        count as nat,
        |i: int|
            if i < pieces.len() - 1 {
                strip_cr(pieces[i])
            } else {
                pieces[i]
            },
    )
}

/// There is always at least one piece.
pub proof fn lemma_split_nonempty(s: Seq<char>, sep: char)
    ensures
        split(s, sep).len() >= 1,
    decreases s.len(),
{
    let i = first_index(s, sep);
    if !(i < 0 || i >= s.len()) {
        lemma_split_nonempty(s.skip(i + 1), sep);
    }
}

/// The lines of `s`: see [`lines`].
pub fn lines_of(s: &Vec<char>) -> (r: Vec<Vec<char>>)
    ensures
        texts(r@) == lines(s@),
{
    let pieces = split_on(s, '\n');
    proof {
        lemma_split_nonempty(s@, '\n');
        assert(texts(pieces@).len() == pieces@.len());
    }
    let n: usize = pieces.len();
    let count: usize = if pieces[n - 1].len() == 0 {
        n - 1
    } else {
        n
    };
    let mut r: Vec<Vec<char>> = Vec::new();
    let mut i: usize = 0;
    while i < count
        invariant
            i <= count <= n == pieces@.len(),
            n >= 1,
            texts(pieces@) == split(s@, '\n'),
            r@.len() == i,
            forall|j: int|
                0 <= j < i ==> #[trigger] r@[j]@ == (if j < n - 1 {
                    strip_cr(pieces@[j]@)
                } else {
                    pieces@[j]@
                }),
        decreases count - i,
    {
        let piece = &pieces[i];
        let m: usize = piece.len();
        let line = if i < n - 1 && m > 0 && piece[m - 1] == '\r' {
            assert(piece@.subrange(0, m - 1) =~= piece@.drop_last());
            slice_of(piece, 0, m - 1)
        } else {
            assert(piece@.subrange(0, m as int) =~= piece@);
            slice_of(piece, 0, m)
        };
        r.push(line);
        i += 1;
    }
    proof {
        let p = texts(pieces@);
        assert(p.last() == pieces@[n - 1]@);
        assert forall|j: int| 0 <= j < count implies texts(r@)[j] == lines(s@)[j] by {
            assert(p[j] == pieces@[j]@);
        }
        assert(texts(r@) =~= lines(s@));
    }
    r
}

/// The character for a digit below ten.
pub open spec fn digit_char(d: int) -> char {
    seq!['0', '1', '2', '3', '4', '5', '6', '7', '8', '9'][d]
}

/// The decimal numeral of `n`, without leading zeros.
pub open spec fn decimal(n: nat) -> Seq<char>
    decreases n,
{
    if n < 10 {
        seq![digit_char(n as int)]
    } else {
        decimal(n / 10).push(digit_char((n % 10) as int))
    }
}

fn digit_of(d: u64) -> (c: char)
    requires
        d < 10,
    ensures
        c == digit_char(d as int),
{
    if d == 0 {
        '0'
    } else if d == 1 {
        '1'
    } else if d == 2 {
        '2'
    } else if d == 3 {
        '3'
    } else if d == 4 {
        '4'
    } else if d == 5 {
        '5'
    } else if d == 6 {
        '6'
    } else if d == 7 {
        '7'
    } else if d == 8 {
        '8'
    } else {
        '9'
    }
}

/// The decimal numeral of `n`: see [`decimal`].
pub fn decimal_of(n: u64) -> (r: Vec<char>)
    ensures
        r@ == decimal(n as nat),
    decreases n,
{
    if n < 10 {
        let mut r: Vec<char> = Vec::new();
        r.push(digit_of(n));
        assert(r@ =~= seq![digit_char(n as int)]);
        r
    } else {
        let mut r = decimal_of(n / 10);
        r.push(digit_of(n % 10));
        r
    }
}

} // verus!
