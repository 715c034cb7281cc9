//! Keywords that mark mods as client-only: read from a properties file,
//! cached as one keyword per line, and matched against mod names.

use crate::models::views;
use crate::text::{
    chars_of, concat, contains, contains_text, lines, lines_of, lowercase,
    lowercase_of, split, split_on, starts_with, string_of, strip_both, strip_end, stripped,
    stripped_end, texts, trim, Strip,
};
use vstd::prelude::*;

verus! {

broadcast use vstd::string::group_string_axioms;

/// The property whose value is the list of keywords.
pub open spec fn list_key() -> Seq<char> {
    "de.griefed.serverpackcreator.configuration.fallbackmodslist="@
}

/// Whether a trimmed line says that the list goes on in the next line.
pub open spec fn continues(line: Seq<char>) -> bool {
    line.len() > 0 && line.last() == '\\'
}

/// The text after the first `=` of a line, or nothing where there is none.
pub open spec fn value_part(line: Seq<char>) -> Seq<char> {
    let parts = split(line, '=');
    if parts.len() > 1 {
        parts[1]
    } else {
        Seq::empty()
    }
}

/// The keyword on the line that opens the list, if it holds one: the value,
/// trimmed, without the backslashes and then the commas at its end, trimmed
/// again, in lowercase; nothing where any of these steps leaves nothing.
pub open spec fn opening_keyword(line: Seq<char>) -> Option<Seq<char>> {
    let value = strip_end(trim(value_part(line)), Strip::Char('\\'));
    let word = lowercase_of(trim(strip_end(value, Strip::Char(','))));
    if value.len() > 0 && word.len() > 0 {
        Some(word)
    } else {
        None
    }
}

/// The keyword on a line that continues the list, if it holds one: the line
/// without the backslashes and then the commas at its end, trimmed, in
/// lowercase.
pub open spec fn following_keyword(line: Seq<char>) -> Option<Seq<char>> {
    let word = trim(strip_end(strip_end(line, Strip::Char('\\')), Strip::Char(',')));
    if word.len() > 0 {
        Some(lowercase_of(word))
    } else {
        None
    }
}

/// What has been read of a properties file: the keywords so far, and whether
/// the next line continues the list.
pub struct Scan {
    pub keywords: Seq<Seq<char>>,
    pub in_list: bool,
}

/// The keywords with one more, where there is one.
pub open spec fn with_keyword(keywords: Seq<Seq<char>>, word: Option<Seq<char>>) -> Seq<
    Seq<char>,
> {
    match word {
        Some(w) => keywords.push(w),
        None => keywords,
    }
}

/// What has been read after one more line.
pub open spec fn scan_line(before: Scan, raw: Seq<char>) -> Scan {
    let line = trim(raw);
    if list_key().is_prefix_of(line) {
        Scan {
            keywords: with_keyword(before.keywords, opening_keyword(line)),
            in_list: continues(line),
        }
    } else if before.in_list {
        Scan {
            keywords: with_keyword(before.keywords, following_keyword(line)),
            in_list: continues(line),
        }
    } else {
        before
    }
}

/// What has been read after all the lines.
pub open spec fn scan(all: Seq<Seq<char>>) -> Scan
    decreases all.len(),
{
    if all.len() == 0 {
        Scan { keywords: Seq::empty(), in_list: false }
    } else {
        scan_line(scan(all.drop_last()), all.last())
    }
}

/// The keywords that a properties file lists under the list key, in order.
/// The list may run over several lines, each but the last ending in a
/// backslash.
pub open spec fn keywords_in(content: Seq<char>) -> Seq<Seq<char>> {
    scan(lines(content)).keywords
}

fn ends_in_backslash(line: &Vec<char>) -> (r: bool)
    ensures
        r == continues(line@),
{
    line.len() > 0 && line[line.len() - 1] == '\\'
}

/// Reads the keywords out of a properties file: see [`keywords_in`].
pub fn parse_keywords_from_properties(content: &str) -> (r: Vec<String>)
    ensures
        views(r@) == keywords_in(content@),
{
    let chars = chars_of(content);
    let all = lines_of(&chars);
    let key = chars_of("de.griefed.serverpackcreator.configuration.fallbackmodslist=");
    let mut keywords: Vec<String> = Vec::new();
    let mut in_list = false;
    let mut i: usize = 0;
    assert(texts(all@).take(0) =~= Seq::<Seq<char>>::empty());
    assert(views(keywords@) =~= Seq::<Seq<char>>::empty());
    while i < all.len()
        invariant
            i <= all.len(),
            key@ == list_key(),
            texts(all@) == lines(content@),
            scan(texts(all@).take(i as int)) == (Scan { keywords: views(keywords@), in_list }),
        decreases all.len() - i,
    {
        proof {
            assert(texts(all@).take(i + 1).drop_last() =~= texts(all@).take(i as int));
            assert(texts(all@).take(i + 1).last() == all@[i as int]@);
        }
        let ghost before = views(keywords@);
        let line = stripped(&all[i], Strip::Whitespace);
        if starts_with(&line, &key) {
            let parts = split_on(&line, '=');
            let raw = if parts.len() > 1 {
                stripped(&parts[1], Strip::Whitespace)
            } else {
                assert(Seq::<char>::empty() =~= strip_both(
                    Seq::<char>::empty(),
                    Strip::Whitespace,
                ));
                Vec::new()
            };
            proof {
                assert(texts(parts@).len() == parts@.len());
                if parts.len() > 1 {
                    assert(texts(parts@)[1] == parts@[1]@);
                }
            }
            let value = stripped_end(&raw, Strip::Char('\\'));
            if value.len() > 0 {
                let bare = stripped_end(&value, Strip::Char(','));
                let word = lowercase(&stripped(&bare, Strip::Whitespace));
                if word.len() > 0 {
                    keywords.push(string_of(&word));
                    assert(views(keywords@) =~= before.push(word@));
                }
            }
            in_list = ends_in_backslash(&line);
        } else if in_list {
            let bare = stripped_end(&stripped_end(&line, Strip::Char('\\')), Strip::Char(','));
            let word = stripped(&bare, Strip::Whitespace);
            if word.len() > 0 {
                let lower = lowercase(&word);
                keywords.push(string_of(&lower));
                assert(views(keywords@) =~= before.push(lower@));
            }
            in_list = ends_in_backslash(&line);
        }
        i += 1;
    }
    assert(texts(all@).take(all@.len() as int) =~= texts(all@));
    keywords
}

/// Whether a line of the cache holds a keyword: it is not empty and no
/// comment.
pub open spec fn is_entry(line: Seq<char>) -> bool {
    line.len() > 0 && line[0] != '#'
}

/// The lines that hold keywords, in order.
pub open spec fn entries(all: Seq<Seq<char>>) -> Seq<Seq<char>>
    decreases all.len(),
{
    if all.len() == 0 {
        Seq::empty()
    } else if is_entry(all.last()) {
        entries(all.drop_last()).push(all.last())
    } else {
        entries(all.drop_last())
    }
}

/// The keywords that a cache file holds: its lines, but for empty ones and
/// comments.
pub open spec fn cached_keywords(content: Seq<char>) -> Seq<Seq<char>> {
    entries(lines(content))
}

/// Reads the keywords out of the content of the cache file: see
/// [`cached_keywords`].
pub fn load_keywords(content: &str) -> (r: Vec<String>)
    ensures
        views(r@) == cached_keywords(content@),
{
    let chars = chars_of(content);
    let all = lines_of(&chars);
    let mut keywords: Vec<String> = Vec::new();
    let mut i: usize = 0;
    assert(texts(all@).take(0) =~= Seq::<Seq<char>>::empty());
    while i < all.len()
        invariant
            i <= all.len(),
            texts(all@) == lines(content@),
            views(keywords@) == entries(texts(all@).take(i as int)),
        decreases all.len() - i,
    {
        proof {
            assert(texts(all@).take(i + 1).drop_last() =~= texts(all@).take(i as int));
            assert(texts(all@).take(i + 1).last() == all@[i as int]@);
        }
        let ghost before = views(keywords@);
        let line = &all[i];
        if line.len() > 0 && line[0] != '#' {
            keywords.push(string_of(line));
            assert(views(keywords@) =~= before.push(line@));
        }
        i += 1;
    }
    assert(texts(all@).take(all@.len() as int) =~= texts(all@));
    keywords
}

/// The content of the cache file: a comment that tells when the list was
/// fetched, then one keyword per line.
pub open spec fn cache_content(stamp: Seq<char>, keywords: Seq<Seq<char>>) -> Seq<char>
    decreases keywords.len(),
{
    if keywords.len() == 0 {
        "# Updated: "@ + stamp + "\n"@
    } else {
        cache_content(stamp, keywords.drop_last()) + keywords.last() + "\n"@
    }
}

/// Writes the keywords as the content of the cache file: see
/// [`cache_content`].
pub fn render_cache(stamp: &str, keywords: &Vec<String>) -> (r: String)
    ensures
        r@ == cache_content(stamp@, views(keywords@)),
{
    let newline = chars_of("\n");
    let head = concat(&chars_of("# Updated: "), &chars_of(stamp));
    let mut out = concat(&head, &newline);
    let mut i: usize = 0;
    assert(views(keywords@).take(0) =~= Seq::<Seq<char>>::empty());
    while i < keywords.len()
        invariant
            i <= keywords.len(),
            newline@ == "\n"@,
            out@ == cache_content(stamp@, views(keywords@).take(i as int)),
        decreases keywords.len() - i,
    {
        proof {
            assert(views(keywords@).take(i + 1).drop_last() =~= views(keywords@).take(i as int));
            assert(views(keywords@).take(i + 1).last() == keywords@[i as int]@);
        }
        let word = chars_of(keywords[i].as_str());
        out = concat(&concat(&out, &word), &newline);
        i += 1;
    }
    assert(views(keywords@).take(keywords@.len() as int) =~= views(keywords@));
    string_of(&out)
}

/// Whether a mod's name marks it as client-only: its lowercase form contains
/// one of the keywords.
pub open spec fn client_only(name: Seq<char>, keywords: Seq<Seq<char>>) -> bool {
    exists|i: int| 0 <= i < keywords.len() && contains_text(lowercase_of(name), #[trigger] keywords[i])
}

/// Tells whether a mod is client-only by its name and the cached keywords:
/// see [`client_only`]. Without keywords no mod is.
pub fn is_client_only_mod(name: &str, keywords: &Vec<String>) -> (r: bool)
    ensures
        r == client_only(name@, views(keywords@)),
{
    let lower = lowercase(&chars_of(name));
    let mut i: usize = 0;
    while i < keywords.len()
        invariant
            i <= keywords.len(),
            lower@ == lowercase_of(name@),
            forall|j: int| 0 <= j < i ==> !contains_text(lower@, #[trigger] views(keywords@)[j]),
        decreases keywords.len() - i,
    {
        let word = chars_of(keywords[i].as_str());
        if contains(&lower, &word) {
            assert(contains_text(lowercase_of(name@), views(keywords@)[i as int]));
            return true;
        }
        i += 1;
    }
    false
}

} // verus!
