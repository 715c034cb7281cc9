//! The true file name of an artifact, read from what the server said about it.
//!
//! A `Content-Disposition` header comes first; the last path segment of the
//! final location comes second, and only with an extension that marks an
//! archive the library handles. Every name that is found is sanitized.

use crate::models::{opt_view, views};
use crate::text::{
    chars_of, ends_with, split, split_on, starts_with, string_of, strip_both, strip_prefix_all,
    stripped, texts, trim, without_prefix_all, Strip,
};
use crate::utils::{sanitize_filename, sanitized};
use vstd::prelude::*;

verus! {

broadcast use vstd::string::group_string_axioms;

/// What introduces the file name in a `Content-Disposition` header.
pub open spec fn filename_key() -> Seq<char> {
    "filename="@
}

/// Whether a part of the header, between semicolons, carries the file name.
pub open spec fn names_file(part: Seq<char>) -> bool {
    filename_key().is_prefix_of(trim(part))
}

/// The file name a part carries: what follows the key, without surrounding
/// double quotes.
pub open spec fn named_file(part: Seq<char>) -> Seq<char> {
    strip_both(strip_prefix_all(trim(part), filename_key()), Strip::Char('"'))
}

/// The file name of the first part that carries one.
pub open spec fn first_named(parts: Seq<Seq<char>>) -> Option<Seq<char>>
    decreases parts.len(),
{
    if parts.len() == 0 {
        None
    } else if names_file(parts[0]) {
        Some(named_file(parts[0]))
    } else {
        first_named(parts.drop_first())
    }
}

/// The file name that a `Content-Disposition` header gives, if it gives one.
pub open spec fn disposition_filename(header: Seq<char>) -> Option<Seq<char>> {
    first_named(split(header, ';'))
}

/// Reads the file name out of a `Content-Disposition` header: the value of the
/// first `filename=` parameter, without surrounding double quotes; `None`
/// where no parameter has that key.
pub fn parse_content_disposition(header: &str) -> (r: Option<String>)
    ensures
        opt_view(r) == disposition_filename(header@),
{
    let chars = chars_of(header);
    let parts = split_on(&chars, ';');
    let key = chars_of("filename=");
    let mut i: usize = 0;
    assert(texts(parts@).skip(0) =~= texts(parts@));
    while i < parts.len()
        invariant
            i <= parts.len(),
            key@ == filename_key(),
            texts(parts@) == split(header@, ';'),
            first_named(texts(parts@).skip(i as int)) == disposition_filename(header@),
        decreases parts.len() - i,
    {
        let ghost rest = texts(parts@).skip(i as int);
        assert(rest[0] == parts@[i as int]@);
        assert(rest.drop_first() =~= texts(parts@).skip(i + 1));
        let part = stripped(&parts[i], Strip::Whitespace);
        if starts_with(&part, &key) {
            let tail = without_prefix_all(&part, &key);
            let name = stripped(&tail, Strip::Char('"'));
            return Some(string_of(&name));
        }
        i += 1;
    }
    None
}

/// The path segments of an absolute URL as the `url` crate parses it; `None`
/// where the text is no absolute URL or its path cannot have segments.
pub uninterp spec fn url_path_segments(url: Seq<char>) -> Option<Seq<Seq<char>>>;

/// The text that percent-encoded `s` stands for, as the `urlencoding` crate
/// decodes it; `None` where the decoded bytes are not UTF-8.
pub uninterp spec fn percent_decoded(s: Seq<char>) -> Option<Seq<char>>;

/// The views of a list of strings that may be missing.
pub open spec fn opt_views(v: Option<Vec<String>>) -> Option<Seq<Seq<char>>> {
    match v {
        Some(list) => Some(views(list@)),
        None => None,
    }
}

/// `reqwest::Url::parse`, then `Url::path_segments` on the parsed URL, each
/// segment copied into a string. The result is a function of the text alone
/// and is only named.
#[verifier::external_body]
fn path_segments(url: &str) -> (r: Option<Vec<String>>)
    ensures
        opt_views(r) == url_path_segments(url@),
{
    let parsed = reqwest::Url::parse(url).ok()?;
    let mut list: Vec<String> = Vec::new();
    for segment in parsed.path_segments()? {
        list.push(segment.to_string());
    }
    Some(list)
}

/// `urlencoding::decode`: the percent-decoded text, or `None` where the crate
/// reports that the decoded bytes are not UTF-8.
#[verifier::external_body]
fn percent_decode(s: &str) -> (r: Option<String>)
    ensures
        opt_view(r) == percent_decoded(s@),
{
    match urlencoding::decode(s) {
        Ok(text) => Some(text.into_owned()),
        Err(_) => None,
    }
}

/// Whether a name ends like an archive the library handles.
pub open spec fn has_archive_extension(name: Seq<char>) -> bool {
    ".jar"@.is_suffix_of(name) || ".zip"@.is_suffix_of(name)
}

/// The last of the segments, where there are any.
pub open spec fn last_of(segments: Option<Seq<Seq<char>>>) -> Option<Seq<char>> {
    match segments {
        Some(list) => if list.len() > 0 {
            Some(list.last())
        } else {
            None
        },
        None => None,
    }
}

/// A decoded segment as a file name: kept only with an archive extension.
pub open spec fn archive_name(decoded: Option<Seq<char>>) -> Option<Seq<char>> {
    match decoded {
        Some(name) => if has_archive_extension(name) {
            Some(name)
        } else {
            None
        },
        None => None,
    }
}

/// The file name that a location gives: its last path segment, decoded, where
/// that ends like an archive.
pub open spec fn url_filename(url: Seq<char>) -> Option<Seq<char>> {
    match last_of(url_path_segments(url)) {
        Some(segment) => archive_name(percent_decoded(segment)),
        None => None,
    }
}

/// Picks the last path segment.
pub fn last_segment(segments: Option<Vec<String>>) -> (r: Option<String>)
    ensures
        opt_view(r) == last_of(opt_views(segments)),
{
    match segments {
        Some(mut list) => {
            let ghost before = list@;
            let last = list.pop();
            proof {
                if before.len() > 0 {
                    assert(views(before).last() == before.last()@);
                }
            }
            last
        },
        None => None,
    }
}

/// Keeps a decoded segment only where it ends in `.jar` or `.zip`.
pub fn archive_file_name(decoded: Option<String>) -> (r: Option<String>)
    ensures
        opt_view(r) == archive_name(opt_view(decoded)),
{
    match decoded {
        Some(name) => {
            let chars = chars_of(name.as_str());
            let jar = chars_of(".jar");
            let zip = chars_of(".zip");
            if ends_with(&chars, &jar) || ends_with(&chars, &zip) {
                Some(name)
            } else {
                None
            }
        },
        None => None,
    }
}

/// The file name that the location `url` gives: see [`url_filename`].
pub fn extract_filename_from_url(url: &str) -> (r: Option<String>)
    ensures
        opt_view(r) == url_filename(url@),
{
    match last_segment(path_segments(url)) {
        Some(segment) => archive_file_name(percent_decode(segment.as_str())),
        None => None,
    }
}

/// The true file name according to a response: from the header where it names
/// one, else from the final location, sanitized either way; `None` where
/// neither gives a name.
pub open spec fn resolved_name(disposition: Option<Seq<char>>, url: Seq<char>) -> Option<
    Seq<char>,
> {
    let from_header = match disposition {
        Some(header) => disposition_filename(header),
        None => None,
    };
    match from_header {
        Some(name) => Some(sanitized(name)),
        None => match url_filename(url) {
            Some(name) => Some(sanitized(name)),
            None => None,
        },
    }
}

/// Resolves the true file name of an artifact from the response that
/// delivered it: see [`resolved_name`]. On `None` the caller keeps the name it
/// has.
pub fn resolve(disposition: &Option<String>, final_url: &str) -> (r: Option<String>)
    ensures
        opt_view(r) == resolved_name(opt_view(*disposition), final_url@),
{
    let from_header = match disposition {
        Some(header) => parse_content_disposition(header.as_str()),
        None => None,
    };
    match from_header {
        Some(name) => Some(sanitize_filename(name.as_str())),
        None => match extract_filename_from_url(final_url) {
            Some(name) => Some(sanitize_filename(name.as_str())),
            None => None,
        },
    }
}

} // verus!
