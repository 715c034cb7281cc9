//! Fallback locations for artifacts whose only source is a metadata endpoint.
//!
//! The endpoint's path carries a project identifier after `mods` and a file
//! identifier after `files`; from the two a location on a public mirror is
//! built. The construction is a heuristic tied to that one path layout.

use crate::text::{
    chars_of, concat, contains, contains_text, first_index, lemma_first_index_is, same_text, split,
    split_on, string_of, strip_suffix_all, text_is, texts, without_suffix_all,
};
use crate::models::opt_view;
use vstd::prelude::*;

verus! {

broadcast use vstd::string::group_string_axioms;

/// The identifier that stands for "not found".
pub open spec fn no_id() -> Seq<char> {
    "0"@
}

/// The path segment that follows the first segment equal to `key`, or `0`
/// where `key` does not occur or occurs last.
pub open spec fn segment_after(url: Seq<char>, key: Seq<char>) -> Seq<char> {
    let parts = split(url, '/');
    let at = first_index(parts, key);
    if 0 <= at && at + 1 < parts.len() {
        parts[at + 1]
    } else {
        no_id()
    }
}

/// The project identifier in a metadata endpoint's location.
pub open spec fn project_id(url: Seq<char>) -> Seq<char> {
    segment_after(url, "mods"@)
}

/// The file identifier in a metadata endpoint's location.
pub open spec fn file_id(url: Seq<char>) -> Seq<char> {
    segment_after(url, "files"@)
}

fn segment_following(url: &str, key: &str) -> (r: String)
    ensures
        r@ == segment_after(url@, key@),
{
    let chars = chars_of(url);
    let parts = split_on(&chars, '/');
    let k = chars_of(key);
    let mut i: usize = 0;
    while i < parts.len()
        invariant
            i <= parts.len(),
            k@ == key@,
            texts(parts@) == split(url@, '/'),
            forall|j: int| 0 <= j < i ==> texts(parts@)[j] != key@,
        decreases parts.len() - i,
    {
        if same_text(&parts[i], &k) {
            proof {
                lemma_first_index_is(texts(parts@), key@, i as int);
            }
            if i + 1 < parts.len() {
                return string_of(&parts[i + 1]);
            } else {
                return string_of(&chars_of("0"));
            }
        }
        i += 1;
    }
    proof {
        lemma_first_index_is(texts(parts@), key@, parts.len() as int);
    }
    string_of(&chars_of("0"))
}

/// The project identifier in a location: the path segment after `mods`, or
/// `0`.
pub fn get_project_id_from_url(url: &str) -> (r: String)
    ensures
        r@ == project_id(url@),
{
    segment_following(url, "mods")
}

/// The file identifier in a location: the path segment after `files`, or `0`.
pub fn get_file_id_from_url(url: &str) -> (r: String)
    ensures
        r@ == file_id(url@),
{
    segment_following(url, "files")
}

/// Whether a location is a metadata endpoint rather than the artifact itself.
pub open spec fn is_metadata_endpoint(url: Seq<char>) -> bool {
    contains_text(url, "curseforge.com/api"@)
}

/// Where the metadata of an endpoint's file is found: the location without
/// its trailing `/download`.
pub open spec fn metadata_location(url: Seq<char>) -> Seq<char> {
    strip_suffix_all(url, "/download"@)
}

/// The mirror location built from a project and a file identifier.
pub open spec fn mirror_location(project: Seq<char>, file: Seq<char>) -> Seq<char> {
    "https://www.cursemaven.com/curse/maven/O-"@ + project + "/"@ + file + "/dummy.jar"@
}

/// The fallback mirror for a metadata endpoint, where both identifiers are
/// found in its location.
pub open spec fn synthesized_mirror(url: Seq<char>) -> Option<Seq<char>> {
    if project_id(url) != no_id() && file_id(url) != no_id() {
        Some(mirror_location(project_id(url), file_id(url)))
    } else {
        None
    }
}

/// Whether `url` is a metadata endpoint: see [`is_metadata_endpoint`].
pub fn is_api_endpoint(url: &str) -> (r: bool)
    ensures
        r == is_metadata_endpoint(url@),
{
    let chars = chars_of(url);
    let marker = chars_of("curseforge.com/api");
    contains(&chars, &marker)
}

/// The location to ask for an endpoint's metadata: see [`metadata_location`].
pub fn metadata_url(url: &str) -> (r: String)
    ensures
        r@ == metadata_location(url@),
{
    let chars = chars_of(url);
    let suffix = chars_of("/download");
    string_of(&without_suffix_all(&chars, &suffix))
}

/// Builds the fallback mirror for a metadata endpoint from the identifiers in
/// its location; `None` where either is missing.
pub fn synthesize_mirror(url: &str) -> (r: Option<String>)
    ensures
        opt_view(r) == synthesized_mirror(url@),
{
    let project = chars_of(get_project_id_from_url(url).as_str());
    let file = chars_of(get_file_id_from_url(url).as_str());
    if text_is(&project, "0") || text_is(&file, "0") {
        return None;
    }
    let head = chars_of("https://www.cursemaven.com/curse/maven/O-");
    let slash = chars_of("/");
    let tail = chars_of("/dummy.jar");
    let a = concat(&head, &project);
    let b = concat(&a, &slash);
    let c = concat(&b, &file);
    let d = concat(&c, &tail);
    Some(string_of(&d))
}

} // verus!
