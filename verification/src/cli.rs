//! What the command line accepts: a memory setting and an input file.

use crate::text::{chars_of, concat, string_of, text_is};
use vstd::prelude::*;

verus! {

broadcast use vstd::string::group_string_axioms;

/// Whether `c` is one of the digits `0` to `9`.
pub open spec fn is_digit(c: char) -> bool {
    0x30 <= c as u32 <= 0x39
}

/// Whether a text is a memory setting: it starts with a digit and ends with
/// one of the units `M`, `G`, `m`, `g`.
pub open spec fn is_memory_format(s: Seq<char>) -> bool {
    s.len() > 0 && is_digit(s[0]) && (s.last() == 'M' || s.last() == 'G' || s.last() == 'm'
        || s.last() == 'g')
}

/// What is said of a text that is no memory setting.
pub open spec fn memory_complaint(s: Seq<char>) -> Seq<char> {
    "Invalid memory format: '"@ + s + "'. Please use formats like '4G' or '4096M'"@
}

/// Checks a memory setting such as `4G` or `4096M`: it is handed back where
/// it starts with a digit and ends with a unit, and else a complaint.
pub fn verify_memory_format(s: &str) -> (r: Result<String, String>)
    ensures
        is_memory_format(s@) ==> (r matches Ok(v) && v@ == s@),
        !is_memory_format(s@) ==> (r matches Err(e) && e@ == memory_complaint(s@)),
{
    let chars = chars_of(s);
    let n: usize = chars.len();
    let mut valid = false;
    if n > 0 {
        let first: u32 = chars[0] as u32;
        let last = chars[n - 1];
        valid = 0x30 <= first && first <= 0x39 && (last == 'M' || last == 'G' || last == 'm'
            || last == 'g');
    }
    if valid {
        Ok(string_of(&chars))
    } else {
        let a = concat(&chars_of("Invalid memory format: '"), &chars);
        Err(string_of(&concat(&a, &chars_of("'. Please use formats like '4G' or '4096M'"))))
    }
}

/// Why an input file is refused.
#[derive(Clone, Debug)]
pub enum InputError {
    /// Nothing stands under the path.
    Missing,
    /// What stands under the path is no file.
    NotAFile,
    /// The file's extension is neither `zip` nor `mrpack`; it is carried.
    Unsupported(String),
}

/// Whether an extension is one of a pack: `zip` or `mrpack`.
pub open spec fn is_pack_extension(extension: Seq<char>) -> bool {
    extension == "zip"@ || extension == "mrpack"@
}

/// Checks what was found out about an input path. A missing path is reported
/// first, then one that is no file, then an extension that is none of a pack.
/// `extension` is empty where the path has none.
pub fn verify_input_file(exists: bool, is_file: bool, extension: &str) -> (r: Result<
    (),
    InputError,
>)
    ensures
        !exists ==> r matches Err(InputError::Missing),
        exists && !is_file ==> r matches Err(InputError::NotAFile),
        exists && is_file && !is_pack_extension(extension@) ==> (r matches Err(
            InputError::Unsupported(e),
        ) && e@ == extension@),
        exists && is_file && is_pack_extension(extension@) ==> r is Ok,
{
    if !exists {
        return Err(InputError::Missing);
    }
    if !is_file {
        return Err(InputError::NotAFile);
    }
    let chars = chars_of(extension);
    if text_is(&chars, "zip") || text_is(&chars, "mrpack") {
        Ok(())
    } else {
        Err(InputError::Unsupported(string_of(&chars)))
    }
}

/// What is said of a refused input file named `path`.
pub open spec fn input_complaint(path: Seq<char>, error: InputError) -> Seq<char> {
    match error {
        InputError::Missing => "File does not exist: "@ + path,
        InputError::NotAFile => "Path is not a file: "@ + path,
        InputError::Unsupported(e) => "Unsupported file format: ."@ + e@
            + " (only .zip or .mrpack are supported)"@,
    }
}

/// The message for a refused input file: see [`input_complaint`].
pub fn describe_input_error(path: &str, error: &InputError) -> (r: String)
    ensures
        r@ == input_complaint(path@, *error),
{
    match error {
        InputError::Missing => string_of(
            &concat(&chars_of("File does not exist: "), &chars_of(path)),
        ),
        InputError::NotAFile => string_of(
            &concat(&chars_of("Path is not a file: "), &chars_of(path)),
        ),
        InputError::Unsupported(e) => {
            let a = concat(&chars_of("Unsupported file format: ."), &chars_of(e.as_str()));
            string_of(&concat(&a, &chars_of(" (only .zip or .mrpack are supported)")))
        },
    }
}

} // verus!
