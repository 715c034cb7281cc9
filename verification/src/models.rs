//! The data that flows through the library: artifacts to fetch, the server
//! they are for, and what a downloaded artifact says about itself.

use crate::text::{chars_of, string_of};
use crate::utils::{sanitize_filename, sanitized};
use vstd::prelude::*;

verus! {

broadcast use vstd::string::group_string_axioms;

/// Where an artifact is meant to run.
#[derive(Clone, Copy, Debug, PartialEq, Eq, Structural)]
pub enum SideType {
    Server,
    Client,
    Both,
}

/// The mod loader a server is built on.
#[derive(Clone, Copy, Debug, PartialEq, Eq, Structural)]
pub enum LoaderType {
    Fabric,
    Forge,
    Quilt,
    NeoForge,
}

/// One artifact to fetch: its name for people, its best-guess file name, the
/// locations to try in order of preference, and the digest its content must
/// have.
#[derive(Clone, Debug)]
pub struct ModInfo {
    pub name: String,
    pub file_name: String,
    pub download_urls: Vec<String>,
    pub hash: String,
    pub hash_algo: String,
    pub side: SideType,
    pub is_required: bool,
}

/// The mathematical value of a [`ModInfo`].
pub struct ArtifactModel {
    pub name: Seq<char>,
    pub file_name: Seq<char>,
    pub sources: Seq<Seq<char>>,
    pub hash: Seq<char>,
    pub hash_algo: Seq<char>,
    pub side: SideType,
    pub is_required: bool,
}

/// The views of a list of strings.
pub open spec fn views(v: Seq<String>) -> Seq<Seq<char>> {
    Seq::new(v.len(), |i: int| v[i]@)
}

impl View for ModInfo {
    type V = ArtifactModel;

    open spec fn view(&self) -> ArtifactModel {
        ArtifactModel {
            name: self.name@,
            file_name: self.file_name@,
            sources: views(self.download_urls@),
            hash: self.hash@,
            hash_algo: self.hash_algo@,
            side: self.side,
            is_required: self.is_required,
        }
    }
}

/// The server a pack is built for.
#[derive(Clone, Debug)]
pub struct ServerContext {
    pub minecraft_version: String,
    pub loader_type: LoaderType,
    pub loader_version: String,
}

/// What an artifact's embedded manifest says about it. Every part may be
/// missing.
#[derive(Clone, Debug)]
pub struct ModMetadata {
    pub name: Option<String>,
    pub version: Option<String>,
    pub mod_id: Option<String>,
}

/// The view of a string that may be missing.
pub open spec fn opt_view(s: Option<String>) -> Option<Seq<char>> {
    match s {
        Some(t) => Some(t@),
        None => None,
    }
}

/// The mathematical value of a [`ModMetadata`].
pub struct MetadataModel {
    pub name: Option<Seq<char>>,
    pub version: Option<Seq<char>>,
    pub mod_id: Option<Seq<char>>,
}

impl View for ModMetadata {
    type V = MetadataModel;

    open spec fn view(&self) -> MetadataModel {
        MetadataModel {
            name: opt_view(self.name),
            version: opt_view(self.version),
            mod_id: opt_view(self.mod_id),
        }
    }
}

/// The version shown where a manifest names none.
pub open spec fn unknown_version() -> Seq<char> {
    seq!['u', 'n', 'k', 'n', 'o', 'w', 'n']
}

impl MetadataModel {
    /// The name to show: the sanitized name, else the sanitized identifier,
    /// else the sanitized fallback.
    pub open spec fn display_name(self, fallback: Seq<char>) -> Seq<char> {
        match self.name {
            Some(n) => sanitized(n),
            None => match self.mod_id {
                Some(id) => sanitized(id),
                None => sanitized(fallback),
            },
        }
    }

    /// The version to show: the sanitized version, else `unknown`.
    pub open spec fn display_version(self) -> Seq<char> {
        match self.version {
            Some(v) => sanitized(v),
            None => unknown_version(),
        }
    }
}

impl Default for ModMetadata {
    fn default() -> (r: ModMetadata)
        ensures
            r@ == (MetadataModel { name: None, version: None, mod_id: None }),
    {
        ModMetadata { name: None, version: None, mod_id: None }
    }
}

impl ModMetadata {
    /// The name to show for the artifact, safe as part of a file name: see
    /// [`MetadataModel::display_name`].
    pub fn get_display_name(&self, fallback: &str) -> (r: String)
        ensures
            r@ == self@.display_name(fallback@),
    {
        match &self.name {
            Some(n) => sanitize_filename(n.as_str()),
            None => match &self.mod_id {
                Some(id) => sanitize_filename(id.as_str()),
                None => sanitize_filename(fallback),
            },
        }
    }

    /// The version to show for the artifact, safe as part of a file name: see
    /// [`MetadataModel::display_version`].
    pub fn get_version(&self) -> (r: String)
        ensures
            r@ == self@.display_version(),
    {
        match &self.version {
            Some(v) => sanitize_filename(v.as_str()),
            None => {
                proof {
                    reveal_strlit("unknown");
                }
                let v = chars_of("unknown");
                assert(v@ =~= unknown_version());
                string_of(&v)
            },
        }
    }
}

} // verus!
