//! Modrinth packs: which loader an index asks for and which artifacts it
//! lists for the server. Reading the archive and its JSON is the caller's
//! part; the index arrives here as plain values.

use crate::curseforge::{artifact_views, PackError};
use crate::fetch::copy_strings;
use crate::models::{opt_view, views, ArtifactModel, LoaderType, ModInfo, ServerContext, SideType};
use crate::text::{chars_of, string_of, text_is};
use vstd::prelude::*;

verus! {

broadcast use vstd::string::group_string_axioms;

/// A file as an index lists it.
#[derive(Clone, Debug)]
pub struct MrFile {
    /// The last component of the file's path in the pack, if it has one.
    pub file_name: Option<String>,
    /// That component without its extension, if it has one.
    pub file_stem: Option<String>,
    pub sha1: Option<String>,
    pub sha512: Option<String>,
    /// Whether clients need, tolerate or refuse the file, if the index says.
    pub client_env: Option<String>,
    /// The same for servers.
    pub server_env: Option<String>,
    /// Where the file can be fetched, in order of preference.
    pub downloads: Vec<String>,
}

/// What an index says.
#[derive(Clone, Debug)]
pub struct MrIndex {
    pub minecraft: Option<String>,
    pub fabric_loader: Option<String>,
    pub forge: Option<String>,
    pub neoforge: Option<String>,
    pub quilt_loader: Option<String>,
    pub files: Vec<MrFile>,
}

/// What an index says of an environment where it says nothing.
pub open spec fn env_or_required(env: Option<Seq<char>>) -> Seq<char> {
    match env {
        Some(e) => e,
        None => "required"@,
    }
}

/// Where a file runs: on clients only if servers refuse it, on servers only
/// if clients refuse it, else on both.
pub open spec fn side_of(client_env: Option<Seq<char>>, server_env: Option<Seq<char>>)
    -> SideType {
    if env_or_required(server_env) == "unsupported"@ {
        SideType::Client
    } else if env_or_required(client_env) == "unsupported"@ {
        SideType::Server
    } else {
        SideType::Both
    }
}

/// The digest an index gives for a file, with its algorithm: the SHA-512 one
/// before the SHA-1 one, and none at all under the algorithm `none`.
pub open spec fn digest_of(sha1: Option<Seq<char>>, sha512: Option<Seq<char>>) -> (
    Seq<char>,
    Seq<char>,
) {
    match sha512 {
        Some(h) => (h, "sha512"@),
        None => match sha1 {
            Some(h) => (h, "sha1"@),
            None => (Seq::empty(), "none"@),
        },
    }
}

/// The file name of a listed file: its last path component, or `unknown.jar`.
pub open spec fn listed_file_name(file: MrFile) -> Seq<char> {
    match file.file_name {
        Some(n) => n@,
        None => "unknown.jar"@,
    }
}

/// Whether a listed file is for the server and can be fetched.
pub open spec fn is_listed(file: MrFile) -> bool {
    &&& side_of(opt_view(file.client_env), opt_view(file.server_env)) != SideType::Client
    &&& file.downloads.len() > 0
    &&& file.downloads[0]@.len() > 0
}

/// The artifact that a listed file becomes.
pub open spec fn listed_artifact(file: MrFile) -> ArtifactModel {
    ArtifactModel {
        name: match file.file_stem {
            Some(s) => s@,
            None => listed_file_name(file),
        },
        file_name: listed_file_name(file),
        sources: views(file.downloads@),
        hash: digest_of(opt_view(file.sha1), opt_view(file.sha512)).0,
        hash_algo: digest_of(opt_view(file.sha1), opt_view(file.sha512)).1,
        side: side_of(opt_view(file.client_env), opt_view(file.server_env)),
        is_required: env_or_required(opt_view(file.server_env)) == "required"@,
    }
}

/// The artifacts that the listed files become, in order, without those that
/// are for clients only or cannot be fetched.
pub open spec fn listed_artifacts(files: Seq<MrFile>) -> Seq<ArtifactModel>
    decreases files.len(),
{
    if files.len() == 0 {
        Seq::empty()
    } else if is_listed(files.last()) {
        listed_artifacts(files.drop_last()).push(listed_artifact(files.last()))
    } else {
        listed_artifacts(files.drop_last())
    }
}

fn env_chars(env: &Option<String>) -> (r: Vec<char>)
    ensures
        r@ == env_or_required(opt_view(*env)),
{
    match env {
        Some(e) => chars_of(e.as_str()),
        None => chars_of("required"),
    }
}

/// Tells where a file runs: see [`side_of`].
pub fn file_side(client_env: &Option<String>, server_env: &Option<String>) -> (r: SideType)
    ensures
        r == side_of(opt_view(*client_env), opt_view(*server_env)),
{
    if text_is(&env_chars(server_env), "unsupported") {
        SideType::Client
    } else if text_is(&env_chars(client_env), "unsupported") {
        SideType::Server
    } else {
        SideType::Both
    }
}

/// Turns one listed file into an artifact, or into nothing where it is for
/// clients only or has no location.
pub fn list_file(file: &MrFile) -> (r: Option<ModInfo>)
    ensures
        is_listed(*file) ==> (r matches Some(info) && info@ == listed_artifact(*file)),
        !is_listed(*file) ==> r is None,
{
    let side = file_side(&file.client_env, &file.server_env);
    if side == SideType::Client {
        return None;
    }
    if file.downloads.len() == 0 || file.downloads[0].as_str().unicode_len() == 0 {
        return None;
    }
    let file_name = match &file.file_name {
        Some(n) => n.clone(),
        None => string_of(&chars_of("unknown.jar")),
    };
    let name = match &file.file_stem {
        Some(s) => s.clone(),
        None => file_name.clone(),
    };
    let (hash, hash_algo) = match &file.sha512 {
        Some(h) => (h.clone(), string_of(&chars_of("sha512"))),
        None => match &file.sha1 {
            Some(h) => (h.clone(), string_of(&chars_of("sha1"))),
            None => (String::new(), string_of(&chars_of("none"))),
        },
    };
    let is_required = text_is(&env_chars(&file.server_env), "required");
    Some(
        ModInfo {
            name,
            file_name,
            download_urls: copy_strings(&file.downloads),
            hash,
            hash_algo,
            side,
            is_required,
        },
    )
}

/// The loader an index asks for, with its version: Fabric before Forge
/// before NeoForge before Quilt.
pub open spec fn loader_of(index: MrIndex) -> Option<(LoaderType, Seq<char>)> {
    match index.fabric_loader {
        Some(v) => Some((LoaderType::Fabric, v@)),
        None => match index.forge {
            Some(v) => Some((LoaderType::Forge, v@)),
            None => match index.neoforge {
                Some(v) => Some((LoaderType::NeoForge, v@)),
                None => match index.quilt_loader {
                    Some(v) => Some((LoaderType::Quilt, v@)),
                    None => None,
                },
            },
        },
    }
}

/// Reads an index: the server it asks for and the artifacts it lists for the
/// server. It fails where the index names no game version, and else where it
/// names no known loader.
pub fn parse_mrpack(index: &MrIndex) -> (r: Result<(ServerContext, Vec<ModInfo>), PackError>)
    ensures
        index.minecraft is None ==> r == Err::<(ServerContext, Vec<ModInfo>), PackError>(
            PackError::NoGameVersion,
        ),
        index.minecraft is Some && loader_of(*index) is None ==> r == Err::<
            (ServerContext, Vec<ModInfo>),
            PackError,
        >(PackError::NoLoader),
        index.minecraft is Some && loader_of(*index) is Some ==> (r matches Ok(pair) && {
            &&& Some(pair.0.minecraft_version@) == opt_view(index.minecraft)
            &&& Some((pair.0.loader_type, pair.0.loader_version@)) == loader_of(*index)
            &&& artifact_views(pair.1@) == listed_artifacts(index.files@)
        }),
{
    let minecraft_version = match &index.minecraft {
        Some(v) => v.clone(),
        None => {
            return Err(PackError::NoGameVersion);
        },
    };
    let (loader_type, loader_version) = match &index.fabric_loader {
        Some(v) => (LoaderType::Fabric, v.clone()),
        None => match &index.forge {
            Some(v) => (LoaderType::Forge, v.clone()),
            None => match &index.neoforge {
                Some(v) => (LoaderType::NeoForge, v.clone()),
                None => match &index.quilt_loader {
                    Some(v) => (LoaderType::Quilt, v.clone()),
                    None => {
                        return Err(PackError::NoLoader);
                    },
                },
            },
        },
    };
    let mut mods: Vec<ModInfo> = Vec::new();
    let mut i: usize = 0;
    assert(index.files@.take(0) =~= Seq::<MrFile>::empty());
    assert(artifact_views(mods@) =~= Seq::<ArtifactModel>::empty());
    while i < index.files.len()
        invariant
            i <= index.files.len(),
            artifact_views(mods@) == listed_artifacts(index.files@.take(i as int)),
        decreases index.files.len() - i,
    {
        proof {
            assert(index.files@.take(i + 1).drop_last() =~= index.files@.take(i as int));
        }
        let ghost before = artifact_views(mods@);
        match list_file(&index.files[i]) {
            Some(info) => {
                mods.push(info);
                assert(artifact_views(mods@) =~= before.push(info@));
            },
            None => {},
        }
        i += 1;
    }
    assert(index.files@.take(index.files@.len() as int) =~= index.files@);
    Ok((ServerContext { minecraft_version, loader_type, loader_version }, mods))
}

/// What is said of a Modrinth pack that cannot be used.
pub open spec fn index_complaint(error: PackError) -> Seq<char> {
    match error {
        PackError::NoGameVersion => "Minecraft version not found in dependencies"@,
        PackError::NoLoader => "Unsupported or missing loader in dependencies"@,
    }
}

/// The message for a Modrinth pack that cannot be used: see
/// [`index_complaint`].
pub fn describe_index_error(error: PackError) -> (r: String)
    ensures
        r@ == index_complaint(error),
{
    match error {
        PackError::NoGameVersion => string_of(
            &chars_of("Minecraft version not found in dependencies"),
        ),
        PackError::NoLoader => string_of(
            &chars_of("Unsupported or missing loader in dependencies"),
        ),
    }
}

} // verus!
