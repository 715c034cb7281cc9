//! CurseForge packs: which loader a manifest asks for and which artifacts it
//! lists. Reading the archive and its JSON is the caller's part; the manifest
//! arrives here as plain values.

use crate::filter::{client_only, is_client_only_mod};
use crate::models::{views, ArtifactModel, LoaderType, ModInfo, ServerContext, SideType};
use crate::text::{
    chars_of, concat, decimal, decimal_of, starts_with, string_of, strip_prefix_all,
    without_prefix_all,
};
use vstd::prelude::*;

verus! {

broadcast use vstd::string::group_string_axioms;

/// A loader as a manifest names it.
#[derive(Clone, Debug)]
pub struct CfLoader {
    pub id: String,
    pub primary: bool,
}

/// A file as a manifest lists it.
#[derive(Clone, Copy, Debug)]
pub struct CfFile {
    pub project_id: u32,
    pub file_id: u32,
    pub required: bool,
}

/// What a manifest says.
#[derive(Clone, Debug)]
pub struct CfManifest {
    pub minecraft_version: String,
    pub loaders: Vec<CfLoader>,
    pub files: Vec<CfFile>,
}

/// Why a pack cannot be used.
#[derive(Clone, Copy, Debug, PartialEq, Eq, Structural)]
pub enum PackError {
    /// The pack names no game version.
    NoGameVersion,
    /// The pack names no loader, or none that is known.
    NoLoader,
}

/// Whether one of the loaders is marked primary.
pub open spec fn has_primary(loaders: Seq<CfLoader>) -> bool {
    exists|i: int| 0 <= i < loaders.len() && #[trigger] loaders[i].primary
}

/// The position of the loader a manifest asks for: the first marked primary,
/// else the first; none where the manifest names no loader.
pub fn primary_loader(loaders: &Vec<CfLoader>) -> (r: Option<usize>)
    ensures
        match r {
            Some(i) => i < loaders.len() && (loaders[i as int].primary || (i == 0 && !has_primary(
                loaders@,
            ))) && forall|j: int| 0 <= j < i ==> !(#[trigger] loaders[j].primary),
            None => loaders.len() == 0,
        },
{
    if loaders.len() == 0 {
        return None;
    }
    let mut i: usize = 0;
    while i < loaders.len()
        invariant
            i <= loaders.len(),
            forall|j: int| 0 <= j < i ==> !(#[trigger] loaders[j].primary),
        decreases loaders.len() - i,
    {
        if loaders[i].primary {
            return Some(i);
        }
        i += 1;
    }
    Some(0)
}

/// The loader and its version that an identifier such as `forge-47.2.0`
/// stands for. An identifier with no known prefix is taken as a Forge version.
pub open spec fn loader_of_id(id: Seq<char>) -> (LoaderType, Seq<char>) {
    if "forge-"@.is_prefix_of(id) {
        (LoaderType::Forge, strip_prefix_all(id, "forge-"@))
    } else if "fabric-"@.is_prefix_of(id) {
        (LoaderType::Fabric, strip_prefix_all(id, "fabric-"@))
    } else if "quilt-"@.is_prefix_of(id) {
        (LoaderType::Quilt, strip_prefix_all(id, "quilt-"@))
    } else if "neoforge-"@.is_prefix_of(id) {
        (LoaderType::NeoForge, strip_prefix_all(id, "neoforge-"@))
    } else {
        (LoaderType::Forge, id)
    }
}

/// Reads a loader identifier: see [`loader_of_id`].
pub fn parse_loader_id(id: &str) -> (r: (LoaderType, String))
    ensures
        (r.0, r.1@) == loader_of_id(id@),
{
    let chars = chars_of(id);
    let forge = chars_of("forge-");
    let fabric = chars_of("fabric-");
    let quilt = chars_of("quilt-");
    let neoforge = chars_of("neoforge-");
    if starts_with(&chars, &forge) {
        (LoaderType::Forge, string_of(&without_prefix_all(&chars, &forge)))
    } else if starts_with(&chars, &fabric) {
        (LoaderType::Fabric, string_of(&without_prefix_all(&chars, &fabric)))
    } else if starts_with(&chars, &quilt) {
        (LoaderType::Quilt, string_of(&without_prefix_all(&chars, &quilt)))
    } else if starts_with(&chars, &neoforge) {
        (LoaderType::NeoForge, string_of(&without_prefix_all(&chars, &neoforge)))
    } else {
        (LoaderType::Forge, string_of(&chars))
    }
}

/// The name given to a file of which only the identifiers are known.
pub open spec fn stub_name(project: u32) -> Seq<char> {
    "CF-Project-"@ + decimal(project as nat)
}

/// The file name given to such a file.
pub open spec fn stub_file_name(project: u32, file: u32) -> Seq<char> {
    decimal(project as nat) + "-"@ + decimal(file as nat) + ".jar"@
}

/// The location given to such a file.
pub open spec fn stub_location(project: u32, file: u32) -> Seq<char> {
    "https://example.com/download/"@ + decimal(project as nat) + "/"@ + decimal(file as nat)
}

/// Stands in for a lookup of a file by its identifiers: the name, the file
/// name and the location are made up from the numbers.
pub fn resolve_cf_file(project_id: u32, file_id: u32) -> (r: (String, String, String))
    ensures
        r.0@ == stub_name(project_id),
        r.1@ == stub_file_name(project_id, file_id),
        r.2@ == stub_location(project_id, file_id),
{
    let p = decimal_of(project_id as u64);
    let f = decimal_of(file_id as u64);
    let name = concat(&chars_of("CF-Project-"), &p);
    let a = concat(&p, &chars_of("-"));
    let b = concat(&a, &f);
    let file_name = concat(&b, &chars_of(".jar"));
    let c = concat(&chars_of("https://example.com/download/"), &p);
    let d = concat(&c, &chars_of("/"));
    let url = concat(&d, &f);
    (string_of(&name), string_of(&file_name), string_of(&url))
}

/// The keywords that mark a name as that of a client-only mod.
pub open spec fn client_keywords() -> Seq<Seq<char>> {
    seq![
        "sodium"@,
        "optifine"@,
        "rubidium"@,
        "iris"@,
        "oculus"@,
        "mouse-tweaks"@,
        "controlling"@,
        "toast"@,
        "catalogue"@,
        "jade"@,
        "wthit"@,
        "rei"@,
        "jei"@,
        "emi"@,
    ]
}

/// The keywords that mark a name as that of a client-only mod.
pub fn builtin_keywords() -> (r: Vec<String>)
    ensures
        views(r@) == client_keywords(),
{
    let mut r: Vec<String> = Vec::new();
    r.push(string_of(&chars_of("sodium")));
    r.push(string_of(&chars_of("optifine")));
    r.push(string_of(&chars_of("rubidium")));
    r.push(string_of(&chars_of("iris")));
    r.push(string_of(&chars_of("oculus")));
    r.push(string_of(&chars_of("mouse-tweaks")));
    r.push(string_of(&chars_of("controlling")));
    r.push(string_of(&chars_of("toast")));
    r.push(string_of(&chars_of("catalogue")));
    r.push(string_of(&chars_of("jade")));
    r.push(string_of(&chars_of("wthit")));
    r.push(string_of(&chars_of("rei")));
    r.push(string_of(&chars_of("jei")));
    r.push(string_of(&chars_of("emi")));
    assert(views(r@) =~= client_keywords());
    r
}

/// The artifact that a listed file becomes.
pub open spec fn stub_artifact(file: CfFile) -> ArtifactModel {
    ArtifactModel {
        name: stub_name(file.project_id),
        file_name: stub_file_name(file.project_id, file.file_id),
        sources: seq![stub_location(file.project_id, file.file_id)],
        hash: Seq::empty(),
        hash_algo: "none"@,
        side: SideType::Both,
        is_required: file.required,
    }
}

/// The artifacts that the listed files become, in order, without those whose
/// names mark them as client-only.
pub open spec fn stub_artifacts(files: Seq<CfFile>) -> Seq<ArtifactModel>
    decreases files.len(),
{
    if files.len() == 0 {
        Seq::empty()
    } else if client_only(stub_name(files.last().project_id), client_keywords()) {
        stub_artifacts(files.drop_last())
    } else {
        stub_artifacts(files.drop_last()).push(stub_artifact(files.last()))
    }
}

/// The views of a list of artifacts.
pub open spec fn artifact_views(v: Seq<ModInfo>) -> Seq<ArtifactModel> {
    Seq::new(v.len(), |i: int| v[i]@)
}

/// Turns the files a manifest lists into artifacts: see [`stub_artifacts`].
pub fn list_mods(files: &Vec<CfFile>) -> (r: Vec<ModInfo>)
    ensures
        artifact_views(r@) == stub_artifacts(files@),
{
    let keywords = builtin_keywords();
    let mut mods: Vec<ModInfo> = Vec::new();
    let mut i: usize = 0;
    assert(files@.take(0) =~= Seq::<CfFile>::empty());
    assert(artifact_views(mods@) =~= Seq::<ArtifactModel>::empty());
    while i < files.len()
        invariant
            i <= files.len(),
            views(keywords@) == client_keywords(),
            artifact_views(mods@) == stub_artifacts(files@.take(i as int)),
        decreases files.len() - i,
    {
        proof {
            assert(files@.take(i + 1).drop_last() =~= files@.take(i as int));
        }
        let file = files[i];
        let (name, file_name, url) = resolve_cf_file(file.project_id, file.file_id);
        if !is_client_only_mod(name.as_str(), &keywords) {
            let ghost before = artifact_views(mods@);
            let mut urls: Vec<String> = Vec::new();
            urls.push(url);
            assert(views(urls@) =~= seq![stub_location(file.project_id, file.file_id)]);
            let info = ModInfo {
                name,
                file_name,
                download_urls: urls,
                hash: String::new(),
                hash_algo: string_of(&chars_of("none")),
                side: SideType::Both,
                is_required: file.required,
            };
            assert(info@ == stub_artifact(file));
            mods.push(info);
            assert(artifact_views(mods@) =~= before.push(stub_artifact(file)));
        }
        i += 1;
    }
    assert(files@.take(files@.len() as int) =~= files@);
    mods
}

/// Reads a manifest: the server it asks for and the artifacts it lists. It
/// fails only where the manifest names no loader; the loader is the one
/// [`primary_loader`] picks, read by [`parse_loader_id`].
pub fn parse_curseforge(manifest: &CfManifest) -> (r: Result<
    (ServerContext, Vec<ModInfo>),
    PackError,
>)
    ensures
        manifest.loaders.len() == 0 <==> r is Err,
        r matches Err(e) ==> e == PackError::NoLoader,
        r matches Ok(pair) ==> {
            &&& pair.0.minecraft_version@ == manifest.minecraft_version@
            &&& artifact_views(pair.1@) == stub_artifacts(manifest.files@)
            &&& exists|i: int|
                0 <= i < manifest.loaders.len() && (pair.0.loader_type, pair.0.loader_version@)
                    == loader_of_id(#[trigger] manifest.loaders[i].id@) && (
                manifest.loaders[i].primary || (i == 0 && !has_primary(manifest.loaders@)))
                    && forall|j: int| 0 <= j < i ==> !(#[trigger] manifest.loaders[j].primary)
        },
{
    match primary_loader(&manifest.loaders) {
        None => Err(PackError::NoLoader),
        Some(i) => {
            let (loader_type, loader_version) = parse_loader_id(manifest.loaders[i].id.as_str());
            let context = ServerContext {
                minecraft_version: manifest.minecraft_version.clone(),
                loader_type,
                loader_version,
            };
            Ok((context, list_mods(&manifest.files)))
        },
    }
}

/// What is said of a CurseForge pack that cannot be used.
pub open spec fn pack_complaint(error: PackError) -> Seq<char> {
    match error {
        PackError::NoGameVersion => "Minecraft version not found in manifest"@,
        PackError::NoLoader => "No mod loader found in manifest"@,
    }
}

/// The message for a CurseForge pack that cannot be used: see
/// [`pack_complaint`].
pub fn describe_pack_error(error: PackError) -> (r: String)
    ensures
        r@ == pack_complaint(error),
{
    match error {
        PackError::NoGameVersion => string_of(
            &chars_of("Minecraft version not found in manifest"),
        ),
        PackError::NoLoader => string_of(&chars_of("No mod loader found in manifest")),
    }
}

} // verus!
