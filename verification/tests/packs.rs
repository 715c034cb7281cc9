use mcpacker::curseforge::{
    builtin_keywords, describe_pack_error, list_mods, parse_curseforge, parse_loader_id, primary_loader,
    resolve_cf_file, CfFile, CfLoader, CfManifest, PackError,
};
use mcpacker::metadata::{
    entry_name, formats, from_fabric, from_mcmod, from_mods_toml, mcmod_entry, select_metadata,
    McmodEntry, MetadataFormat,
};
use mcpacker::models::{LoaderType, ModMetadata, SideType};
use mcpacker::modrinth::{
    describe_index_error, file_side, list_file, parse_mrpack, MrFile, MrIndex,
};

fn s(text: &str) -> Option<String> {
    Some(text.to_string())
}

fn loader(id: &str, primary: bool) -> CfLoader {
    CfLoader { id: id.to_string(), primary }
}

#[test]
fn primary_loader_is_the_first_marked() {
    assert_eq!(primary_loader(&vec![]), None);
    assert_eq!(primary_loader(&vec![loader("a", false)]), Some(0));
    assert_eq!(primary_loader(&vec![loader("a", false), loader("b", true), loader("c", true)]), Some(1));
    assert_eq!(primary_loader(&vec![loader("a", false), loader("b", false)]), Some(0));
}

#[test]
fn loader_identifiers_are_read() {
    assert_eq!(parse_loader_id("forge-47.2.0"), (LoaderType::Forge, "47.2.0".to_string()));
    assert_eq!(parse_loader_id("fabric-0.15.7"), (LoaderType::Fabric, "0.15.7".to_string()));
    assert_eq!(parse_loader_id("quilt-0.23.1"), (LoaderType::Quilt, "0.23.1".to_string()));
    assert_eq!(parse_loader_id("neoforge-20.4.80"), (LoaderType::NeoForge, "20.4.80".to_string()));
    assert_eq!(parse_loader_id("forge-forge-1"), (LoaderType::Forge, "1".to_string()));
    assert_eq!(parse_loader_id("liteloader-1"), (LoaderType::Forge, "liteloader-1".to_string()));
    assert_eq!(parse_loader_id(""), (LoaderType::Forge, String::new()));
}

#[test]
fn stub_files_are_named_by_their_numbers() {
    assert_eq!(
        resolve_cf_file(238222, 4712345),
        (
            "CF-Project-238222".to_string(),
            "238222-4712345.jar".to_string(),
            "https://example.com/download/238222/4712345".to_string()
        )
    );
    assert_eq!(resolve_cf_file(0, u32::MAX).1, "0-4294967295.jar");
    assert_eq!(resolve_cf_file(10, 9).2, "https://example.com/download/10/9");
}

#[test]
fn builtin_keywords_are_fourteen() {
    let k = builtin_keywords();
    assert_eq!(k.len(), 14);
    assert_eq!(k[0], "sodium");
    assert_eq!(k[5], "mouse-tweaks");
    assert_eq!(k[13], "emi");
}

#[test]
fn listed_files_become_artifacts() {
    let files = vec![
        CfFile { project_id: 1, file_id: 2, required: true },
        CfFile { project_id: 3, file_id: 4, required: false },
    ];
    let mods = list_mods(&files);
    assert_eq!(mods.len(), 2);
    assert_eq!(mods[0].name, "CF-Project-1");
    assert_eq!(mods[0].file_name, "1-2.jar");
    assert_eq!(mods[0].download_urls, vec!["https://example.com/download/1/2".to_string()]);
    assert_eq!(mods[0].hash, "");
    assert_eq!(mods[0].hash_algo, "none");
    assert_eq!(mods[0].side, SideType::Both);
    assert!(mods[0].is_required);
    assert!(!mods[1].is_required);
}

#[test]
fn curseforge_manifest_is_read() {
    let manifest = CfManifest {
        minecraft_version: "1.20.1".to_string(),
        loaders: vec![loader("fabric-0.1", false), loader("forge-47.2.0", true)],
        files: vec![CfFile { project_id: 5, file_id: 6, required: true }],
    };
    let (context, mods) = parse_curseforge(&manifest).unwrap();
    assert_eq!(context.minecraft_version, "1.20.1");
    assert_eq!(context.loader_type, LoaderType::Forge);
    assert_eq!(context.loader_version, "47.2.0");
    assert_eq!(mods.len(), 1);
}

#[test]
fn curseforge_manifest_without_loader_is_refused() {
    let manifest =
        CfManifest { minecraft_version: "1.20.1".to_string(), loaders: vec![], files: vec![] };
    assert_eq!(parse_curseforge(&manifest).unwrap_err(), PackError::NoLoader);
}

fn mr_file(path_name: &str, stem: &str, downloads: &[&str]) -> MrFile {
    MrFile {
        file_name: s(path_name),
        file_stem: s(stem),
        sha1: s("a1"),
        sha512: s("a512"),
        client_env: None,
        server_env: None,
        downloads: downloads.iter().map(|d| d.to_string()).collect(),
    }
}

#[test]
fn sides_follow_the_environments() {
    assert_eq!(file_side(&None, &None), SideType::Both);
    assert_eq!(file_side(&s("required"), &s("unsupported")), SideType::Client);
    assert_eq!(file_side(&s("unsupported"), &s("unsupported")), SideType::Client);
    assert_eq!(file_side(&s("unsupported"), &s("required")), SideType::Server);
    assert_eq!(file_side(&s("unsupported"), &None), SideType::Server);
    assert_eq!(file_side(&s("optional"), &s("optional")), SideType::Both);
    assert_eq!(file_side(&None, &s("Unsupported")), SideType::Both);
}

#[test]
fn listed_file_becomes_an_artifact() {
    let info = list_file(&mr_file("lithium.jar", "lithium", &["https://a/1", "https://b/2"])).unwrap();
    assert_eq!(info.name, "lithium");
    assert_eq!(info.file_name, "lithium.jar");
    assert_eq!(info.download_urls, vec!["https://a/1".to_string(), "https://b/2".to_string()]);
    assert_eq!(info.hash, "a512");
    assert_eq!(info.hash_algo, "sha512");
    assert_eq!(info.side, SideType::Both);
    assert!(info.is_required);
}

#[test]
fn digest_preference_and_fallbacks() {
    let mut f = mr_file("a.jar", "a", &["https://a/1"]);
    f.sha512 = None;
    let info = list_file(&f).unwrap();
    assert_eq!((info.hash.as_str(), info.hash_algo.as_str()), ("a1", "sha1"));
    f.sha1 = None;
    let info = list_file(&f).unwrap();
    assert_eq!((info.hash.as_str(), info.hash_algo.as_str()), ("", "none"));
    f.file_stem = None;
    assert_eq!(list_file(&f).unwrap().name, "a.jar");
    f.file_name = None;
    let info = list_file(&f).unwrap();
    assert_eq!((info.name.as_str(), info.file_name.as_str()), ("unknown.jar", "unknown.jar"));
}

#[test]
fn optional_server_files_are_not_required() {
    let mut f = mr_file("a.jar", "a", &["https://a/1"]);
    f.server_env = s("optional");
    f.client_env = s("unsupported");
    let info = list_file(&f).unwrap();
    assert!(!info.is_required);
    assert_eq!(info.side, SideType::Server);
}

#[test]
fn client_files_and_files_without_location_are_dropped() {
    let mut client = mr_file("a.jar", "a", &["https://a/1"]);
    client.server_env = s("unsupported");
    assert!(list_file(&client).is_none());
    assert!(list_file(&mr_file("a.jar", "a", &[])).is_none());
    assert!(list_file(&mr_file("a.jar", "a", &["", "https://b/2"])).is_none());
}

fn index(files: Vec<MrFile>) -> MrIndex {
    MrIndex {
        minecraft: s("1.20.1"),
        fabric_loader: None,
        forge: None,
        neoforge: None,
        quilt_loader: None,
        files,
    }
}

#[test]
fn modrinth_index_is_read() {
    let mut client = mr_file("c.jar", "c", &["https://c/1"]);
    client.server_env = s("unsupported");
    let mut i = index(vec![
        mr_file("a.jar", "a", &["https://a/1"]),
        client,
        mr_file("b.jar", "b", &["https://b/1"]),
    ]);
    i.quilt_loader = s("0.23.1");
    i.forge = s("47.2.0");
    let (context, mods) = parse_mrpack(&i).unwrap();
    assert_eq!(context.minecraft_version, "1.20.1");
    assert_eq!(context.loader_type, LoaderType::Forge);
    assert_eq!(context.loader_version, "47.2.0");
    assert_eq!(mods.iter().map(|m| m.name.as_str()).collect::<Vec<_>>(), vec!["a", "b"]);
}

#[test]
fn modrinth_loader_preference() {
    let mut i = index(vec![]);
    i.quilt_loader = s("q");
    assert_eq!(parse_mrpack(&i).unwrap().0.loader_type, LoaderType::Quilt);
    i.neoforge = s("n");
    assert_eq!(parse_mrpack(&i).unwrap().0.loader_type, LoaderType::NeoForge);
    i.forge = s("f");
    assert_eq!(parse_mrpack(&i).unwrap().0.loader_type, LoaderType::Forge);
    i.fabric_loader = s("fa");
    let (context, _) = parse_mrpack(&i).unwrap();
    assert_eq!((context.loader_type, context.loader_version.as_str()), (LoaderType::Fabric, "fa"));
}

#[test]
fn modrinth_index_errors() {
    assert_eq!(parse_mrpack(&index(vec![])).unwrap_err(), PackError::NoLoader);
    let mut i = index(vec![]);
    i.minecraft = None;
    i.forge = s("1");
    assert_eq!(parse_mrpack(&i).unwrap_err(), PackError::NoGameVersion);
}

#[test]
fn formats_are_tried_in_order() {
    assert_eq!(
        formats(),
        vec![MetadataFormat::FabricModJson, MetadataFormat::ModsToml, MetadataFormat::McmodInfo]
    );
    assert_eq!(entry_name(MetadataFormat::FabricModJson), "fabric.mod.json");
    assert_eq!(entry_name(MetadataFormat::ModsToml), "META-INF/mods.toml");
    assert_eq!(entry_name(MetadataFormat::McmodInfo), "mcmod.info");
}

fn same(a: &ModMetadata, name: Option<&str>, version: Option<&str>, id: Option<&str>) {
    assert_eq!(a.name.as_deref(), name);
    assert_eq!(a.version.as_deref(), version);
    assert_eq!(a.mod_id.as_deref(), id);
}

#[test]
fn fabric_name_falls_back_to_the_identifier() {
    same(&from_fabric(s("id"), s("Name"), s("1")), Some("Name"), Some("1"), Some("id"));
    same(&from_fabric(s("id"), None, None), Some("id"), None, Some("id"));
    same(&from_fabric(None, None, s("1")), None, Some("1"), None);
}

#[test]
fn forge_name_falls_back_to_the_identifier() {
    same(&from_mods_toml(s("id"), s("Shown"), s("2")), Some("Shown"), Some("2"), Some("id"));
    same(&from_mods_toml(s("id"), None, None), Some("id"), None, Some("id"));
}

#[test]
fn legacy_fields_are_taken_as_they_are() {
    same(&from_mcmod(s("id"), None, s("3")), None, Some("3"), Some("id"));
}

#[test]
fn legacy_manifest_shapes() {
    assert_eq!(mcmod_entry(true, false), McmodEntry::FirstOfList);
    assert_eq!(mcmod_entry(true, true), McmodEntry::FirstOfList);
    assert_eq!(mcmod_entry(false, true), McmodEntry::FirstOfModList);
    assert_eq!(mcmod_entry(false, false), McmodEntry::Whole);
}

#[test]
fn first_readable_manifest_decides() {
    let fabric = from_fabric(s("f"), None, None);
    let legacy = from_mcmod(s("m"), s("M"), None);
    same(&select_metadata(&vec![None, None, Some(legacy.clone())]), Some("M"), None, Some("m"));
    same(&select_metadata(&vec![Some(fabric), None, Some(legacy)]), Some("f"), None, Some("f"));
    same(&select_metadata(&vec![None, None, None]), None, None, None);
    same(&select_metadata(&vec![]), None, None, None);
}

#[test]
fn display_name_and_version() {
    let full = ModMetadata { name: s("A/B"), version: s(" 1.0 "), mod_id: s("ab") };
    assert_eq!(full.get_display_name("fallback"), "A_B");
    assert_eq!(full.get_version(), "1.0");
    let by_id = ModMetadata { name: None, version: None, mod_id: s("ab") };
    assert_eq!(by_id.get_display_name("fallback"), "ab");
    assert_eq!(by_id.get_version(), "unknown");
    let empty = ModMetadata::default();
    assert_eq!(empty.get_display_name("fall:back"), "fall_back");
    assert_eq!(empty.get_display_name(""), "unnamed");
    let blank = ModMetadata { name: s(""), version: s(""), mod_id: s("ab") };
    assert_eq!(blank.get_display_name("fallback"), "unnamed");
    assert_eq!(blank.get_version(), "unnamed");
}

#[test]
fn pack_errors_are_described() {
    assert_eq!(describe_pack_error(PackError::NoLoader), "No mod loader found in manifest");
    assert_eq!(
        describe_pack_error(PackError::NoGameVersion),
        "Minecraft version not found in manifest"
    );
    assert_eq!(
        describe_index_error(PackError::NoLoader),
        "Unsupported or missing loader in dependencies"
    );
    assert_eq!(
        describe_index_error(PackError::NoGameVersion),
        "Minecraft version not found in dependencies"
    );
}
