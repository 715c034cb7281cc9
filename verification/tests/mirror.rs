use mcpacker::mirror::{
    get_file_id_from_url, get_project_id_from_url, is_api_endpoint, metadata_url,
    synthesize_mirror,
};

#[test]
fn identifiers_follow_their_keys() {
    let url = "https://www.curseforge.com/api/v1/mods/238222/files/4712345/download";
    assert_eq!(get_project_id_from_url(url), "238222");
    assert_eq!(get_file_id_from_url(url), "4712345");
}

#[test]
fn missing_keys_give_zero() {
    assert_eq!(get_project_id_from_url("https://example.com/a/b"), "0");
    assert_eq!(get_file_id_from_url("https://example.com/mods/5"), "0");
    assert_eq!(get_project_id_from_url(""), "0");
}

#[test]
fn key_in_last_place_gives_zero() {
    assert_eq!(get_project_id_from_url("https://example.com/mods"), "0");
    assert_eq!(get_file_id_from_url("a/files"), "0");
}

#[test]
fn only_the_first_key_counts() {
    assert_eq!(get_project_id_from_url("x/mods/1/mods/2"), "1");
    assert_eq!(get_project_id_from_url("x/mods//mods/2"), "");
    assert_eq!(get_file_id_from_url("files/files"), "files");
}

#[test]
fn keys_are_whole_segments() {
    assert_eq!(get_project_id_from_url("x/mymods/1"), "0");
    assert_eq!(get_project_id_from_url("x/Mods/1"), "0");
}

#[test]
fn api_endpoints_are_recognized() {
    assert!(is_api_endpoint("https://www.curseforge.com/api/v1/mods/1/files/2/download"));
    assert!(is_api_endpoint("curseforge.com/api"));
    assert!(!is_api_endpoint("https://www.curseforge.com/minecraft/mc-mods/jei"));
    assert!(!is_api_endpoint("https://cdn.modrinth.com/data/x/versions/y/z.jar"));
    assert!(!is_api_endpoint(""));
}

#[test]
fn metadata_location_drops_the_download_suffix() {
    assert_eq!(metadata_url("https://h/api/mods/1/files/2/download"), "https://h/api/mods/1/files/2");
    assert_eq!(metadata_url("https://h/x/download/download"), "https://h/x");
    assert_eq!(metadata_url("https://h/x/download/"), "https://h/x/download/");
    assert_eq!(metadata_url("https://h/x"), "https://h/x");
    assert_eq!(metadata_url("/download"), "");
}

#[test]
fn mirror_is_built_from_both_identifiers() {
    assert_eq!(
        synthesize_mirror("https://www.curseforge.com/api/v1/mods/238222/files/4712345/download"),
        Some("https://www.cursemaven.com/curse/maven/O-238222/4712345/dummy.jar".to_string())
    );
}

#[test]
fn mirror_needs_both_identifiers() {
    assert_eq!(synthesize_mirror("https://h/api/mods/1/download"), None);
    assert_eq!(synthesize_mirror("https://h/api/files/2/download"), None);
    assert_eq!(synthesize_mirror("https://h/api/mods/0/files/2"), None);
    assert_eq!(synthesize_mirror("https://h/api/mods/1/files/0"), None);
    assert_eq!(synthesize_mirror(""), None);
}
