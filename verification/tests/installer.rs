use mcpacker::installer::{
    check_installer, describe_hash_mismatch, install_script, install_script_name, installer_url, loader_family,
    loader_file_name, server_jar_url, verify_sha256, InstallerCheck, LoaderFamily,
};
use mcpacker::models::{LoaderType, ServerContext};

fn context(loader_type: LoaderType, mc: &str, version: &str) -> ServerContext {
    ServerContext {
        minecraft_version: mc.to_string(),
        loader_type,
        loader_version: version.to_string(),
    }
}

#[test]
fn loaders_fall_into_two_families() {
    assert_eq!(loader_family(LoaderType::Fabric), LoaderFamily::ServerJar);
    assert_eq!(loader_family(LoaderType::Quilt), LoaderFamily::ServerJar);
    assert_eq!(loader_family(LoaderType::Forge), LoaderFamily::Installer);
    assert_eq!(loader_family(LoaderType::NeoForge), LoaderFamily::Installer);
}

#[test]
fn fabric_server_jar_location() {
    assert_eq!(
        server_jar_url(&context(LoaderType::Fabric, "1.20.1", "0.15.7")),
        "https://meta.fabricmc.net/v2/versions/loader/1.20.1/0.15.7/1.0.1/server/jar"
    );
}

#[test]
fn quilt_server_jar_location() {
    assert_eq!(
        server_jar_url(&context(LoaderType::Quilt, "1.20.1", "0.23.1")),
        "https://meta.quiltmc.org/v3/versions/loader/1.20.1/0.23.1/server/jar"
    );
}

#[test]
fn forge_installer_location() {
    assert_eq!(
        installer_url(&context(LoaderType::Forge, "1.20.1", "47.2.0")),
        "https://maven.minecraftforge.net/net/minecraftforge/forge/1.20.1-47.2.0/forge-1.20.1-47.2.0-installer.jar"
    );
}

#[test]
fn neoforge_installer_location() {
    assert_eq!(
        installer_url(&context(LoaderType::NeoForge, "1.20.4", "20.4.80")),
        "https://maven.neoforged.net/releases/net/neoforged/neoforge/20.4.80/neoforge-20.4.80-installer.jar"
    );
}

#[test]
fn loader_downloads_are_named_by_family() {
    assert_eq!(loader_file_name(LoaderFamily::ServerJar), "server.jar");
    assert_eq!(loader_file_name(LoaderFamily::Installer), "installer.jar");
}

#[test]
fn install_script_runs_the_installer() {
    assert_eq!(
        install_script("/usr/bin/java", "installer.jar"),
        "/usr/bin/java -jar installer.jar --installServer"
    );
    assert_eq!(install_script_name(true), "install_forge.bat");
    assert_eq!(install_script_name(false), "install_forge.sh");
}

#[test]
fn sha256_check_ignores_case() {
    assert!(verify_sha256("ABCDEF01", "abcdef01").is_ok());
    assert!(verify_sha256("abcdef01", "abcdef01").is_ok());
    assert!(verify_sha256("", "").is_ok());
}

#[test]
fn sha256_mismatch_carries_both_digests() {
    let e = verify_sha256("AA11", "bb22").unwrap_err();
    assert_eq!(e.expected, "bb22");
    assert_eq!(e.computed, "AA11");
    assert!(verify_sha256("aa", "aaa").is_err());
}

#[test]
fn installer_verdicts() {
    assert_eq!(check_installer("aa", None, false).unwrap(), InstallerCheck::NotProvided);
    assert_eq!(check_installer("aa", None, true).unwrap(), InstallerCheck::NotProvided);
    assert_eq!(check_installer("aa", Some("bb"), true).unwrap(), InstallerCheck::Skipped);
    assert_eq!(check_installer("aa", Some("AA"), false).unwrap(), InstallerCheck::Verified);
    let e = check_installer("aa", Some("bb"), false).unwrap_err();
    assert_eq!((e.computed.as_str(), e.expected.as_str()), ("aa", "bb"));
}

#[test]
fn hash_mismatch_is_described() {
    let e = verify_sha256("aa11", "bb22").unwrap_err();
    assert_eq!(describe_hash_mismatch(&e), "Installer hash mismatch: expected bb22, got aa11");
}
