//! What installing a server loader takes: where its files are fetched from,
//! what the install script says, and when a fetched installer may be run.

use crate::models::{LoaderType, ServerContext};
use crate::text::{chars_of, concat, lowercase, lowercase_of, same_text, string_of};
use vstd::prelude::*;

verus! {

broadcast use vstd::string::group_string_axioms;

/// How a loader gets onto a server.
#[derive(Clone, Copy, Debug, PartialEq, Eq, Structural)]
pub enum LoaderFamily {
    /// The loader publishes a server jar that runs as it is.
    ServerJar,
    /// The loader publishes an installer that has to be run.
    Installer,
}

/// The family of a loader: Fabric and Quilt publish server jars, Forge and
/// NeoForge installers.
pub open spec fn family_of(loader: LoaderType) -> LoaderFamily {
    match loader {
        LoaderType::Fabric | LoaderType::Quilt => LoaderFamily::ServerJar,
        LoaderType::Forge | LoaderType::NeoForge => LoaderFamily::Installer,
    }
}

/// Tells how the loader gets onto a server: see [`family_of`].
pub fn loader_family(loader: LoaderType) -> (r: LoaderFamily)
    ensures
        r == family_of(loader),
{
    match loader {
        LoaderType::Fabric | LoaderType::Quilt => LoaderFamily::ServerJar,
        LoaderType::Forge | LoaderType::NeoForge => LoaderFamily::Installer,
    }
}

/// Where the server jar of a Fabric or Quilt server is fetched from.
pub open spec fn server_jar_location(
    loader: LoaderType,
    minecraft: Seq<char>,
    version: Seq<char>,
) -> Seq<char> {
    if loader == LoaderType::Quilt {
        "https://meta.quiltmc.org/v3/versions/loader/"@ + minecraft + "/"@ + version
            + "/server/jar"@
    } else {
        "https://meta.fabricmc.net/v2/versions/loader/"@ + minecraft + "/"@ + version
            + "/1.0.1/server/jar"@
    }
}

/// The version under which an installer is published: for NeoForge the loader
/// version, for Forge the game version and the loader version.
pub open spec fn installer_version(
    loader: LoaderType,
    minecraft: Seq<char>,
    version: Seq<char>,
) -> Seq<char> {
    if loader == LoaderType::NeoForge {
        version
    } else {
        minecraft + "-"@ + version
    }
}

/// Where the installer of a Forge or NeoForge server is fetched from.
pub open spec fn installer_location(
    loader: LoaderType,
    minecraft: Seq<char>,
    version: Seq<char>,
) -> Seq<char> {
    let v = installer_version(loader, minecraft, version);
    if loader == LoaderType::NeoForge {
        "https://maven.neoforged.net/releases/net/neoforged/neoforge/"@ + v + "/neoforge-"@ + v
            + "-installer.jar"@
    } else {
        "https://maven.minecraftforge.net/net/minecraftforge/forge/"@ + v + "/forge-"@ + v
            + "-installer.jar"@
    }
}

/// The location of the server jar for a Fabric or Quilt server: see
/// [`server_jar_location`].
pub fn server_jar_url(context: &ServerContext) -> (r: String)
    ensures
        r@ == server_jar_location(
            context.loader_type,
            context.minecraft_version@,
            context.loader_version@,
        ),
{
    let mc = chars_of(context.minecraft_version.as_str());
    let v = chars_of(context.loader_version.as_str());
    let slash = chars_of("/");
    let (head, tail) = if context.loader_type == LoaderType::Quilt {
        (chars_of("https://meta.quiltmc.org/v3/versions/loader/"), chars_of("/server/jar"))
    } else {
        (
            chars_of("https://meta.fabricmc.net/v2/versions/loader/"),
            chars_of("/1.0.1/server/jar"),
        )
    };
    let a = concat(&head, &mc);
    let b = concat(&a, &slash);
    let c = concat(&b, &v);
    string_of(&concat(&c, &tail))
}

/// The location of the installer for a Forge or NeoForge server: see
/// [`installer_location`].
pub fn installer_url(context: &ServerContext) -> (r: String)
    ensures
        r@ == installer_location(
            context.loader_type,
            context.minecraft_version@,
            context.loader_version@,
        ),
{
    let mc = chars_of(context.minecraft_version.as_str());
    let version = chars_of(context.loader_version.as_str());
    let neo = context.loader_type == LoaderType::NeoForge;
    let v = if neo {
        version
    } else {
        concat(&concat(&mc, &chars_of("-")), &version)
    };
    let (head, mid) = if neo {
        (
            chars_of("https://maven.neoforged.net/releases/net/neoforged/neoforge/"),
            chars_of("/neoforge-"),
        )
    } else {
        (
            chars_of("https://maven.minecraftforge.net/net/minecraftforge/forge/"),
            chars_of("/forge-"),
        )
    };
    let tail = chars_of("-installer.jar");
    let a = concat(&head, &v);
    let b = concat(&a, &mid);
    let c = concat(&b, &v);
    string_of(&concat(&c, &tail))
}

/// The file name under which a loader's download is stored.
pub open spec fn download_name(family: LoaderFamily) -> Seq<char> {
    match family {
        LoaderFamily::ServerJar => "server.jar"@,
        LoaderFamily::Installer => "installer.jar"@,
    }
}

/// The file name under which a loader's download is stored: `server.jar` or
/// `installer.jar`.
pub fn loader_file_name(family: LoaderFamily) -> (r: String)
    ensures
        r@ == download_name(family),
{
    match family {
        LoaderFamily::ServerJar => string_of(&chars_of("server.jar")),
        LoaderFamily::Installer => string_of(&chars_of("installer.jar")),
    }
}

/// The command that runs the installer.
pub open spec fn install_command(java: Seq<char>, installer: Seq<char>) -> Seq<char> {
    java + " -jar "@ + installer + " --installServer"@
}

/// The content of the script that runs the installer: see
/// [`install_command`].
pub fn install_script(java_path: &str, installer_name: &str) -> (r: String)
    ensures
        r@ == install_command(java_path@, installer_name@),
{
    let a = concat(&chars_of(java_path), &chars_of(" -jar "));
    let b = concat(&a, &chars_of(installer_name));
    string_of(&concat(&b, &chars_of(" --installServer")))
}

/// The name of the install script on the given kind of system.
pub open spec fn install_script_label(windows: bool) -> Seq<char> {
    if windows {
        "install_forge.bat"@
    } else {
        "install_forge.sh"@
    }
}

/// The name of the install script: a batch file on Windows, a shell script
/// elsewhere.
pub fn install_script_name(windows: bool) -> (r: String)
    ensures
        r@ == install_script_label(windows),
{
    if windows {
        string_of(&chars_of("install_forge.bat"))
    } else {
        string_of(&chars_of("install_forge.sh"))
    }
}

/// An installer whose digest is not the expected one.
#[derive(Clone, Debug)]
pub struct HashMismatch {
    pub expected: String,
    pub computed: String,
}

/// Whether two digests are the same once both are in lowercase.
pub open spec fn same_lowercase(a: Seq<char>, b: Seq<char>) -> bool {
    lowercase_of(a) == lowercase_of(b)
}

/// Checks a computed SHA-256 digest against the expected one, both taken in
/// lowercase. The error carries both as they were given.
pub fn verify_sha256(computed_hex: &str, expected_hex: &str) -> (r: Result<(), HashMismatch>)
    ensures
        r is Ok <==> same_lowercase(computed_hex@, expected_hex@),
        r matches Err(e) ==> e.expected@ == expected_hex@ && e.computed@ == computed_hex@,
{
    let c = chars_of(computed_hex);
    let e = chars_of(expected_hex);
    if same_text(&lowercase(&c), &lowercase(&e)) {
        Ok(())
    } else {
        Err(HashMismatch { expected: string_of(&e), computed: string_of(&c) })
    }
}

/// What was done about an installer's digest.
#[derive(Clone, Copy, Debug, PartialEq, Eq, Structural)]
pub enum InstallerCheck {
    /// An expected digest was given, and verification was switched off.
    Skipped,
    /// The digest is the expected one.
    Verified,
    /// No expected digest was given.
    NotProvided,
}

/// What is to be done about an installer's digest, and how it ends.
pub open spec fn installer_verdict(
    computed: Seq<char>,
    expected: Option<Seq<char>>,
    skip: bool,
) -> Option<InstallerCheck> {
    match expected {
        None => Some(InstallerCheck::NotProvided),
        Some(e) => if skip {
            Some(InstallerCheck::Skipped)
        } else if same_lowercase(computed, e) {
            Some(InstallerCheck::Verified)
        } else {
            None
        },
    }
}

/// Decides whether a fetched installer may be run. It may not only where an
/// expected digest was given, verification is on, and the digests differ.
pub fn check_installer(computed_hex: &str, expected_hex: Option<&str>, skip_verify: bool) -> (r:
    Result<InstallerCheck, HashMismatch>)
    ensures
        match installer_verdict(
            computed_hex@,
            match expected_hex {
                Some(e) => Some(e@),
                None => None,
            },
            skip_verify,
        ) {
            Some(check) => r == Ok::<InstallerCheck, HashMismatch>(check),
            None => r matches Err(e) && e.computed@ == computed_hex@ && Some(e.expected@) == (
            match expected_hex {
                Some(x) => Some(x@),
                None => None,
            }),
        },
{
    match expected_hex {
        None => Ok(InstallerCheck::NotProvided),
        Some(expected) => if skip_verify {
            Ok(InstallerCheck::Skipped)
        } else {
            match verify_sha256(computed_hex, expected) {
                Ok(()) => Ok(InstallerCheck::Verified),
                Err(e) => Err(e),
            }
        },
    }
}

/// What is said of an installer whose digest is not the expected one.
pub open spec fn mismatch_sentence(expected: Seq<char>, computed: Seq<char>) -> Seq<char> {
    "Installer hash mismatch: expected "@ + expected + ", got "@ + computed
}

/// The message for an installer whose digest is not the expected one: see
/// [`mismatch_sentence`].
pub fn describe_hash_mismatch(error: &HashMismatch) -> (r: String)
    ensures
        r@ == mismatch_sentence(error.expected@, error.computed@),
{
    let a = concat(&chars_of("Installer hash mismatch: expected "), &chars_of(error.expected.as_str()));
    let b = concat(&a, &chars_of(", got "));
    string_of(&concat(&b, &chars_of(error.computed.as_str())))
}

} // verus!
