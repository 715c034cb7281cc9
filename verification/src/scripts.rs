//! The files a finished server needs besides its mods: the licence
//! agreement, the start scripts, the memory setting, and the files a pack
//! carries along as overrides.

use crate::installer::{family_of, LoaderFamily};
use crate::models::{opt_view, LoaderType};
use crate::text::{
    chars_of, concat, contains, contains_text, ends_with, starts_with, string_of,
    strip_prefix_all, without_prefix_all,
};
use vstd::prelude::*;

verus! {

broadcast use vstd::string::group_string_axioms;

/// The content of the licence agreement file.
pub open spec fn eula_text(accept: bool) -> Seq<char> {
    if accept {
        "eula=true\n"@
    } else {
        "eula=false\n"@
    }
}

/// The content of `eula.txt`: accepted only where the operator said so.
pub fn eula_content(accept: bool) -> (r: String)
    ensures
        r@ == eula_text(accept),
{
    if accept {
        string_of(&chars_of("eula=true\n"))
    } else {
        string_of(&chars_of("eula=false\n"))
    }
}

/// The batch file that starts a server.
pub open spec fn batch_text(
    loader: LoaderType,
    java: Seq<char>,
    memory: Seq<char>,
    jar: Seq<char>,
) -> Seq<char> {
    match family_of(loader) {
        LoaderFamily::Installer => "@echo off\ncd /d \"%~dp0\"\nREM Forge/NeoForge uses user_jvm_args.txt for JVM arguments.\nREM Run the installer-generated script to start.\ncall run.bat\npause\n"@,
        LoaderFamily::ServerJar => "@echo off\ncd /d \"%~dp0\"\n"@ + java + " -Xmx"@ + memory
            + " -jar "@ + jar + " nogui\npause\n"@,
    }
}

/// The shell script that starts a server.
pub open spec fn shell_text(
    loader: LoaderType,
    java: Seq<char>,
    memory: Seq<char>,
    jar: Seq<char>,
) -> Seq<char> {
    match family_of(loader) {
        LoaderFamily::Installer => "#!/bin/sh\ncd \"$(dirname \"$0\")\"\n# Forge/NeoForge uses user_jvm_args.txt for JVM arguments.\n# Run the installer-generated script to start.\n./run.sh\n"@,
        LoaderFamily::ServerJar => "#!/bin/sh\ncd \"$(dirname \"$0\")\"\n"@ + java + " -Xmx"@
            + memory + " -jar "@ + jar + " nogui\n"@,
    }
}

fn command_line(head: &str, java: &str, memory: &str, jar: &str, tail: &str) -> (r: String)
    ensures
        r@ == head@ + java@ + " -Xmx"@ + memory@ + " -jar "@ + jar@ + tail@,
{
    let a = concat(&chars_of(head), &chars_of(java));
    let b = concat(&a, &chars_of(" -Xmx"));
    let c = concat(&b, &chars_of(memory));
    let d = concat(&c, &chars_of(" -jar "));
    let e = concat(&d, &chars_of(jar));
    string_of(&concat(&e, &chars_of(tail)))
}

/// The content of `start.bat`: for a server with an installer it hands over
/// to the script the installer made, else it runs the server jar with the
/// memory setting.
pub fn batch_script(loader: LoaderType, java_path: &str, memory: &str, server_jar: &str) -> (r:
    String)
    ensures
        r@ == batch_text(loader, java_path@, memory@, server_jar@),
{
    match loader {
        LoaderType::Forge | LoaderType::NeoForge => string_of(
            &chars_of(
                "@echo off\ncd /d \"%~dp0\"\nREM Forge/NeoForge uses user_jvm_args.txt for JVM arguments.\nREM Run the installer-generated script to start.\ncall run.bat\npause\n",
            ),
        ),
        _ => command_line(
            "@echo off\ncd /d \"%~dp0\"\n",
            java_path,
            memory,
            server_jar,
            " nogui\npause\n",
        ),
    }
}

/// The content of `start.sh`: as [`batch_script`], for a shell.
pub fn shell_script(loader: LoaderType, java_path: &str, memory: &str, server_jar: &str) -> (r:
    String)
    ensures
        r@ == shell_text(loader, java_path@, memory@, server_jar@),
{
    match loader {
        LoaderType::Forge | LoaderType::NeoForge => string_of(
            &chars_of(
                "#!/bin/sh\ncd \"$(dirname \"$0\")\"\n# Forge/NeoForge uses user_jvm_args.txt for JVM arguments.\n# Run the installer-generated script to start.\n./run.sh\n",
            ),
        ),
        _ => command_line(
            "#!/bin/sh\ncd \"$(dirname \"$0\")\"\n",
            java_path,
            memory,
            server_jar,
            " nogui\n",
        ),
    }
}

/// The lines that set the memory limit in the file of JVM arguments.
pub open spec fn memory_lines(memory: Seq<char>) -> Seq<char> {
    "\n# McPacker Memory Setting\n-Xmx"@ + memory + "\n"@
}

/// What is to be appended to the file of JVM arguments, given what it holds:
/// the memory setting, for a server with an installer whose arguments set no
/// limit yet; else nothing.
pub open spec fn memory_addition(loader: LoaderType, existing: Seq<char>, memory: Seq<char>)
    -> Option<Seq<char>> {
    if family_of(loader) == LoaderFamily::Installer && !contains_text(existing, "-Xmx"@) {
        Some(memory_lines(memory))
    } else {
        None
    }
}

/// Decides what to append to `user_jvm_args.txt`: see [`memory_addition`].
/// `existing` is what the file holds, empty where it is missing or
/// unreadable.
pub fn memory_argument(loader: LoaderType, existing: &str, memory: &str) -> (r: Option<String>)
    ensures
        opt_view(r) == memory_addition(loader, existing@, memory@),
{
    match loader {
        LoaderType::Forge | LoaderType::NeoForge => {
            if contains(&chars_of(existing), &chars_of("-Xmx")) {
                None
            } else {
                let a = concat(&chars_of("\n# McPacker Memory Setting\n-Xmx"), &chars_of(memory));
                Some(string_of(&concat(&a, &chars_of("\n"))))
            }
        },
        _ => None,
    }
}

/// The script that starts the server: the one the installer made where there
/// is one, else the one written here; a batch file on Windows.
pub open spec fn start_script_label(installer_script_exists: bool, windows: bool) -> Seq<char> {
    if installer_script_exists {
        if windows {
            "run.bat"@
        } else {
            "run.sh"@
        }
    } else {
        if windows {
            "start.bat"@
        } else {
            "start.sh"@
        }
    }
}

/// The name of the script to start the server with: see
/// [`start_script_label`].
pub fn start_script_name(installer_script_exists: bool, windows: bool) -> (r: String)
    ensures
        r@ == start_script_label(installer_script_exists, windows),
{
    if installer_script_exists {
        if windows {
            string_of(&chars_of("run.bat"))
        } else {
            string_of(&chars_of("run.sh"))
        }
    } else {
        if windows {
            string_of(&chars_of("start.bat"))
        } else {
            string_of(&chars_of("start.sh"))
        }
    }
}

/// Where an entry of a pack goes in the server directory, if it goes there at
/// all: files below `overrides/` go to the path that follows the prefix.
pub open spec fn override_target(name: Seq<char>) -> Option<Seq<char>> {
    if "overrides/"@.is_prefix_of(name) && !"/"@.is_suffix_of(name) {
        Some(strip_prefix_all(name, "overrides/"@))
    } else {
        None
    }
}

/// Tells where an entry of a pack is to be extracted to, relative to the
/// server directory: see [`override_target`]. Directories and entries outside
/// `overrides/` are left alone.
pub fn override_path(name: &str) -> (r: Option<String>)
    ensures
        opt_view(r) == override_target(name@),
{
    let chars = chars_of(name);
    let prefix = chars_of("overrides/");
    if starts_with(&chars, &prefix) && !ends_with(&chars, &chars_of("/")) {
        Some(string_of(&without_prefix_all(&chars, &prefix)))
    } else {
        None
    }
}

/// An override whose path would leave the server directory.
#[derive(Clone, Debug)]
pub struct UnsafeOverride {
    /// The name of the entry as the pack has it.
    pub name: String,
}

/// Lets an override through only if its path is made of ordinary components
/// alone: no root, no parent directory, no drive. Whether it is depends on
/// the system's notion of a path, so the caller finds out and says.
pub fn admit_override(name: &str, only_normal_components: bool) -> (r: Result<(), UnsafeOverride>)
    ensures
        r is Ok <==> only_normal_components,
        r matches Err(e) ==> e.name@ == name@,
{
    if only_normal_components {
        Ok(())
    } else {
        Err(UnsafeOverride { name: string_of(&chars_of(name)) })
    }
}

/// What is said of an override whose path would leave the server directory.
pub open spec fn override_complaint(name: Seq<char>) -> Seq<char> {
    "Malicious path detected in modpack: "@ + name
}

/// The message for a refused override: see [`override_complaint`].
pub fn describe_unsafe_override(error: &UnsafeOverride) -> (r: String)
    ensures
        r@ == override_complaint(error.name@),
{
    string_of(
        &concat(&chars_of("Malicious path detected in modpack: "), &chars_of(error.name.as_str())),
    )
}

} // verus!
