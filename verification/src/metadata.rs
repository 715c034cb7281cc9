//! The manifests an artifact may carry inside, and what each says.
//!
//! Three formats are known. They are tried in a fixed order, and the first
//! that can be read decides; a format that cannot be read does not stand in
//! the way of the next.

use crate::models::{opt_view, MetadataModel, ModMetadata};
use crate::text::{chars_of, string_of};
use vstd::prelude::*;

verus! {

broadcast use vstd::string::group_string_axioms;

/// A format of embedded manifest.
#[derive(Clone, Copy, Debug, PartialEq, Eq, Structural)]
pub enum MetadataFormat {
    FabricModJson,
    ModsToml,
    McmodInfo,
}

/// The order in which the formats are tried.
pub open spec fn format_order() -> Seq<MetadataFormat> {
    seq![MetadataFormat::FabricModJson, MetadataFormat::ModsToml, MetadataFormat::McmodInfo]
}

/// The formats in the order in which they are tried.
pub fn formats() -> (r: Vec<MetadataFormat>)
    ensures
        r@ == format_order(),
{
    let mut r: Vec<MetadataFormat> = Vec::new();
    r.push(MetadataFormat::FabricModJson);
    r.push(MetadataFormat::ModsToml);
    r.push(MetadataFormat::McmodInfo);
    assert(r@ =~= format_order());
    r
}

/// The name of the archive entry that holds a format's manifest.
pub open spec fn entry_label(format: MetadataFormat) -> Seq<char> {
    match format {
        MetadataFormat::FabricModJson => "fabric.mod.json"@,
        MetadataFormat::ModsToml => "META-INF/mods.toml"@,
        MetadataFormat::McmodInfo => "mcmod.info"@,
    }
}

/// The name of the archive entry that holds a format's manifest.
pub fn entry_name(format: MetadataFormat) -> (r: String)
    ensures
        r@ == entry_label(format),
{
    match format {
        MetadataFormat::FabricModJson => string_of(&chars_of("fabric.mod.json")),
        MetadataFormat::ModsToml => string_of(&chars_of("META-INF/mods.toml")),
        MetadataFormat::McmodInfo => string_of(&chars_of("mcmod.info")),
    }
}

/// The first of two values that is there.
pub open spec fn or_else(a: Option<Seq<char>>, b: Option<Seq<char>>) -> Option<Seq<char>> {
    match a {
        Some(x) => Some(x),
        None => b,
    }
}

fn copy_opt(s: &Option<String>) -> (r: Option<String>)
    ensures
        opt_view(r) == opt_view(*s),
{
    match s {
        Some(x) => Some(x.clone()),
        None => None,
    }
}

/// What a Fabric manifest says: the name is its name or else its identifier.
pub fn from_fabric(id: Option<String>, name: Option<String>, version: Option<String>) -> (r:
    ModMetadata)
    ensures
        r@ == (MetadataModel {
            name: or_else(opt_view(name), opt_view(id)),
            version: opt_view(version),
            mod_id: opt_view(id),
        }),
{
    let shown = match name {
        Some(n) => Some(n),
        None => copy_opt(&id),
    };
    ModMetadata { name: shown, version, mod_id: id }
}

/// What the first mod of a Forge manifest says: the name is its display name
/// or else its identifier.
pub fn from_mods_toml(
    mod_id: Option<String>,
    display_name: Option<String>,
    version: Option<String>,
) -> (r: ModMetadata)
    ensures
        r@ == (MetadataModel {
            name: or_else(opt_view(display_name), opt_view(mod_id)),
            version: opt_view(version),
            mod_id: opt_view(mod_id),
        }),
{
    let shown = match display_name {
        Some(n) => Some(n),
        None => copy_opt(&mod_id),
    };
    ModMetadata { name: shown, version, mod_id }
}

/// What a legacy manifest says: its fields as they are.
pub fn from_mcmod(modid: Option<String>, name: Option<String>, version: Option<String>) -> (r:
    ModMetadata)
    ensures
        r@ == (MetadataModel {
            name: opt_view(name),
            version: opt_view(version),
            mod_id: opt_view(modid),
        }),
{
    ModMetadata { name, version, mod_id: modid }
}

/// Which part of a legacy manifest describes the mod.
#[derive(Clone, Copy, Debug, PartialEq, Eq, Structural)]
pub enum McmodEntry {
    /// The manifest is a list: its first element.
    FirstOfList,
    /// The manifest has a `modList`: the first element of that.
    FirstOfModList,
    /// The manifest itself.
    Whole,
}

/// Tells which part of a legacy manifest describes the mod, from its shape: a
/// list counts before a `modList`, and that before the manifest itself.
pub fn mcmod_entry(is_list: bool, has_mod_list: bool) -> (r: McmodEntry)
    ensures
        is_list ==> r == McmodEntry::FirstOfList,
        !is_list && has_mod_list ==> r == McmodEntry::FirstOfModList,
        !is_list && !has_mod_list ==> r == McmodEntry::Whole,
{
    if is_list {
        McmodEntry::FirstOfList
    } else if has_mod_list {
        McmodEntry::FirstOfModList
    } else {
        McmodEntry::Whole
    }
}

/// The views of metadata that may be missing.
pub open spec fn read_views(v: Seq<Option<ModMetadata>>) -> Seq<Option<MetadataModel>> {
    Seq::new(
        v.len(),
        |i: int|
            match v[i] {
                Some(m) => Some(m@),
                None => None,
            },
    )
}

/// What the first manifest that could be read says; nothing at all where
/// none could.
pub open spec fn first_read(read: Seq<Option<MetadataModel>>) -> MetadataModel
    decreases read.len(),
{
    if read.len() == 0 {
        MetadataModel { name: None, version: None, mod_id: None }
    } else {
        match read[0] {
            Some(m) => m,
            None => first_read(read.drop_first()),
        }
    }
}

/// Picks what an artifact says about itself from what each format gave, in
/// the order of [`formats`]: the first that could be read decides.
pub fn select_metadata(read: &Vec<Option<ModMetadata>>) -> (r: ModMetadata)
    ensures
        r@ == first_read(read_views(read@)),
{
    let ghost all = read_views(read@);
    let mut i: usize = 0;
    assert(all.skip(0) =~= all);
    while i < read.len()
        invariant
            i <= read.len(),
            all == read_views(read@),
            first_read(all.skip(i as int)) == first_read(all),
        decreases read.len() - i,
    {
        proof {
            assert(all.skip(i as int).drop_first() =~= all.skip(i + 1));
            assert(all.skip(i as int)[0] == all[i as int]);
        }
        match &read[i] {
            Some(m) => {
                return ModMetadata {
                    name: copy_opt(&m.name),
                    version: copy_opt(&m.version),
                    mod_id: copy_opt(&m.mod_id),
                };
            },
            None => {},
        }
        i += 1;
    }
    ModMetadata { name: None, version: None, mod_id: None }
}

} // verus!
