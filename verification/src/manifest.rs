//! Probing the crate manifest for binary targets.
//!
//! Whether a crate declares binaries decides how the compiled resource is
//! handed to the linker: binaries get a per-binary link argument, while a
//! bare library falls back to a search-path directive.  The manifest text is
//! TOML; parsing it is the `toml` crate's business, taken on trust below, and
//! the decision on top of it is verified.

use vstd::prelude::*;

verus! {

/// The TOML map type, declared so its values can pass through signatures.
#[verifier::external_type_specification]
#[verifier::external_body]
#[verifier::reject_recursive_types(K)]
#[verifier::reject_recursive_types(V)]
pub struct ExTomlMap<K, V>(toml::map::Map<K, V>);

/// The TOML value type, declared as the map's value parameter.
#[verifier::external_type_specification]
#[verifier::external_body]
pub struct ExTomlValue(toml::Value);

/// The top-level keys of the table that the given TOML text parses to, or
/// `None` when the text does not parse.
pub uninterp spec fn toml_manifest_keys(s: Seq<char>) -> Option<Set<Seq<char>>>;

/// The keys a parsed TOML table holds.
pub uninterp spec fn toml_table_keys(t: toml::map::Map<String, toml::Value>) -> Set<Seq<char>>;

/// Relies on toml's `FromStr` for `Table`: TOML text parses to a table —
/// deterministically, a function of the text alone — or fails.
#[verifier::external_body]
fn parse_manifest_table(text: &str) -> (r: Option<toml::map::Map<String, toml::Value>>)
    ensures
        match r {
            Some(t) => toml_manifest_keys(text@) == Some(toml_table_keys(t)),
            None => toml_manifest_keys(text@) is None,
        },
{
    text.parse::<toml::Table>().ok()
}

/// Relies on `toml::map::Map::contains_key`: whether the table holds the
/// key.
#[verifier::external_body]
fn table_contains_key(t: &toml::map::Map<String, toml::Value>, key: &str) -> (r: bool)
    ensures
        r == toml_table_keys(*t).contains(key@),
{
    t.contains_key(key)
}

/// Whether manifest text declares a `bin` section; text that does not parse
/// declares nothing.
pub fn manifest_declares_bin(text: &str) -> (r: bool)
    ensures
        r == match toml_manifest_keys(text@) {
            Some(keys) => keys.contains("bin"@),
            None => false,
        },
{
    match parse_manifest_table(text) {
        Some(t) => table_contains_key(&t, "bin"),
        None => false,
    }
}

/// Whether the crate being built has binaries: its manifest (when readable)
/// declares a `bin` section, or the conventional main source file exists, or
/// the conventional binaries directory does.
pub fn has_binaries(
    manifest_text: Option<&str>,
    main_rs_exists: bool,
    bin_dir_exists: bool,
) -> (r: bool)
    ensures
        r == ({
            let declares = match manifest_text {
                Some(text) => match toml_manifest_keys(text@) {
                    Some(keys) => keys.contains("bin"@),
                    None => false,
                },
                None => false,
            };
            declares || main_rs_exists || bin_dir_exists
        }),
{
    let declares = match manifest_text {
        Some(text) => manifest_declares_bin(text),
        None => false,
    };
    declares || main_rs_exists || bin_dir_exists
}

/// Whether a version triple is at least the given bound, ordered
/// lexicographically by major, minor, patch.
pub open spec fn spec_version_at_least(
    major: u64,
    minor: u64,
    patch: u64,
    bound_major: u64,
    bound_minor: u64,
    bound_patch: u64,
) -> bool {
    ||| major > bound_major
    ||| (major == bound_major && minor > bound_minor)
    ||| (major == bound_major && minor == bound_minor && patch >= bound_patch)
}

/// Compare a compiler version triple against a bound.
pub fn version_at_least(
    major: u64,
    minor: u64,
    patch: u64,
    bound_major: u64,
    bound_minor: u64,
    bound_patch: u64,
) -> (r: bool)
    ensures
        r == spec_version_at_least(major, minor, patch, bound_major, bound_minor, bound_patch),
{
    major > bound_major || (major == bound_major && (minor > bound_minor || (minor == bound_minor
        && patch >= bound_patch)))
}

} // verus!
