//! What the manifest of a project tells about it.

use crate::cli_error::CliError;
use crate::outside::{
    toml_as_bool, toml_as_strings, toml_bool, toml_document, toml_entry, toml_error_text,
    toml_get, toml_parse, toml_texts,
};
use crate::text::same_text;
use vstd::prelude::*;

verus! {

/// What a manifest declares of the things that a contract project needs.
#[derive(Clone, Copy, Debug, PartialEq, Eq, Structural)]
pub struct ManifestChecks {
    pub has_dusk_forge_dependency: bool,
    pub has_cdylib: bool,
    pub has_contract_feature: bool,
    pub has_data_driver_feature: bool,
    pub has_release_overflow_checks: bool,
}

/// The entry at `a.b` of a document.
pub open spec fn entry2(document: toml::Value, a: Seq<char>, b: Seq<char>) -> Option<toml::Value> {
    match toml_entry(document, a) {
        Some(inner) => toml_entry(inner, b),
        None => None,
    }
}

/// The table `table`, if any, has an entry called `name`.
pub open spec fn declares(table: Option<toml::Value>, name: Seq<char>) -> bool {
    match table {
        Some(table) => toml_entry(table, name) is Some,
        None => false,
    }
}

/// The manifest depends on the contract framework, for all targets or for
/// WebAssembly targets.
pub open spec fn depends_on_forge(manifest: toml::Value) -> bool {
    declares(toml_entry(manifest, "dependencies"@), "dusk-forge"@) || declares(
        match entry2(manifest, "target"@, "cfg(target_family = \"wasm\")"@) {
            Some(target) => toml_entry(target, "dependencies"@),
            None => None,
        },
        "dusk-forge"@,
    )
}

/// One of the first `n` strings is `wanted`.
pub open spec fn lists(items: Seq<Option<Seq<char>>>, wanted: Seq<char>, n: nat) -> bool
    decreases n,
{
    if n == 0 || n > items.len() {
        false
    } else {
        lists(items, wanted, (n - 1) as nat) || items[n - 1] == Some(wanted)
    }
}

/// The library is built as a dynamic system library.
pub open spec fn builds_cdylib(manifest: toml::Value) -> bool {
    match entry2(manifest, "lib"@, "crate-type"@) {
        Some(types) => match toml_texts(types) {
            Some(items) => lists(items, "cdylib"@, items.len()),
            None => false,
        },
        None => false,
    }
}

/// The manifest declares the feature `name`.
pub open spec fn declares_feature(manifest: toml::Value, name: Seq<char>) -> bool {
    declares(toml_entry(manifest, "features"@), name)
}

/// Release builds check for arithmetic overflow.
pub open spec fn checks_overflow(manifest: toml::Value) -> bool {
    match entry2(manifest, "profile"@, "release"@) {
        Some(release) => match toml_entry(release, "overflow-checks"@) {
            Some(flag) => toml_bool(flag) == Some(true),
            None => false,
        },
        None => false,
    }
}

/// What the manifest `manifest` declares.
pub open spec fn checks_of(manifest: toml::Value) -> ManifestChecks {
    ManifestChecks {
        has_dusk_forge_dependency: depends_on_forge(manifest),
        has_cdylib: builds_cdylib(manifest),
        has_contract_feature: declares_feature(manifest, "contract"@),
        has_data_driver_feature: declares_feature(manifest, "data-driver"@) || declares_feature(
            manifest,
            "data-driver-js"@,
        ),
        has_release_overflow_checks: checks_overflow(manifest),
    }
}

/// The manifest belongs to a contract project: it depends on the
/// framework and builds a dynamic system library.
pub open spec fn is_forge_project(checks: ManifestChecks) -> bool {
    checks.has_dusk_forge_dependency && checks.has_cdylib
}

/// Looks up `a.b`.
fn get2<'a>(document: &'a toml::Value, a: &str, b: &str) -> (r: Option<&'a toml::Value>)
    ensures
        match r {
            Some(entry) => entry2(*document, a@, b@) == Some(*entry),
            None => entry2(*document, a@, b@) is None,
        },
{
    match toml_get(document, a) {
        Some(inner) => toml_get(inner, b),
        None => None,
    }
}

/// Tells whether a table has an entry called `name`.
pub fn has_dependency(table: Option<&toml::Value>, name: &str) -> (r: bool)
    ensures
        r == declares(
            match table {
                Some(table) => Some(*table),
                None => None,
            },
            name@,
        ),
{
    match table {
        Some(table) => toml_get(table, name).is_some(),
        None => false,
    }
}

/// Tells whether the manifest depends on the contract framework.
pub fn has_dusk_forge_dependency(manifest: &toml::Value) -> (r: bool)
    ensures
        r == depends_on_forge(*manifest),
{
    if has_dependency(toml_get(manifest, "dependencies"), "dusk-forge") {
        return true;
    }
    match get2(manifest, "target", "cfg(target_family = \"wasm\")") {
        Some(target) => has_dependency(toml_get(target, "dependencies"), "dusk-forge"),
        None => false,
    }
}

/// Tells whether the library is built as a dynamic system library.
pub fn has_cdylib(manifest: &toml::Value) -> (r: bool)
    ensures
        r == builds_cdylib(*manifest),
{
    let types = match get2(manifest, "lib", "crate-type") {
        Some(types) => types,
        None => {
            return false;
        },
    };
    let items = match toml_as_strings(types) {
        Some(items) => items,
        None => {
            return false;
        },
    };
    let ghost texts = toml_texts(*types)->0;
    let mut found = false;
    let mut i: usize = 0;
    while i < items.len()
        invariant
            i <= items.len(),
            texts.len() == items@.len(),
            forall|k: int|
                0 <= k < items@.len() ==> #[trigger] texts[k] == (match items@[k] {
                    Some(text) => Some(text@),
                    None => None,
                }),
            found == lists(texts, "cdylib"@, i as nat),
        decreases items.len() - i,
    {
        proof {
            assert(texts[i as int] == (match items@[i as int] {
                Some(text) => Some(text@),
                None => None,
            }));
        }
        match &items[i] {
            Some(text) => {
                if same_text(text.as_str(), "cdylib") {
                    found = true;
                }
            },
            None => {},
        }
        i = i + 1;
    }
    found
}

/// Tells whether the manifest declares the feature `name`.
pub fn has_feature(manifest: &toml::Value, name: &str) -> (r: bool)
    ensures
        r == declares_feature(*manifest, name@),
{
    has_dependency(toml_get(manifest, "features"), name)
}

/// Tells whether release builds check for arithmetic overflow.
pub fn has_release_overflow_checks(manifest: &toml::Value) -> (r: bool)
    ensures
        r == checks_overflow(*manifest),
{
    match get2(manifest, "profile", "release") {
        Some(release) => match toml_get(release, "overflow-checks") {
            Some(flag) => match toml_as_bool(flag) {
                Some(value) => value,
                None => false,
            },
            None => false,
        },
        None => false,
    }
}

/// Reads what a manifest declares. A text that is no TOML document is an
/// error.
pub fn inspect_manifest(manifest_text: &str) -> (r: Result<ManifestChecks, CliError>)
    ensures
        match toml_document(manifest_text@) {
            Some(manifest) => r == Ok::<ManifestChecks, CliError>(checks_of(manifest)),
            None => r matches Err(e) && e is Toml,
        },
{
    let manifest = match toml_parse(manifest_text) {
        Ok(manifest) => manifest,
        Err(e) => {
            return Err(CliError::Toml(toml_error_text(&e)));
        },
    };
    Ok(
        ManifestChecks {
            has_dusk_forge_dependency: has_dusk_forge_dependency(&manifest),
            has_cdylib: has_cdylib(&manifest),
            has_contract_feature: has_feature(&manifest, "contract"),
            has_data_driver_feature: has_feature(&manifest, "data-driver") || has_feature(
                &manifest,
                "data-driver-js",
            ),
            has_release_overflow_checks: has_release_overflow_checks(&manifest),
        },
    )
}

/// Decides whether checks are those of a contract project.
pub fn forge_project(checks: ManifestChecks, project_dir: &str) -> (r: Result<
    ManifestChecks,
    CliError,
>)
    ensures
        match r {
            Ok(same) => is_forge_project(checks) && same == checks,
            Err(e) => !is_forge_project(checks) && (e matches CliError::NotAForgeProject(path)
                && path@ == project_dir@),
        },
{
    if !checks.has_dusk_forge_dependency || !checks.has_cdylib {
        return Err(CliError::NotAForgeProject(String::from_str(project_dir)));
    }
    Ok(checks)
}

/// Makes sure that the manifest at `project_dir` is that of a contract
/// project.
pub fn ensure_forge_project(manifest_text: &str, project_dir: &str) -> (r: Result<
    ManifestChecks,
    CliError,
>)
    ensures
        match toml_document(manifest_text@) {
            None => r matches Err(e) && e is Toml,
            Some(manifest) => if is_forge_project(checks_of(manifest)) {
                r == Ok::<ManifestChecks, CliError>(checks_of(manifest))
            } else {
                r matches Err(CliError::NotAForgeProject(path)) && path@ == project_dir@
            },
        },
{
    match inspect_manifest(manifest_text) {
        Ok(checks) => forge_project(checks, project_dir),
        Err(e) => Err(e),
    }
}

} // verus!
