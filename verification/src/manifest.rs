//! What a parsed package manifest says about the formatter.

use crate::json;
use crate::json::json_view;
use crate::resolution;
use crate::resolution::PACKAGE_NAME;
use vstd::prelude::*;

verus! {

/// Whether `document` lists the formatter in its table `section`.
fn lists_dprint(document: &serde_json::Value, section: &str) -> (listed: bool)
    ensures
        listed == resolution::lists_dprint(json_view(*document), section@),
{
    match json::get(document, section) {
        Some(table) => json::get(table, PACKAGE_NAME).is_some(),
        None => false,
    }
}

/// Whether a parsed `package.json` lists the formatter as a dependency or
/// as a development dependency.
pub fn package_manifest_lists_dprint(document: &serde_json::Value) -> (listed: bool)
    ensures
        listed == resolution::package_manifest_lists_dprint(json_view(*document)),
{
    lists_dprint(document, "dependencies") || lists_dprint(document, "devDependencies")
}

/// Whether a parsed `deno.json` lists the formatter among its imports.
pub fn deno_manifest_lists_dprint(document: &serde_json::Value) -> (listed: bool)
    ensures
        listed == resolution::deno_manifest_lists_dprint(json_view(*document)),
{
    lists_dprint(document, "imports")
}

} // verus!
