//! What the extension decides, stated as mathematics.
//!
//! Every decision is a function of the user's settings and of what the
//! worktree holds; the one thing asked of the host beyond that is the path to
//! its Node runtime. The executable code in [`crate::extension`] is proved to
//! compute exactly these functions.

use crate::command::{
    fallback_command, node_arguments, node_command, override_command, CommandView, LaunchView,
    NodeLaunchView,
};
use crate::configuration::FormatterOptionsView;
use crate::json::{parsed_json, Json};
use crate::paths::joined_path;
use crate::settings::LspSettingsView;
use crate::worktree::WorktreeView;
use vstd::prelude::*;

verus! {

/// The name under which package manifests list the formatter.
pub const PACKAGE_NAME: &'static str = "dprint";

/// The manifest of an npm package, relative to the worktree root.
pub const PACKAGE_JSON: &'static str = "package.json";

/// The manifest of a Deno project, relative to the worktree root.
pub const DENO_JSON: &'static str = "deno.json";

/// The configuration file that the formatter looks for first.
pub const CONFIG_FILE: &'static str = "dprint.json";

/// The hidden configuration file that the formatter accepts in its place.
pub const HIDDEN_CONFIG_FILE: &'static str = ".dprint.json";

/// Whether `document` is an object with a table `section` in which the
/// formatter's name is a key.
pub open spec fn lists_dprint(document: Json, section: Seq<char>) -> bool {
    match document.get(section) {
        Some(table) => table.get(PACKAGE_NAME@) is Some,
        None => false,
    }
}

/// Whether a parsed `package.json` names the formatter among its
/// dependencies or its development dependencies.
pub open spec fn package_manifest_lists_dprint(document: Json) -> bool {
    lists_dprint(document, "dependencies"@) || lists_dprint(document, "devDependencies"@)
}

/// Whether a parsed `deno.json` names the formatter among its imports.
pub open spec fn deno_manifest_lists_dprint(document: Json) -> bool {
    lists_dprint(document, "imports"@)
}

/// Whether the text of a `package.json` names the formatter. Text that is
/// not JSON names nothing.
pub open spec fn package_json_lists_dprint(text: Seq<char>) -> bool {
    match parsed_json(text) {
        Some(document) => package_manifest_lists_dprint(document),
        None => false,
    }
}

/// Whether the text of a `deno.json` names the formatter. Text that is not
/// JSON names nothing.
pub open spec fn deno_json_lists_dprint(text: Seq<char>) -> bool {
    match parsed_json(text) {
        Some(document) => deno_manifest_lists_dprint(document),
        None => false,
    }
}

/// Whether the worktree shows that the formatter is installed in it: one of
/// its two manifests can be read and names the formatter.
pub open spec fn dprint_installed(worktree: WorktreeView) -> bool {
    ||| match worktree.read_text_file(PACKAGE_JSON@) {
        Some(text) => package_json_lists_dprint(text),
        None => false,
    }
    ||| match worktree.read_text_file(DENO_JSON@) {
        Some(text) => deno_json_lists_dprint(text),
        None => false,
    }
}

/// The files that a launch decision looks at: none under a binary override,
/// the two manifests otherwise.
pub open spec fn command_files(settings: LspSettingsView) -> Seq<Seq<char>> {
    match settings.binary {
        Some(_) => Seq::empty(),
        None => seq![PACKAGE_JSON@, DENO_JSON@],
    }
}

/// How to start the server, up to the host's Node runtime. The first of
/// these that applies decides: a binary override; a local installation, run
/// through Node; the fallback launcher.
pub open spec fn launch_plan(settings: LspSettingsView, worktree: WorktreeView) -> LaunchView {
    match settings.binary {
        Some(binary) => LaunchView::Override(override_command(binary)),
        None => if dprint_installed(worktree) {
            LaunchView::ThroughNode(NodeLaunchView { args: node_arguments(worktree.root_path) })
        } else {
            LaunchView::Fallback(fallback_command())
        },
    }
}

/// The command that starts the server, where `node_binary_path` is what the
/// host answers when asked for its Node runtime. The answer matters only to
/// a launch through Node, and only there can its error come back.
pub open spec fn resolve_command(
    settings: LspSettingsView,
    worktree: WorktreeView,
    node_binary_path: Result<Seq<char>, Seq<char>>,
) -> Result<CommandView, Seq<char>> {
    match launch_plan(settings, worktree) {
        LaunchView::Override(command) => Ok(command),
        LaunchView::ThroughNode(launch) => node_command(launch, node_binary_path),
        LaunchView::Fallback(command) => Ok(command),
    }
}

/// The configuration file that the settings name, if they name one with a
/// string.
pub open spec fn configured_path(settings: Json) -> Option<Seq<char>> {
    match settings.get("config_path"@) {
        Some(value) => value.as_str(),
        None => None,
    }
}

/// The configuration file names that the formatter itself would look for,
/// in the order of preference.
pub open spec fn conventional_config_paths() -> Seq<Seq<char>> {
    seq![CONFIG_FILE@, HIDDEN_CONFIG_FILE@]
}

/// The files that may serve as the configuration file, best first: the one
/// that the settings name and no other, or else the conventional names.
pub open spec fn config_candidates(settings: Json) -> Seq<Seq<char>> {
    match configured_path(settings) {
        Some(path) => seq![path],
        None => conventional_config_paths(),
    }
}

/// The first of `candidates` that can be read in the worktree.
pub open spec fn first_readable(worktree: WorktreeView, candidates: Seq<Seq<char>>) -> Option<
    Seq<char>,
>
    decreases candidates.len(),
{
    if candidates.len() == 0 {
        None
    } else if worktree.readable(candidates.first()) {
        Some(candidates.first())
    } else {
        first_readable(worktree, candidates.drop_first())
    }
}

/// The configuration file to use, relative to the worktree root, if there is
/// one.
pub open spec fn config_path(worktree: WorktreeView, settings: Json) -> Option<Seq<char>> {
    first_readable(worktree, config_candidates(settings))
}

/// The configuration file to use, resolved against the worktree root, if
/// there is one.
pub open spec fn resolve_config(worktree: WorktreeView, settings: Json) -> Option<Seq<char>> {
    match config_path(worktree, settings) {
        Some(path) => Some(joined_path(worktree.root_path, path)),
        None => None,
    }
}

/// Whether the formatter is to fail where it finds no configuration file:
/// what the settings say with a boolean, and `false` where they do not.
pub open spec fn requires_config(settings: Json) -> bool {
    match settings.get("require_config_file"@) {
        Some(value) => value.as_bool() == Some(true),
        None => false,
    }
}

/// The files that the workspace configuration depends on: the candidates
/// for the configuration file, where the user wrote settings at all.
pub open spec fn configuration_files(settings: LspSettingsView) -> Seq<Seq<char>> {
    match settings.settings {
        Some(settings) => config_candidates(settings),
        None => Seq::empty(),
    }
}

/// The formatter's options as the settings and the worktree give them.
pub open spec fn formatter_options(worktree: WorktreeView, settings: Json) -> FormatterOptionsView {
    FormatterOptionsView {
        require_configuration: requires_config(settings),
        configuration_path: resolve_config(worktree, settings),
    }
}

/// The document that forwards `options` to the server: an object under the
/// formatter's name, empty where there are no options, so that the
/// formatter's own defaults hold; otherwise with the flag and with the
/// configuration file, a null standing for no file.
pub open spec fn options_document(options: Option<FormatterOptionsView>) -> Json {
    Json::Object(
        map![
            PACKAGE_NAME@ => Json::Object(
                match options {
                    Some(options) => map![
                        "requireConfiguration"@ => Json::Bool(options.require_configuration),
                        "configurationPath"@ => match options.configuration_path {
                            Some(path) => Json::String(path),
                            None => Json::Null,
                        },
                    ],
                    None => Map::empty(),
                },
            ),
        ],
    )
}

/// The workspace configuration handed to the running server: the
/// formatter's options where the user wrote settings, and none where not.
pub open spec fn workspace_configuration(
    settings: LspSettingsView,
    worktree: WorktreeView,
) -> Json {
    options_document(
        match settings.settings {
            Some(settings) => Some(formatter_options(worktree, settings)),
            None => None,
        },
    )
}

} // verus!
