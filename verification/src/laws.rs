//! What holds of every resolution, proved from the definitions in
//! [`crate::resolution`].

use crate::command::{
    launcher_arguments, CommandView, LaunchView, NodeLaunchView, FALLBACK_SERVER_PATH,
    SERVER_ARGUMENT, WORKTREE_SERVER_PATH,
};
use crate::json::{parsed_json, Json};
use crate::paths::joined_path;
use crate::resolution::{
    command_files, config_candidates, config_path, configuration_files, configured_path,
    deno_json_lists_dprint, dprint_installed, first_readable, launch_plan, lists_dprint,
    package_json_lists_dprint, requires_config, resolve_command, resolve_config,
    workspace_configuration, CONFIG_FILE, DENO_JSON, HIDDEN_CONFIG_FILE, PACKAGE_JSON,
};
use crate::settings::{BinarySettingsView, LspSettingsView};
use crate::worktree::WorktreeView;
use vstd::prelude::*;

verus! {

/// A binary override that gives both a path and arguments is the command,
/// whatever the worktree holds and whatever the host would answer about
/// Node.
pub proof fn override_with_path_and_arguments_is_the_command(
    settings: LspSettingsView,
    worktree: WorktreeView,
    node_binary_path: Result<Seq<char>, Seq<char>>,
    path: Seq<char>,
    arguments: Seq<Seq<char>>,
)
    requires
        settings.binary == Some(
            BinarySettingsView { path: Some(path), arguments: Some(arguments) },
        ),
    ensures
        launch_plan(settings, worktree) == LaunchView::Override(
            CommandView { command: path, args: arguments, env: Seq::empty() },
        ),
        resolve_command(settings, worktree, node_binary_path) == Ok::<CommandView, Seq<char>>(
            CommandView { command: path, args: arguments, env: Seq::empty() },
        ),
{
}

/// A binary override that gives only a path is run with the standard
/// arguments.
pub proof fn override_with_path_alone_gets_standard_arguments(
    settings: LspSettingsView,
    worktree: WorktreeView,
    node_binary_path: Result<Seq<char>, Seq<char>>,
    path: Seq<char>,
)
    requires
        settings.binary == Some(BinarySettingsView { path: Some(path), arguments: None }),
    ensures
        launch_plan(settings, worktree) == LaunchView::Override(
            CommandView { command: path, args: seq![SERVER_ARGUMENT@], env: Seq::empty() },
        ),
        resolve_command(settings, worktree, node_binary_path) == Ok::<CommandView, Seq<char>>(
            CommandView { command: path, args: seq![SERVER_ARGUMENT@], env: Seq::empty() },
        ),
{
}

/// A binary override that gives no path runs the conventional launcher
/// inside the worktree, with the arguments that the override gives or else
/// the standard ones.
pub proof fn override_without_path_runs_the_conventional_launcher(
    settings: LspSettingsView,
    worktree: WorktreeView,
    node_binary_path: Result<Seq<char>, Seq<char>>,
    arguments: Option<Seq<Seq<char>>>,
)
    requires
        settings.binary == Some(BinarySettingsView { path: None, arguments }),
    ensures
        resolve_command(settings, worktree, node_binary_path) == Ok::<CommandView, Seq<char>>(
            CommandView {
                command: WORKTREE_SERVER_PATH@,
                args: match arguments {
                    Some(given) => given,
                    None => seq![SERVER_ARGUMENT@],
                },
                env: Seq::empty(),
            },
        ),
{
}

/// Without a binary override, a `package.json` that lists the formatter in
/// `section`, one of its two dependency tables, has the server run by the
/// host's Node runtime: the launcher inside the worktree comes first among
/// the arguments, the standard arguments after it.
pub proof fn package_json_entry_runs_through_node(
    settings: LspSettingsView,
    worktree: WorktreeView,
    node: Seq<char>,
    text: Seq<char>,
    document: Json,
    section: Seq<char>,
)
    requires
        settings.binary is None,
        worktree.read_text_file(PACKAGE_JSON@) == Some(text),
        parsed_json(text) == Some(document),
        section == "dependencies"@ || section == "devDependencies"@,
        lists_dprint(document, section),
    ensures
        launch_plan(settings, worktree) == LaunchView::ThroughNode(
            NodeLaunchView {
                args: seq![
                    joined_path(worktree.root_path, WORKTREE_SERVER_PATH@),
                    SERVER_ARGUMENT@,
                ],
            },
        ),
        resolve_command(settings, worktree, Ok(node)) == Ok::<CommandView, Seq<char>>(
            CommandView {
                command: node,
                args: seq![
                    joined_path(worktree.root_path, WORKTREE_SERVER_PATH@),
                    SERVER_ARGUMENT@,
                ],
                env: Seq::empty(),
            },
        ),
{
    let launcher = joined_path(worktree.root_path, WORKTREE_SERVER_PATH@);
    assert(launcher_arguments(launcher) =~= seq![launcher, SERVER_ARGUMENT@]);
}

/// Without a binary override, a `deno.json` that imports the formatter has
/// the server run by the host's Node runtime, exactly as a `package.json`
/// entry has.
pub proof fn deno_json_import_runs_through_node(
    settings: LspSettingsView,
    worktree: WorktreeView,
    node: Seq<char>,
    text: Seq<char>,
    document: Json,
)
    requires
        settings.binary is None,
        worktree.read_text_file(DENO_JSON@) == Some(text),
        parsed_json(text) == Some(document),
        lists_dprint(document, "imports"@),
    ensures
        launch_plan(settings, worktree) == LaunchView::ThroughNode(
            NodeLaunchView {
                args: seq![
                    joined_path(worktree.root_path, WORKTREE_SERVER_PATH@),
                    SERVER_ARGUMENT@,
                ],
            },
        ),
        resolve_command(settings, worktree, Ok(node)) == Ok::<CommandView, Seq<char>>(
            CommandView {
                command: node,
                args: seq![
                    joined_path(worktree.root_path, WORKTREE_SERVER_PATH@),
                    SERVER_ARGUMENT@,
                ],
                env: Seq::empty(),
            },
        ),
{
    let launcher = joined_path(worktree.root_path, WORKTREE_SERVER_PATH@);
    assert(launcher_arguments(launcher) =~= seq![launcher, SERVER_ARGUMENT@]);
}

/// Without a binary override and without a manifest that lists the
/// formatter, the fallback launcher is run directly with the standard
/// arguments. The host's Node runtime is not asked for, and its answer
/// would change nothing.
pub proof fn no_installation_falls_back(
    settings: LspSettingsView,
    worktree: WorktreeView,
    node_binary_path: Result<Seq<char>, Seq<char>>,
)
    requires
        settings.binary is None,
        !dprint_installed(worktree),
    ensures
        launch_plan(settings, worktree) == LaunchView::Fallback(
            CommandView {
                command: FALLBACK_SERVER_PATH@,
                args: seq![SERVER_ARGUMENT@],
                env: Seq::empty(),
            },
        ),
        resolve_command(settings, worktree, node_binary_path) == Ok::<CommandView, Seq<char>>(
            CommandView {
                command: FALLBACK_SERVER_PATH@,
                args: seq![SERVER_ARGUMENT@],
                env: Seq::empty(),
            },
        ),
{
}

/// A worktree in which neither manifest can be read shows no installation.
pub proof fn unreadable_manifests_show_no_installation(worktree: WorktreeView)
    requires
        !worktree.readable(PACKAGE_JSON@),
        !worktree.readable(DENO_JSON@),
    ensures
        !dprint_installed(worktree),
{
}

/// A manifest that is not JSON lists nothing, whichever manifest it is.
pub proof fn malformed_manifest_lists_nothing(text: Seq<char>)
    requires
        parsed_json(text) is None,
    ensures
        !package_json_lists_dprint(text),
        !deno_json_lists_dprint(text),
{
}

/// Resolving the command fails only where the server is to be run through
/// Node and the host cannot say where its runtime is; the error is then the
/// host's own. No manifest, readable or not, well-formed or not, makes it
/// fail.
pub proof fn command_fails_only_for_want_of_node(
    settings: LspSettingsView,
    worktree: WorktreeView,
    node_binary_path: Result<Seq<char>, Seq<char>>,
)
    ensures
        resolve_command(settings, worktree, node_binary_path) is Err <==> (settings.binary is None
            && dprint_installed(worktree) && node_binary_path is Err),
        resolve_command(settings, worktree, node_binary_path) matches Err(error)
            ==> node_binary_path == Err::<Seq<char>, Seq<char>>(error),
{
}

/// The launch decision depends on the worktree only through its root path
/// and the files that [`command_files`] names.
pub proof fn launch_depends_on_command_files_alone(
    settings: LspSettingsView,
    first: WorktreeView,
    second: WorktreeView,
)
    requires
        first.root_path == second.root_path,
        forall|i: int|
            0 <= i < command_files(settings).len() ==> first.read_text_file(
                #[trigger] command_files(settings)[i],
            ) == second.read_text_file(command_files(settings)[i]),
    ensures
        launch_plan(settings, first) == launch_plan(settings, second),
{
    if settings.binary is None {
        let files = command_files(settings);
        assert(files[0] == PACKAGE_JSON@ && files[1] == DENO_JSON@);
    }
}

/// Which candidate is found depends on the worktree only through which of
/// the candidates can be read.
pub proof fn first_readable_depends_on_candidates_alone(
    first: WorktreeView,
    second: WorktreeView,
    candidates: Seq<Seq<char>>,
)
    requires
        forall|i: int|
            0 <= i < candidates.len() ==> first.readable(#[trigger] candidates[i])
                == second.readable(candidates[i]),
    ensures
        first_readable(first, candidates) == first_readable(second, candidates),
    decreases candidates.len(),
{
    if candidates.len() > 0 {
        first_readable_depends_on_candidates_alone(first, second, candidates.drop_first());
    }
}

/// The workspace configuration depends on the worktree only through its
/// root path and through which of the files that [`configuration_files`]
/// names can be read.
pub proof fn configuration_depends_on_configuration_files_alone(
    settings: LspSettingsView,
    first: WorktreeView,
    second: WorktreeView,
)
    requires
        first.root_path == second.root_path,
        forall|i: int|
            0 <= i < configuration_files(settings).len() ==> first.readable(
                #[trigger] configuration_files(settings)[i],
            ) == second.readable(configuration_files(settings)[i]),
    ensures
        workspace_configuration(settings, first) == workspace_configuration(settings, second),
{
    match settings.settings {
        Some(user) => {
            let candidates = config_candidates(user);
            assert forall|i: int| 0 <= i < candidates.len() implies first.readable(
                #[trigger] candidates[i],
            ) == second.readable(candidates[i]) by {
                assert(configuration_files(settings)[i] == candidates[i]);
            }
            first_readable_depends_on_candidates_alone(first, second, candidates);
        },
        None => {},
    }
}

/// The configuration file that is found is one of the candidates, it can be
/// read, and no candidate before it can.
pub proof fn first_readable_is_the_first(worktree: WorktreeView, candidates: Seq<Seq<char>>)
    ensures
        match first_readable(worktree, candidates) {
            Some(found) => exists|at: int|
                0 <= at < candidates.len() && #[trigger] candidates[at] == found
                    && worktree.readable(found) && forall|before: int|
                    0 <= before < at ==> !worktree.readable(#[trigger] candidates[before]),
            None => forall|at: int|
                0 <= at < candidates.len() ==> !worktree.readable(#[trigger] candidates[at]),
        },
    decreases candidates.len(),
{
    if candidates.len() > 0 && !worktree.readable(candidates.first()) {
        let rest = candidates.drop_first();
        first_readable_is_the_first(worktree, rest);
        match first_readable(worktree, rest) {
            Some(found) => {
                let at = choose|at: int|
                    0 <= at < rest.len() && #[trigger] rest[at] == found && worktree.readable(
                        found,
                    ) && forall|before: int|
                        0 <= before < at ==> !worktree.readable(#[trigger] rest[before]);
                assert forall|before: int| 0 <= before < at + 1 implies !worktree.readable(
                    #[trigger] candidates[before],
                ) by {
                    if before > 0 {
                        assert(rest[before - 1] == candidates[before]);
                    }
                }
            },
            None => {
                assert forall|at: int| 0 <= at < candidates.len() implies !worktree.readable(
                    #[trigger] candidates[at],
                ) by {
                    if at > 0 {
                        assert(rest[at - 1] == candidates[at]);
                    }
                }
            },
        }
    }
}

/// Where the settings name a configuration file that cannot be read, there
/// is no configuration file, whatever else the worktree holds.
pub proof fn unreadable_configured_path_is_absent(
    worktree: WorktreeView,
    settings: Json,
    path: Seq<char>,
)
    requires
        configured_path(settings) == Some(path),
        !worktree.readable(path),
    ensures
        config_path(worktree, settings) is None,
        resolve_config(worktree, settings) is None,
{
    reveal_with_fuel(first_readable, 2);
}

/// Where the settings name a configuration file that can be read, it is the
/// configuration file.
pub proof fn readable_configured_path_is_used(
    worktree: WorktreeView,
    settings: Json,
    path: Seq<char>,
)
    requires
        configured_path(settings) == Some(path),
        worktree.readable(path),
    ensures
        config_path(worktree, settings) == Some(path),
        resolve_config(worktree, settings) == Some(joined_path(worktree.root_path, path)),
{
}

/// Where the settings name no configuration file, the conventional name is
/// used if it can be read.
pub proof fn conventional_config_file_is_preferred(worktree: WorktreeView, settings: Json)
    requires
        configured_path(settings) is None,
        worktree.readable(CONFIG_FILE@),
    ensures
        resolve_config(worktree, settings) == Some(
            joined_path(worktree.root_path, CONFIG_FILE@),
        ),
{
}

/// Where the settings name no configuration file and the worktree holds
/// the hidden conventional file but not the plain one, the hidden one is
/// used.
pub proof fn hidden_config_file_is_found(worktree: WorktreeView, settings: Json)
    requires
        configured_path(settings) is None,
        !worktree.readable(CONFIG_FILE@),
        worktree.readable(HIDDEN_CONFIG_FILE@),
    ensures
        resolve_config(worktree, settings) == Some(
            joined_path(worktree.root_path, HIDDEN_CONFIG_FILE@),
        ),
{
    reveal_with_fuel(first_readable, 2);
}

/// Where the settings name no configuration file and neither conventional
/// file can be read, there is no configuration file.
pub proof fn no_config_file_is_absent(worktree: WorktreeView, settings: Json)
    requires
        configured_path(settings) is None,
        !worktree.readable(CONFIG_FILE@),
        !worktree.readable(HIDDEN_CONFIG_FILE@),
    ensures
        resolve_config(worktree, settings) is None,
{
    reveal_with_fuel(first_readable, 3);
}

/// Settings that do not say whether a configuration file is required do
/// not require one.
pub proof fn config_is_not_required_by_default(settings: Json)
    requires
        settings.get("require_config_file"@) is None,
    ensures
        !requires_config(settings),
{
}

/// Settings that say with a boolean whether a configuration file is
/// required are taken at their word.
pub proof fn config_requirement_is_taken_literally(settings: Json, flag: bool)
    requires
        settings.get("require_config_file"@) == Some(Json::Bool(flag)),
    ensures
        requires_config(settings) == flag,
{
}

} // verus!
