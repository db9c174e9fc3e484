//! The extension: where the server is started from, and what it is told.

use crate::command::{command_result_view, string_result_view, Command, Launch, NodeLaunch};
use crate::configuration::{workspace_configuration, FormatterOptions};
use crate::json;
use crate::json::json_view;
use crate::manifest::{deno_manifest_lists_dprint, package_manifest_lists_dprint};
use crate::paths;
use crate::resolution;
use crate::resolution::{CONFIG_FILE, DENO_JSON, HIDDEN_CONFIG_FILE, PACKAGE_JSON};
use crate::settings::LspSettings;
use crate::worktree::Worktree;
use vstd::prelude::*;
use vstd::string::StringExecFns;

verus! {

/// The first of `candidates` that the worktree can read.
fn first_readable(worktree: &Worktree, candidates: &Vec<String>) -> (found: Option<String>)
    ensures
        found.deep_view() == resolution::first_readable(worktree@, candidates.deep_view()),
{
    let ghost all = candidates.deep_view();
    let mut next: usize = 0;
    assert(all.skip(0) =~= all);
    while next < candidates.len()
        invariant
            next <= candidates.len(),
            all == candidates.deep_view(),
            resolution::first_readable(worktree@, all) == resolution::first_readable(
                worktree@,
                all.skip(next as int),
            ),
        decreases candidates.len() - next,
    {
        let candidate = &candidates[next];
        assert(all.skip(next as int).drop_first() == all.skip(next + 1));
        if worktree.read_text_file(candidate.as_str()).is_some() {
            return Some(candidate.clone());
        }
        next += 1;
    }
    None
}

/// The dprint extension. It holds no state: every answer depends on the
/// settings and the worktree that the call is given.
#[derive(Debug, Clone, Copy, PartialEq, Eq)]
pub struct DprintExtension;

impl DprintExtension {
    /// A new extension.
    pub fn new() -> (extension: DprintExtension)
        ensures
            extension == DprintExtension,
    {
        DprintExtension
    }

    /// Whether the formatter is installed in the worktree, judged by its
    /// manifests: `package.json` lists it as a dependency or a development
    /// dependency, or `deno.json` imports it. A manifest that cannot be read
    /// or is not JSON lists nothing.
    pub fn worktree_dprint_exists(&self, worktree: &Worktree) -> (installed: bool)
        ensures
            installed == resolution::dprint_installed(worktree@),
    {
        let in_package_json = match worktree.read_text_file(PACKAGE_JSON) {
            Some(text) => match json::parse(text.as_str()) {
                Some(document) => package_manifest_lists_dprint(&document),
                None => false,
            },
            None => false,
        };
        let in_deno_json = match worktree.read_text_file(DENO_JSON) {
            Some(text) => match json::parse(text.as_str()) {
                Some(document) => deno_manifest_lists_dprint(&document),
                None => false,
            },
            None => false,
        };
        in_package_json || in_deno_json
    }

    /// The worktree files that [`Self::language_server_command`] looks at
    /// under these settings. The host needs to have read no others.
    pub fn command_files(&self, settings: &LspSettings) -> (paths: Vec<String>)
        ensures
            paths.deep_view() == resolution::command_files(settings@),
    {
        let mut paths: Vec<String> = Vec::new();
        if settings.binary.is_none() {
            paths.push(String::from_str(PACKAGE_JSON));
            paths.push(String::from_str(DENO_JSON));
        }
        paths
    }

    /// Decides how to start the language server. A binary override in the
    /// settings wins; else a local installation is run through the host's
    /// Node runtime, which the host is then asked for; else the fallback
    /// launcher is tried as it is.
    pub fn language_server_command(&self, settings: LspSettings, worktree: &Worktree) -> (launch:
        Launch)
        ensures
            launch@ == resolution::launch_plan(settings@, worktree@),
    {
        match settings.binary {
            Some(binary) => Launch::Override(Command::from_override(binary)),
            None => if self.worktree_dprint_exists(worktree) {
                Launch::ThroughNode(NodeLaunch::in_worktree(worktree.root_path()))
            } else {
                Launch::Fallback(Command::fallback())
            },
        }
    }

    /// The command that starts the language server, for a host that has
    /// already asked for its Node runtime and got `node_binary_path` for an
    /// answer. The answer is used only where
    /// [`Self::language_server_command`] decides for a launch through Node;
    /// a host that is not to ask in vain calls that function and asks
    /// afterwards.
    pub fn resolve_command(
        &self,
        settings: LspSettings,
        worktree: &Worktree,
        node_binary_path: Result<String, String>,
    ) -> (resolved: Result<Command, String>)
        ensures
            command_result_view(resolved) == resolution::resolve_command(
                settings@,
                worktree@,
                string_result_view(node_binary_path),
            ),
    {
        match self.language_server_command(settings, worktree) {
            Launch::Override(command) => Ok(command),
            Launch::ThroughNode(launch) => launch.into_command(node_binary_path),
            Launch::Fallback(command) => Ok(command),
        }
    }

    /// The files that may serve as the configuration file, best first.
    pub fn config_candidates(&self, settings: &serde_json::Value) -> (candidates: Vec<String>)
        ensures
            candidates.deep_view() == resolution::config_candidates(json_view(*settings)),
    {
        let configured = match json::get(settings, "config_path") {
            Some(value) => value.as_str(),
            None => None,
        };
        let mut candidates: Vec<String> = Vec::new();
        match configured {
            Some(path) => {
                candidates.push(String::from_str(path));
            },
            None => {
                candidates.push(String::from_str(CONFIG_FILE));
                candidates.push(String::from_str(HIDDEN_CONFIG_FILE));
            },
        }
        candidates
    }

    /// The configuration file to use, relative to the worktree root. Where
    /// the settings name a file, it is that file or none; otherwise the
    /// first conventional name that can be read.
    pub fn config_path(&self, worktree: &Worktree, settings: &serde_json::Value) -> (found: Option<
        String,
    >)
        ensures
            found.deep_view() == resolution::config_path(worktree@, json_view(*settings)),
    {
        let candidates = self.config_candidates(settings);
        first_readable(worktree, &candidates)
    }

    /// Whether the formatter is to treat a missing configuration file as an
    /// error.
    pub fn require_config_file(&self, settings: &serde_json::Value) -> (required: bool)
        ensures
            required == resolution::requires_config(json_view(*settings)),
    {
        match json::get(settings, "require_config_file") {
            Some(value) => match value.as_bool() {
                Some(flag) => flag,
                None => false,
            },
            None => false,
        }
    }

    /// The worktree files that
    /// [`Self::language_server_workspace_configuration`] looks at under
    /// these settings. The host needs to have read no others.
    pub fn configuration_files(&self, settings: &LspSettings) -> (paths: Vec<String>)
        ensures
            paths.deep_view() == resolution::configuration_files(settings@),
    {
        match &settings.settings {
            Some(user) => self.config_candidates(user),
            None => Vec::new(),
        }
    }

    /// The configuration file to use, resolved against the worktree root.
    pub fn resolve_config(&self, worktree: &Worktree, settings: &serde_json::Value) -> (found:
        Option<String>)
        ensures
            found.deep_view() == resolution::resolve_config(worktree@, json_view(*settings)),
    {
        match self.config_path(worktree, settings) {
            Some(relative) => Some(paths::join(worktree.root_path(), relative.as_str())),
            None => None,
        }
    }

    /// The formatter's options that the settings and the worktree call for.
    pub fn formatter_options(&self, worktree: &Worktree, settings: &serde_json::Value) -> (options:
        FormatterOptions)
        ensures
            options@ == resolution::formatter_options(worktree@, json_view(*settings)),
    {
        FormatterOptions {
            require_configuration: self.require_config_file(settings),
            configuration_path: self.resolve_config(worktree, settings),
        }
    }

    /// Builds the workspace configuration for the running server: the
    /// formatter's options where the user wrote settings, and an empty
    /// object where not.
    pub fn language_server_workspace_configuration(
        &self,
        settings: &LspSettings,
        worktree: &Worktree,
    ) -> (configuration: serde_json::Value)
        ensures
            json_view(configuration) == resolution::workspace_configuration(settings@, worktree@),
    {
        workspace_configuration(
            match &settings.settings {
                Some(user) => Some(self.formatter_options(worktree, user)),
                None => None,
            },
        )
    }
}

} // verus!
