use zed_dprint::configuration::{workspace_configuration, FormatterOptions};
use zed_dprint::extension::DprintExtension;
use zed_dprint::settings::LspSettings;
use zed_dprint::worktree::Worktree;

fn worktree_of(root: &str, files: &[&str]) -> Worktree {
    let mut worktree = Worktree::new(root.to_string());
    for path in files {
        worktree.insert(path.to_string(), "{}".to_string());
    }
    worktree
}

fn json(text: &str) -> serde_json::Value {
    serde_json::from_str(text).unwrap()
}

fn user_settings(text: &str) -> LspSettings {
    LspSettings { binary: None, settings: Some(json(text)) }
}

fn paths(items: &[&str]) -> Vec<String> {
    items.iter().map(|s| s.to_string()).collect()
}

#[test]
fn unreadable_configured_path_is_absent_despite_conventional_file() {
    let extension = DprintExtension::new();
    let settings = json(r#"{"config_path": "custom.json"}"#);
    let worktree = worktree_of("/project", &["dprint.json", ".dprint.json"]);
    assert_eq!(extension.config_path(&worktree, &settings), None);
    assert_eq!(extension.resolve_config(&worktree, &settings), None);
}

#[test]
fn readable_configured_path_is_used() {
    let extension = DprintExtension::new();
    let settings = json(r#"{"config_path": "custom.json"}"#);
    let worktree = worktree_of("/project", &["dprint.json", "custom.json"]);
    assert_eq!(extension.config_path(&worktree, &settings), Some("custom.json".to_string()));
    assert_eq!(
        extension.resolve_config(&worktree, &settings),
        Some("/project/custom.json".to_string())
    );
}

#[test]
fn configured_path_in_a_directory_is_resolved_against_the_root() {
    let extension = DprintExtension::new();
    let settings = json(r#"{"config_path": "config/dprint.json"}"#);
    let worktree = worktree_of("/home/me/site", &["config/dprint.json"]);
    assert_eq!(
        extension.resolve_config(&worktree, &settings),
        Some("/home/me/site/config/dprint.json".to_string())
    );
}

#[test]
fn hidden_config_file_is_found_without_the_plain_one() {
    let extension = DprintExtension::new();
    let settings = json("{}");
    let worktree = worktree_of("/project", &[".dprint.json"]);
    assert_eq!(extension.config_path(&worktree, &settings), Some(".dprint.json".to_string()));
    assert_eq!(
        extension.resolve_config(&worktree, &settings),
        Some("/project/.dprint.json".to_string())
    );
}

#[test]
fn plain_config_file_is_preferred_to_the_hidden_one() {
    let extension = DprintExtension::new();
    let settings = json("{}");
    let worktree = worktree_of("/project", &[".dprint.json", "dprint.json"]);
    assert_eq!(
        extension.resolve_config(&worktree, &settings),
        Some("/project/dprint.json".to_string())
    );
}

#[test]
fn no_config_file_is_absent() {
    let extension = DprintExtension::new();
    let settings = json("{}");
    let worktree = worktree_of("/project", &["package.json", "dprint.jsonc"]);
    assert_eq!(extension.config_path(&worktree, &settings), None);
    assert_eq!(extension.resolve_config(&worktree, &settings), None);
}

#[test]
fn configured_path_that_is_no_string_is_not_a_configured_path() {
    let extension = DprintExtension::new();
    let worktree = worktree_of("/project", &["dprint.json", "7", "true"]);
    for text in [
        r#"{"config_path": 7}"#,
        r#"{"config_path": true}"#,
        r#"{"config_path": null}"#,
        r#"{"config_path": ["dprint.json"]}"#,
        r#"{"config_path": {"path": "custom.json"}}"#,
    ] {
        assert_eq!(
            extension.resolve_config(&worktree, &json(text)),
            Some("/project/dprint.json".to_string()),
            "settings {}",
            text
        );
    }
}

#[test]
fn settings_that_are_no_object_name_no_path() {
    let extension = DprintExtension::new();
    let worktree = worktree_of("/project", &[".dprint.json", "config_path"]);
    for text in [r#""config_path""#, r#"["config_path"]"#, "null", "1"] {
        assert_eq!(
            extension.config_candidates(&json(text)),
            paths(&["dprint.json", ".dprint.json"]),
            "settings {}",
            text
        );
        assert_eq!(
            extension.config_path(&worktree, &json(text)),
            Some(".dprint.json".to_string()),
            "settings {}",
            text
        );
    }
}

#[test]
fn candidates_are_the_configured_path_alone() {
    let extension = DprintExtension::new();
    assert_eq!(
        extension.config_candidates(&json(r#"{"config_path": "custom.json"}"#)),
        paths(&["custom.json"])
    );
}

#[test]
fn candidates_are_the_conventional_names_in_order() {
    let extension = DprintExtension::new();
    assert_eq!(
        extension.config_candidates(&json(r#"{"require_config_file": true}"#)),
        paths(&["dprint.json", ".dprint.json"])
    );
}

#[test]
fn config_is_not_required_when_unset() {
    let extension = DprintExtension::new();
    assert!(!extension.require_config_file(&json("{}")));
    assert!(!extension.require_config_file(&json(r#"{"config_path": "dprint.json"}"#)));
    assert!(!extension.require_config_file(&json("null")));
}

#[test]
fn config_requirement_is_the_literal_boolean() {
    let extension = DprintExtension::new();
    assert!(extension.require_config_file(&json(r#"{"require_config_file": true}"#)));
    assert!(!extension.require_config_file(&json(r#"{"require_config_file": false}"#)));
}

#[test]
fn config_requirement_that_is_no_boolean_is_false() {
    let extension = DprintExtension::new();
    for text in [
        r#"{"require_config_file": "true"}"#,
        r#"{"require_config_file": 1}"#,
        r#"{"require_config_file": null}"#,
        r#"{"require_config_file": [true]}"#,
        r#"{"requireConfigFile": true}"#,
    ] {
        assert!(!extension.require_config_file(&json(text)), "settings {}", text);
    }
}

#[test]
fn formatter_options_hold_the_flag_and_the_resolved_path() {
    let extension = DprintExtension::new();
    let worktree = worktree_of("/project", &[".dprint.json"]);
    assert_eq!(
        extension.formatter_options(&worktree, &json(r#"{"require_config_file": true}"#)),
        FormatterOptions {
            require_configuration: true,
            configuration_path: Some("/project/.dprint.json".to_string()),
        }
    );
    assert_eq!(
        extension.formatter_options(&worktree, &json(r#"{"config_path": "gone.json"}"#)),
        FormatterOptions { require_configuration: false, configuration_path: None }
    );
}

#[test]
fn no_user_settings_forward_an_empty_object() {
    let extension = DprintExtension::new();
    let settings = LspSettings { binary: None, settings: None };
    let worktree = worktree_of("/project", &["dprint.json"]);
    assert_eq!(
        extension.language_server_workspace_configuration(&settings, &worktree),
        json(r#"{"dprint": {}}"#)
    );
}

#[test]
fn user_settings_forward_the_flag_and_the_path() {
    let extension = DprintExtension::new();
    let settings = user_settings(r#"{"require_config_file": true, "config_path": "custom.json"}"#);
    let worktree = worktree_of("/project", &["custom.json"]);
    assert_eq!(
        extension.language_server_workspace_configuration(&settings, &worktree),
        json(
            r#"{"dprint": {"requireConfiguration": true, "configurationPath": "/project/custom.json"}}"#
        )
    );
}

#[test]
fn absent_config_file_is_forwarded_as_null() {
    let extension = DprintExtension::new();
    let settings = user_settings(r#"{"config_path": "custom.json"}"#);
    let worktree = worktree_of("/project", &["dprint.json"]);
    assert_eq!(
        extension.language_server_workspace_configuration(&settings, &worktree),
        json(r#"{"dprint": {"requireConfiguration": false, "configurationPath": null}}"#)
    );
}

#[test]
fn empty_user_settings_forward_the_defaults() {
    let extension = DprintExtension::new();
    let settings = user_settings("{}");
    let worktree = worktree_of("/project", &["dprint.json"]);
    assert_eq!(
        extension.language_server_workspace_configuration(&settings, &worktree),
        json(
            r#"{"dprint": {"requireConfiguration": false, "configurationPath": "/project/dprint.json"}}"#
        )
    );
}

#[test]
fn workspace_configuration_of_no_options_is_an_empty_section() {
    assert_eq!(workspace_configuration(None), json(r#"{"dprint": {}}"#));
}

#[test]
fn workspace_configuration_of_options_holds_both_members() {
    let options = FormatterOptions {
        require_configuration: false,
        configuration_path: Some("/a/b.json".to_string()),
    };
    assert_eq!(
        workspace_configuration(Some(options)),
        json(r#"{"dprint": {"configurationPath": "/a/b.json", "requireConfiguration": false}}"#)
    );
    let options = FormatterOptions { require_configuration: true, configuration_path: None };
    assert_eq!(
        workspace_configuration(Some(options)),
        json(r#"{"dprint": {"configurationPath": null, "requireConfiguration": true}}"#)
    );
}

#[test]
fn configuration_files_are_the_candidates() {
    let extension = DprintExtension::new();
    assert_eq!(
        extension.configuration_files(&user_settings(r#"{"config_path": "custom.json"}"#)),
        paths(&["custom.json"])
    );
    assert_eq!(
        extension.configuration_files(&user_settings("{}")),
        paths(&["dprint.json", ".dprint.json"])
    );
}

#[test]
fn configuration_files_are_none_without_user_settings() {
    let extension = DprintExtension::new();
    let settings = LspSettings { binary: None, settings: None };
    assert_eq!(extension.configuration_files(&settings), Vec::<String>::new());
}

#[test]
fn configuration_is_repeatable() {
    let extension = DprintExtension::new();
    let settings = user_settings(r#"{"require_config_file": true}"#);
    let worktree = worktree_of("/project", &[".dprint.json"]);
    assert_eq!(
        extension.language_server_workspace_configuration(&settings, &worktree),
        extension.language_server_workspace_configuration(&settings, &worktree)
    );
}
