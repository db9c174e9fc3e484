//! The options that the running server is told.

use crate::json;
use crate::json::{json_view, object_members};
use crate::resolution::{options_document, PACKAGE_NAME};
use vstd::prelude::*;
use vstd::string::StringExecFns;

verus! {

/// The formatter's options that this extension sets.
#[derive(Debug, Clone, PartialEq, Eq)]
pub struct FormatterOptions {
    /// Whether the formatter is to fail where it finds no configuration file.
    pub require_configuration: bool,
    /// The configuration file to use, resolved against the worktree root.
    pub configuration_path: Option<String>,
}

/// [`FormatterOptions`] as plain mathematics.
#[verifier::ext_equal]
pub struct FormatterOptionsView {
    pub require_configuration: bool,
    pub configuration_path: Option<Seq<char>>,
}

impl View for FormatterOptions {
    type V = FormatterOptionsView;

    open spec fn view(&self) -> FormatterOptionsView {
        FormatterOptionsView {
            require_configuration: self.require_configuration,
            configuration_path: self.configuration_path.deep_view(),
        }
    }
}

/// `Some` options as plain mathematics, `None` as it is.
pub open spec fn options_view(options: Option<FormatterOptions>) -> Option<FormatterOptionsView> {
    match options {
        Some(options) => Some(options@),
        None => None,
    }
}

/// Builds the JSON document that forwards `options` to the server.
pub fn workspace_configuration(options: Option<FormatterOptions>) -> (document: serde_json::Value)
    ensures
        json_view(document) == options_document(options_view(options)),
{
    let mut members: Vec<(String, serde_json::Value)> = Vec::new();
    match options {
        Some(options) => {
            let required = json::boolean(options.require_configuration);
            let path = match options.configuration_path {
                Some(path) => json::string(path),
                None => json::null(),
            };
            members.push((String::from_str("requireConfiguration"), required));
            members.push((String::from_str("configurationPath"), path));
            proof {
                reveal_strlit("requireConfiguration");
                reveal_strlit("configurationPath");
                assert("requireConfiguration"@.len() != "configurationPath"@.len());
                reveal_with_fuel(object_members, 3);
            }
        },
        None => {},
    }
    let section = json::object(members);
    let mut sections: Vec<(String, serde_json::Value)> = Vec::new();
    sections.push((String::from_str(PACKAGE_NAME), section));
    proof {
        reveal_with_fuel(object_members, 2);
    }
    json::object(sections)
}

} // verus!
