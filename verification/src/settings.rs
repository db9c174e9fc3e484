//! The user's settings for the language server, as the host hands them over.

use crate::json::{json_view, Json};
use vstd::prelude::*;

verus! {

/// An override for the language server binary.
#[derive(Debug, Clone, PartialEq, Eq)]
pub struct BinarySettings {
    /// The executable to run instead of the one the extension would pick.
    pub path: Option<String>,
    /// The arguments to pass instead of the standard ones.
    pub arguments: Option<Vec<String>>,
}

/// [`BinarySettings`] as plain mathematics.
#[verifier::ext_equal]
pub struct BinarySettingsView {
    pub path: Option<Seq<char>>,
    pub arguments: Option<Seq<Seq<char>>>,
}

impl View for BinarySettings {
    type V = BinarySettingsView;

    open spec fn view(&self) -> BinarySettingsView {
        BinarySettingsView {
            path: self.path.deep_view(),
            arguments: self.arguments.deep_view(),
        }
    }
}

/// The settings of one language server in one worktree.
#[derive(Debug, Clone, PartialEq, Eq)]
pub struct LspSettings {
    /// The binary override, if the user wrote one.
    pub binary: Option<BinarySettings>,
    /// The free-form settings meant for the server, if the user wrote any.
    pub settings: Option<serde_json::Value>,
}

/// [`LspSettings`] as plain mathematics.
#[verifier::ext_equal]
pub struct LspSettingsView {
    pub binary: Option<BinarySettingsView>,
    pub settings: Option<Json>,
}

impl View for LspSettings {
    type V = LspSettingsView;

    open spec fn view(&self) -> LspSettingsView {
        LspSettingsView {
            binary: match self.binary {
                Some(binary) => Some(binary@),
                None => None,
            },
            settings: match self.settings {
                Some(settings) => Some(json_view(settings)),
                None => None,
            },
        }
    }
}

} // verus!
