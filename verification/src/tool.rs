//! What the plugin tells the host about the tool.

use crate::text::{option_view, strings_view};
use vstd::prelude::*;

verus! {

/// The kinds of tools that a plugin can provide.
#[derive(Clone, Copy, Debug, PartialEq, Eq)]
pub enum PluginType {
    Language,
    DependencyManager,
    CLI,
}

/// The description of the tool.
#[derive(Debug, PartialEq, Eq)]
pub struct ToolMetadataOutput {
    /// The name of the tool, for people to read.
    pub name: String,
    /// The version of the plugin.
    pub plugin_version: Option<String>,
    /// The kind of the tool.
    pub type_of: PluginType,
}

/// The description of the tool, as sequences of characters.
pub struct ToolMetadataView {
    pub name: Seq<char>,
    pub plugin_version: Option<Seq<char>>,
    pub type_of: PluginType,
}

impl View for ToolMetadataOutput {
    type V = ToolMetadataView;

    open spec fn view(&self) -> ToolMetadataView {
        ToolMetadataView {
            name: self.name@,
            plugin_version: option_view(self.plugin_version),
            type_of: self.type_of,
        }
    }
}

/// The files that may pin the version of a project.
#[derive(Debug, PartialEq, Eq)]
pub struct DetectVersionOutput {
    /// The names of the files, in the order in which they are looked for.
    pub files: Vec<String>,
}

impl View for DetectVersionOutput {
    type V = Seq<Seq<char>>;

    open spec fn view(&self) -> Seq<Seq<char>> {
        strings_view(self.files@)
    }
}

} // verus!
