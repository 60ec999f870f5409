//! A status-line generator: a fixed set of system-information modules, each
//! producing a small formatted snapshot, assembled by a coordinator into one
//! output line in a chosen markup dialect, with a line-oriented command
//! protocol for forcing single modules to refresh. Everything that computes
//! or decides lives here with a contract; probing, scheduling and transport
//! are left to the surrounding program.

pub mod bar;
pub mod command;
pub mod config;
pub mod module_trait;
pub mod modules;
pub mod num;
pub mod parse;
pub mod render;
pub mod text;

use vstd::prelude::*;

verus! {

/// The immutable snapshot a module hands to the renderer: the formatted
/// display text, an optional icon glyph, and an optional color directive
/// for the icon (meaningful only when the icon is present).
pub struct ModuleOutput {
    pub value: String,
    pub icon: Option<String>,
    pub icon_color: Option<String>,
}

/// The mathematical shape of a snapshot: its texts as character sequences.
pub struct SnapshotView {
    pub value: Seq<char>,
    pub icon: Option<Seq<char>>,
    pub icon_color: Option<Seq<char>>,
}

impl View for ModuleOutput {
    type V = SnapshotView;

    open spec fn view(&self) -> SnapshotView {
        SnapshotView {
            value: self.value@,
            icon: self.icon.deep_view(),
            icon_color: self.icon_color.deep_view(),
        }
    }
}

/// A copy of an optional text, equal as a value.
pub fn clone_opt_str(o: &Option<String>) -> (r: Option<String>)
    ensures
        r.deep_view() == o.deep_view(),
{
    match o {
        Some(s) => Some(s.clone()),
        None => None,
    }
}

} // verus!
