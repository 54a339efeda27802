//! The ways in which opening a plugin or looking up a function can fail.

use vstd::prelude::*;

verus! {

/// Why an operation on a plugin failed.
///
/// Every failure is handed to the caller as a value; nothing is retried.
#[derive(Clone, Debug, PartialEq, Eq)]
pub enum PluginError {
    /// The library file could not be loaded: it is missing, is no library of
    /// this platform, or depends on something that could not be resolved.
    /// Holds the loader's reason.
    Load(String),
    /// The library was loaded but does not expose an export table, so it is
    /// no plugin. Holds the loader's reason.
    MissingTable(String),
    /// No entry of the table has both the requested name and the requested
    /// type identifier. Holds the requested name.
    NotFound(String),
}

/// What an error is to the specifications.
pub enum ErrorView {
    Load(Seq<char>),
    MissingTable(Seq<char>),
    NotFound(Seq<char>),
}

impl View for PluginError {
    type V = ErrorView;

    open spec fn view(&self) -> ErrorView {
        match *self {
            PluginError::Load(reason) => ErrorView::Load(reason@),
            PluginError::MissingTable(reason) => ErrorView::MissingTable(reason@),
            PluginError::NotFound(name) => ErrorView::NotFound(name@),
        }
    }
}

} // verus!
