//! Editor Panels
//!
//! The state of the editor's panels and the rules that filter what they list.

use vstd::prelude::*;
use crate::text::{contains_seq, lowercase, str_contains, to_lowercase};
use super::app::LogLevel;

verus! {

/// Hierarchy panel - shows all entities in the scene
pub struct HierarchyPanel {
    search_query: String,
}

/// An entity name is listed when the search is empty or, both taken in lower
/// case, the name contains the search.
pub open spec fn search_matches(query: Seq<char>, name: Seq<char>) -> bool {
    query.len() == 0 || contains_seq(lowercase(name), lowercase(query))
}

impl HierarchyPanel {
    /// The text typed in the search box.
    pub closed spec fn query(&self) -> Seq<char> {
        self.search_query@
    }

    pub fn new() -> (p: Self)
        ensures
            p.query() == Seq::<char>::empty(),
    {
        HierarchyPanel { search_query: String::new() }
    }

    /// The search box's text, for editing.
    pub fn search_query_mut(&mut self) -> (q: &mut String)
        ensures
            q@ == old(self).query(),
            final(self).query() == final(q)@,
    {
        &mut self.search_query
    }

    /// Whether an entity called `name` is listed under the current search.
    pub fn matches_search(&self, name: &str) -> (b: bool)
        ensures
            b == search_matches(self.query(), name@),
    {
        if self.search_query.as_str().unicode_len() == 0 {
            return true;
        }
        let name_lower = to_lowercase(name);
        let query_lower = to_lowercase(self.search_query.as_str());
        str_contains(name_lower.as_str(), query_lower.as_str())
    }
}

/// Inspector panel - shows details of selected entity
pub struct InspectorPanel;

impl InspectorPanel {
    pub fn new() -> Self {
        InspectorPanel
    }
}

/// Asset panel - shows project assets
pub struct AssetPanel {
    current_path: String,
}

impl AssetPanel {
    /// The folder shown.
    pub closed spec fn path(&self) -> Seq<char> {
        self.current_path@
    }

    pub fn new() -> (p: Self)
        ensures
            p.path() == "assets"@,
    {
        AssetPanel { current_path: "assets".to_owned() }
    }

    /// The folder shown.
    pub fn current_path(&self) -> (p: &str)
        ensures
            p@ == self.path(),
    {
        self.current_path.as_str()
    }
}

/// Console panel - shows log messages
pub struct ConsolePanel {
    filter_level: Option<LogLevel>,
    auto_scroll: bool,
}

impl ConsolePanel {
    /// The level shown alone, if the console is filtered.
    pub closed spec fn filter(&self) -> Option<LogLevel> {
        self.filter_level
    }

    /// Whether the console follows new messages.
    pub closed spec fn follows(&self) -> bool {
        self.auto_scroll
    }

    pub fn new() -> (p: Self)
        ensures
            p.filter() is None,
            p.follows(),
    {
        ConsolePanel { filter_level: None, auto_scroll: true }
    }

    /// The level shown alone, if the console is filtered.
    pub fn filter_level(&self) -> (r: Option<LogLevel>)
        ensures
            r == self.filter(),
    {
        self.filter_level
    }

    /// Clicking a level's button shows that level alone, or, when it is
    /// already the filter, shows every level again.
    pub fn toggle_filter(&mut self, level: LogLevel)
        ensures
            final(self).filter() == (if old(self).filter() == Some(level) {
                None
            } else {
                Some(level)
            }),
            final(self).follows() == old(self).follows(),
    {
        self.filter_level = if self.filter_level == Some(level) {
            None
        } else {
            Some(level)
        };
    }

    /// Whether a message of `level` is listed.
    pub fn shows(&self, level: LogLevel) -> (b: bool)
        ensures
            b == match self.filter() {
                Some(f) => f == level,
                None => true,
            },
    {
        match self.filter_level {
            Some(filter) => filter == level,
            None => true,
        }
    }

    /// Whether the console follows new messages.
    pub fn auto_scroll(&self) -> (b: bool)
        ensures
            b == self.follows(),
    {
        self.auto_scroll
    }

    pub fn set_auto_scroll(&mut self, on: bool)
        ensures
            final(self).follows() == on,
            final(self).filter() == old(self).filter(),
    {
        self.auto_scroll = on;
    }
}

} // verus!
