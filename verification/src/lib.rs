//! The search core of a code-snippet archive: stored snippets become
//! searchable candidates, a fuzzy-search session is configured, and what the
//! user confirmed is handed, item by item, to a post-selection action.

pub mod dispatch;
pub mod errors;
pub mod language;
pub mod search;
pub mod snippet;
pub mod text;
