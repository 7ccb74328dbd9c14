//! Views of remote projects for a terminal interface: a list of project
//! summaries with cursor-driven selection, and a detail pane for one project.
//! Each view is a plain state value; fetching and drawing happen around it.

pub mod cursor;
pub mod fetch;
pub mod laws;
pub mod project;
pub mod render;
