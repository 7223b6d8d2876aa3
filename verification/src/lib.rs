//! A substring search engine: it scans text line by line, keeps the lines
//! that contain a query, and renders them with optional line numbers, colour
//! highlighting and directory headings.

pub mod laws;
pub mod matcher;
pub mod options;
pub mod text;
pub mod theme;
pub mod traversal;
pub mod user;

pub use matcher::{add_to_result, match_lines};
pub use options::{Config, SearchOptions};
pub use theme::Theme;
pub use traversal::{file_path_parser, run, search, Entry, PathNode, SearchError};
pub use user::User;
