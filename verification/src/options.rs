//! What a caller asks for: the query, where to look, and how to present
//! what was found.

use crate::theme::Theme;
use vstd::prelude::*;

verus! {

/// How lines are matched and how matches are presented.
#[derive(Debug, Copy, Clone)]
pub struct SearchOptions {
    /// Compare characters exactly instead of by their lowercase forms.
    pub case_sensitive: bool,
    /// Prefix each match with its one-based line number.
    pub line_numbered: bool,
    /// Highlight the query, line numbers and headings in the theme's colour.
    pub colored: bool,
    /// The colour used where `colored` is set.
    pub theme: Theme,
}

impl SearchOptions {
    pub fn new(
        case_sensitive: bool,
        line_numbered: bool,
        colored: bool,
        theme: Theme,
    ) -> (options: SearchOptions)
        ensures
            options == (SearchOptions { case_sensitive, line_numbered, colored, theme }),
    {
        SearchOptions { case_sensitive, line_numbered, colored, theme }
    }
}

/// One search request.
pub struct Config {
    /// The text to look for.
    pub query: String,
    /// The file or directory to look in.
    pub file_path: String,
    pub search_options: SearchOptions,
}

impl Config {
    pub fn new(
        query: String,
        file_path: String,
        case_sensitive: bool,
        line_numbered: bool,
        colored: bool,
        theme: Theme,
    ) -> (config: Config)
        ensures
            config.query == query,
            config.file_path == file_path,
            config.search_options == (SearchOptions {
                case_sensitive,
                line_numbered,
                colored,
                theme,
            }),
    {
        Config {
            query,
            file_path,
            search_options: SearchOptions { case_sensitive, line_numbered, colored, theme },
        }
    }
}

} // verus!
