//! The traversal engine: it walks a file or a directory tree, runs the line
//! matcher on every file and groups what each directory entry yields under
//! a heading.

use crate::matcher::{
    file_items, is_heading_rendering, is_item_rendering, is_rendering_of, match_lines, Item,
};
use crate::options::{Config, SearchOptions};
use crate::text::{split_lines, texts};
use crate::theme::{paint, Theme};
use vstd::prelude::*;

verus! {

/// What was found at a path when it was looked up.
pub enum PathNode {
    /// Nothing exists at the path.
    Missing,
    /// Something exists that is neither a regular file nor a directory.
    Special,
    /// A file or directory that could not be read, with the cause.
    Unreadable { cause: String },
    /// A regular file and its whole text.
    File { contents: String },
    /// A directory and its direct children, in enumeration order.
    Directory { entries: Vec<Entry> },
}

/// A child of a directory.
pub struct Entry {
    /// The child's path, as shown in its heading.
    pub path: String,
    pub node: PathNode,
}

/// Why a search failed.
#[derive(Debug)]
pub enum SearchError {
    /// The path does not exist.
    PathNotFound,
    /// Reading an existing file or directory failed.
    IoError { cause: String },
    /// The path is neither a regular file nor a directory.
    InvalidPathKind,
}

impl SearchError {
    /// A description of the error for display.
    pub fn message(&self) -> (text: String)
        ensures
            text@ == match *self {
                SearchError::PathNotFound => "Path does not exist"@,
                SearchError::IoError { cause } => cause@,
                SearchError::InvalidPathKind => "Path is neither a file nor a directory"@,
            },
    {
        match self {
            SearchError::PathNotFound => String::from_str("Path does not exist"),
            SearchError::IoError { cause } => cause.clone(),
            SearchError::InvalidPathKind => String::from_str(
                "Path is neither a file nor a directory",
            ),
        }
    }
}

/// What one directory entry contributes: nothing where nothing was found
/// under it, else a blank line, its heading and what was found.
pub open spec fn entry_block(path: Seq<char>, found: Seq<Item>) -> Seq<Item> {
    if found.len() == 0 {
        Seq::empty()
    } else {
        seq![Item::Blank, Item::Heading { path }] + found
    }
}

/// The result of searching `node`: the output lines before rendering, or the
/// first failure in traversal order.
pub open spec fn node_outcome(
    query: Seq<char>,
    node: PathNode,
    case_sensitive: bool,
) -> Result<Seq<Item>, SearchError>
    decreases node, 0nat,
{
    match node {
        PathNode::Missing => Err(SearchError::PathNotFound),
        PathNode::Special => Err(SearchError::InvalidPathKind),
        PathNode::Unreadable { cause } => Err(SearchError::IoError { cause }),
        PathNode::File { contents } => Ok(
            file_items(
                query,
                split_lines(contents@),
                case_sensitive,
                split_lines(contents@).len(),
            ),
        ),
        PathNode::Directory { entries } => entries_outcome(
            query,
            entries@,
            case_sensitive,
            entries@.len(),
        ),
    }
}

/// The result of searching the first `upto` of `entries` in order.
pub open spec fn entries_outcome(
    query: Seq<char>,
    entries: Seq<Entry>,
    case_sensitive: bool,
    upto: nat,
) -> Result<Seq<Item>, SearchError>
    decreases entries, upto,
{
    if upto == 0 || upto > entries.len() {
        Ok(Seq::empty())
    } else {
        let last = entries[upto - 1];
        match entries_outcome(query, entries, case_sensitive, (upto - 1) as nat) {
            Err(error) => Err(error),
            Ok(earlier) => match node_outcome(query, last.node, case_sensitive) {
                Err(error) => Err(error),
                Ok(found) => Ok(earlier + entry_block(last.path@, found)),
            },
        }
    }
}

/// `outcome` is what a search gives whose result before rendering is
/// `expected`: the same failure, or a rendering of the same lines.
pub open spec fn is_search_outcome(
    outcome: Result<Vec<String>, SearchError>,
    expected: Result<Seq<Item>, SearchError>,
    query: Seq<char>,
    options: SearchOptions,
) -> bool {
    match (expected, outcome) {
        (Ok(items), Ok(lines)) => is_rendering_of(texts(lines@), items, query, options),
        (Err(error), Err(got)) => got == error,
        _ => false,
    }
}

/// A failure among the first entries is the failure of the whole directory.
pub proof fn lemma_failure_persists(
    query: Seq<char>,
    entries: Seq<Entry>,
    case_sensitive: bool,
    at: nat,
    upto: nat,
)
    requires
        at <= upto <= entries.len(),
        entries_outcome(query, entries, case_sensitive, at) is Err,
    ensures
        entries_outcome(query, entries, case_sensitive, upto) == entries_outcome(
            query,
            entries,
            case_sensitive,
            at,
        ),
    decreases upto,
{
    if at < upto {
        lemma_failure_persists(query, entries, case_sensitive, at, (upto - 1) as nat);
    }
}

/// Appends a blank line, `heading` and the lines in `found` to `results`.
pub fn push_block(results: &mut Vec<String>, heading: String, found: Vec<String>)
    ensures
        texts(final(results)@) == texts(old(results)@) + seq![Seq::<char>::empty(), heading@]
            + texts(found@),
{
    let mut rest = found;
    results.push(String::new());
    results.push(heading);
    results.append(&mut rest);
    assert(texts(results@) =~= texts(old(results)@) + seq![Seq::<char>::empty(), heading@] + texts(
        found@,
    ));
}

/// Adds what was found under the directory entry at `path` to `results`:
/// nothing where `found` is empty, else a blank line, the entry's heading
/// and `found`.
pub fn add_child_results(
    results: &mut Vec<String>,
    path: &str,
    found: Vec<String>,
    colored: bool,
    theme: Theme,
)
    ensures
        found@.len() == 0 ==> final(results)@ == old(results)@,
        found@.len() > 0 ==> {
            &&& final(results)@.len() == old(results)@.len() + 2 + found@.len()
            &&& is_heading_rendering(
                final(results)@[old(results)@.len() as int + 1]@,
                path@,
                colored,
                theme,
            )
            &&& texts(final(results)@) == texts(old(results)@) + seq![
                Seq::<char>::empty(),
                final(results)@[old(results)@.len() as int + 1]@,
            ] + texts(found@)
        },
{
    if found.len() > 0 {
        let heading = if colored {
            paint(path, theme)
        } else {
            String::from_str(path)
        };
        let ghost shown = heading@;
        push_block(results, heading, found);
        proof {
            let after = texts(results@);
            let wanted = texts(old(results)@) + seq![Seq::<char>::empty(), shown] + texts(found@);
            assert(after.len() == wanted.len());
            assert(results@.len() == after.len());
            assert(after[old(results)@.len() as int + 1] == wanted[old(results)@.len() as int + 1]);
        }
    }
}

/// Searches `node` for `query`: the traversal engine. A file gives its
/// matching lines. A directory gives, for each child in order under which
/// anything was found, a blank line, the child's heading and the child's
/// lines. The first failure ends the whole search.
pub fn search(
    query: &str,
    node: &PathNode,
    options: &SearchOptions,
) -> (outcome: Result<Vec<String>, SearchError>)
    ensures
        is_search_outcome(
            outcome,
            node_outcome(query@, *node, options.case_sensitive),
            query@,
            *options,
        ),
    decreases node,
{
    match node {
        PathNode::Missing => Err(SearchError::PathNotFound),
        PathNode::Special => Err(SearchError::InvalidPathKind),
        PathNode::Unreadable { cause } => Err(SearchError::IoError { cause: cause.clone() }),
        PathNode::File { contents } => Ok(match_lines(query, contents.as_str(), options)),
        PathNode::Directory { entries } => {
            let mut results: Vec<String> = Vec::new();
            let mut i: usize = 0;
            while i < entries.len()
                invariant
                    i <= entries.len(),
                    *node == (PathNode::Directory { entries: *entries }),
                    is_search_outcome(
                        Ok(results),
                        entries_outcome(query@, entries@, options.case_sensitive, i as nat),
                        query@,
                        *options,
                    ),
                decreases entries.len() - i,
            {
                let child = &entries[i];
                let ghost earlier = entries_outcome(
                    query@,
                    entries@,
                    options.case_sensitive,
                    i as nat,
                )->Ok_0;
                let ghost before = texts(results@);
                match search(query, &child.node, options) {
                    Err(error) => {
                        proof {
                            lemma_failure_persists(
                                query@,
                                entries@,
                                options.case_sensitive,
                                (i + 1) as nat,
                                entries@.len(),
                            );
                        }
                        return Err(error);
                    },
                    Ok(found) => {
                        let ghost found_items = node_outcome(
                            query@,
                            child.node,
                            options.case_sensitive,
                        )->Ok_0;
                        let ghost found_texts = texts(found@);
                        add_child_results(
                            &mut results,
                            child.path.as_str(),
                            found,
                            options.colored,
                            options.theme,
                        );
                        proof {
                            let block = entry_block(child.path@, found_items);
                            let after = texts(results@);
                            assert(after.len() == (earlier + block).len());
                            assert forall|k: int| 0 <= k < after.len() implies is_item_rendering(
                                #[trigger] after[k],
                                (earlier + block)[k],
                                query@,
                                *options,
                            ) by {
                                if k < before.len() {
                                    assert(after[k] == before[k]);
                                } else if k >= before.len() + 2 {
                                    assert(after[k] == found_texts[k - before.len() - 2]);
                                }
                            }
                        }
                    },
                }
                i += 1;
            }
            Ok(results)
        },
    }
}

/// Runs the search that `config` asks for on `root`, the tree found at
/// `config.file_path`, and returns the lines to print.
pub fn run(config: Config, root: &PathNode) -> (outcome: Result<Vec<String>, SearchError>)
    ensures
        is_search_outcome(
            outcome,
            node_outcome(config.query@, *root, config.search_options.case_sensitive),
            config.query@,
            config.search_options,
        ),
{
    search(config.query.as_str(), root, &config.search_options)
}

/// Accepts a path given on the command line if it exists. `exists` is what
/// the file system said of `file_path`.
pub fn file_path_parser(file_path: &str, exists: bool) -> (parsed: Result<String, String>)
    ensures
        exists ==> parsed is Ok && parsed->Ok_0@ == file_path@,
        !exists ==> parsed is Err && parsed->Err_0@ == "File path "@ + file_path@
            + " does not exist"@,
{
    if exists {
        Ok(String::from_str(file_path))
    } else {
        let mut text = String::from_str("File path ");
        text.append(file_path);
        text.append(" does not exist");
        Err(text)
    }
}

} // verus!
