//! Properties of the search that hold for every query and every text.

use crate::matcher::{file_items, is_item_rendering, is_rendering_of, line_matches, Item};
use crate::options::SearchOptions;
use crate::text::{lowercase_of, occurs_at, split_lines, texts};
use crate::traversal::{
    entries_outcome, entry_block, is_search_outcome, node_outcome, Entry, PathNode, SearchError,
};
use vstd::prelude::*;

verus! {

/// A line that holds the query character for character, anywhere in it, is a
/// case-sensitive match. The query may be a single character, several, or
/// the whole line.
pub proof fn lemma_contained_query_matches(before: Seq<char>, query: Seq<char>, after: Seq<char>)
    ensures
        line_matches(query, before + query + after, true),
{
    let line = before + query + after;
    assert(line.subrange(before.len() as int, (before.len() + query.len()) as int) =~= query);
    assert(occurs_at(line, query, before.len() as int));
}

/// A line matches itself in both modes.
pub proof fn lemma_line_matches_itself(line: Seq<char>, case_sensitive: bool)
    ensures
        line_matches(line, line, case_sensitive),
{
    let hay = if case_sensitive {
        line
    } else {
        lowercase_of(line)
    };
    assert(hay.subrange(0, hay.len() as int) =~= hay);
    assert(occurs_at(hay, hay, 0));
}

/// Lowercasing `line` lowercases, each by itself, the occurrence of `query`
/// at position `at` and the text on either side of it. This fails where a
/// character's lowercase form depends on its neighbours, as that of the
/// Greek capital sigma does.
pub open spec fn lowers_piecewise_at(line: Seq<char>, query: Seq<char>, at: int) -> bool {
    lowercase_of(line) == lowercase_of(line.subrange(0, at)) + lowercase_of(query) + lowercase_of(
        line.subrange(at + query.len(), line.len() as int),
    )
}

/// A case-sensitive match is also a case-insensitive match, wherever
/// lowercasing the line lowercases the occurrence of the query by itself.
pub proof fn lemma_insensitive_covers_sensitive(line: Seq<char>, query: Seq<char>, at: int)
    requires
        occurs_at(line, query, at),
        lowers_piecewise_at(line, query, at),
    ensures
        line_matches(query, line, true),
        line_matches(query, line, false),
{
    let before = lowercase_of(line.subrange(0, at));
    let lowered = lowercase_of(query);
    let hay = lowercase_of(line);
    assert(hay.subrange(before.len() as int, (before.len() + lowered.len()) as int) =~= lowered);
    assert(occurs_at(hay, lowered, before.len() as int));
}

/// Without colour, a list of items has exactly one rendering: two runs of a
/// search on the same inputs give the same lines. With colour the same holds
/// of a search that finds nothing; what is painted follows the terminal
/// settings of the moment.
pub proof fn lemma_plain_rendering_is_unique(
    first: Seq<Seq<char>>,
    second: Seq<Seq<char>>,
    items: Seq<Item>,
    query: Seq<char>,
    options: SearchOptions,
)
    requires
        options.colored ==> items.len() == 0,
        is_rendering_of(first, items, query, options),
        is_rendering_of(second, items, query, options),
    ensures
        first == second,
{
    assert forall|k: int| 0 <= k < items.len() implies first[k] == second[k] by {
        assert(is_item_rendering(first[k], items[k], query, options));
        assert(is_item_rendering(second[k], items[k], query, options));
    }
    assert(first =~= second);
}

/// Two runs of a search on the same query, tree and options end alike: with
/// the same failure, or, without colour, with the same lines.
pub proof fn lemma_search_outcome_is_unique(
    first: Result<Vec<String>, SearchError>,
    second: Result<Vec<String>, SearchError>,
    query: Seq<char>,
    node: PathNode,
    options: SearchOptions,
)
    requires
        options.colored ==> (node_outcome(query, node, options.case_sensitive) matches Ok(items)
            ==> items.len() == 0),
        is_search_outcome(
            first,
            node_outcome(query, node, options.case_sensitive),
            query,
            options,
        ),
        is_search_outcome(
            second,
            node_outcome(query, node, options.case_sensitive),
            query,
            options,
        ),
    ensures
        match (first, second) {
            (Ok(a), Ok(b)) => texts(a@) == texts(b@),
            (Err(a), Err(b)) => a == b,
            _ => false,
        },
{
    if let Ok(items) = node_outcome(query, node, options.case_sensitive) {
        lemma_plain_rendering_is_unique(
            texts(first->Ok_0@),
            texts(second->Ok_0@),
            items,
            query,
            options,
        );
    }
}

/// `item` is the match of `query` in one of `lines`, and carries that
/// line's zero-based position as its index.
pub open spec fn is_match_of(
    item: Item,
    query: Seq<char>,
    lines: Seq<Seq<char>>,
    case_sensitive: bool,
) -> bool {
    &&& item matches Item::Match { index, line }
    &&& index < lines.len()
    &&& line == lines[index as int]
    &&& line_matches(query, line, case_sensitive)
}

/// What is found in a file is exactly its matching lines, each under its
/// own position in the file, in ascending order. The number shown for a
/// match is therefore its position plus one, in either mode and however
/// many lines match.
pub proof fn lemma_file_items_are_the_matches(
    query: Seq<char>,
    lines: Seq<Seq<char>>,
    case_sensitive: bool,
    upto: nat,
)
    requires
        upto <= lines.len(),
    ensures
        forall|k: int|
            0 <= k < file_items(query, lines, case_sensitive, upto).len() ==> {
                &&& is_match_of(
                    #[trigger] file_items(query, lines, case_sensitive, upto)[k],
                    query,
                    lines,
                    case_sensitive,
                )
                &&& file_items(query, lines, case_sensitive, upto)[k]->index < upto
            },
        forall|j: int, k: int|
            0 <= j < k < file_items(query, lines, case_sensitive, upto).len() ==> (
            #[trigger] file_items(query, lines, case_sensitive, upto)[j])->index < (
            #[trigger] file_items(query, lines, case_sensitive, upto)[k])->index,
        forall|i: int|
            0 <= i < upto && line_matches(query, #[trigger] lines[i], case_sensitive)
                ==> file_items(query, lines, case_sensitive, upto).contains(
                Item::Match { index: i as nat, line: lines[i] },
            ),
    decreases upto,
{
    if upto > 0 {
        let index = (upto - 1) as nat;
        let earlier = file_items(query, lines, case_sensitive, index);
        let items = file_items(query, lines, case_sensitive, upto);
        lemma_file_items_are_the_matches(query, lines, case_sensitive, index);
        assert forall|i: int|
            0 <= i < upto && line_matches(
                query,
                #[trigger] lines[i],
                case_sensitive,
            ) implies items.contains(Item::Match { index: i as nat, line: lines[i] }) by {
            let wanted = Item::Match { index: i as nat, line: lines[i] };
            if i < index {
                assert(earlier.contains(wanted));
                let k = choose|k: int| 0 <= k < earlier.len() && earlier[k] == wanted;
                assert(items[k] == wanted);
            } else {
                assert(items[items.len() - 1] == wanted);
            }
        }
    }
}

/// There is a match among `items`.
pub open spec fn holds_a_match(items: Seq<Item>) -> bool {
    exists|k: int| 0 <= k < items.len() && #[trigger] items[k] is Match
}

/// A directory entry under which nothing is found adds neither a heading
/// nor a blank line to the result.
pub proof fn lemma_silent_entry_adds_nothing(
    query: Seq<char>,
    entries: Seq<Entry>,
    case_sensitive: bool,
    upto: nat,
)
    requires
        0 < upto <= entries.len(),
        node_outcome(query, entries[upto - 1].node, case_sensitive) == Ok::<Seq<Item>, SearchError>(
            Seq::empty(),
        ),
    ensures
        entries_outcome(query, entries, case_sensitive, upto) == entries_outcome(
            query,
            entries,
            case_sensitive,
            (upto - 1) as nat,
        ),
{
    let before = entries_outcome(query, entries, case_sensitive, (upto - 1) as nat);
    if before is Ok {
        let block = entry_block(entries[upto - 1].path@, Seq::empty());
        assert(before->Ok_0 + block =~= before->Ok_0);
    }
}

/// Whatever a search of a tree returns holds a match, unless it is empty:
/// headings and blank lines never stand alone, at any depth.
pub proof fn lemma_output_holds_a_match(query: Seq<char>, node: PathNode, case_sensitive: bool)
    requires
        node_outcome(query, node, case_sensitive) is Ok,
        node_outcome(query, node, case_sensitive)->Ok_0.len() > 0,
    ensures
        holds_a_match(node_outcome(query, node, case_sensitive)->Ok_0),
    decreases node, 0nat,
{
    match node {
        PathNode::File { contents } => {
            let lines = split_lines(contents@);
            let items = file_items(query, lines, case_sensitive, lines.len());
            lemma_file_items_are_the_matches(query, lines, case_sensitive, lines.len());
            assert(is_match_of(items[0], query, lines, case_sensitive));
            assert(items[0] is Match);
        },
        PathNode::Directory { entries } => {
            lemma_entries_output_holds_a_match(query, entries@, case_sensitive, entries@.len());
        },
        _ => {},
    }
}

/// The same, of the first `upto` entries of a directory.
pub proof fn lemma_entries_output_holds_a_match(
    query: Seq<char>,
    entries: Seq<Entry>,
    case_sensitive: bool,
    upto: nat,
)
    requires
        upto <= entries.len(),
        entries_outcome(query, entries, case_sensitive, upto) is Ok,
        entries_outcome(query, entries, case_sensitive, upto)->Ok_0.len() > 0,
    ensures
        holds_a_match(entries_outcome(query, entries, case_sensitive, upto)->Ok_0),
    decreases entries, upto,
{
    let items = entries_outcome(query, entries, case_sensitive, upto)->Ok_0;
    let last = entries[upto - 1];
    let earlier = entries_outcome(query, entries, case_sensitive, (upto - 1) as nat)->Ok_0;
    let found = node_outcome(query, last.node, case_sensitive)->Ok_0;
    if earlier.len() > 0 {
        lemma_entries_output_holds_a_match(query, entries, case_sensitive, (upto - 1) as nat);
        let k = choose|k: int| 0 <= k < earlier.len() && #[trigger] earlier[k] is Match;
        assert(items[k] is Match);
    } else {
        lemma_output_holds_a_match(query, last.node, case_sensitive);
        let k = choose|k: int| 0 <= k < found.len() && #[trigger] found[k] is Match;
        assert(items[earlier.len() + 2 + k] == found[k]);
        assert(items[earlier.len() + 2 + k] is Match);
    }
}

} // verus!
