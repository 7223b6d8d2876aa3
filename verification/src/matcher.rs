//! The line matcher and formatter: which lines of a text contain the query,
//! and how each match is rendered.

use crate::options::SearchOptions;
use crate::text::{
    contains, decimal, decimal_digits, is_substring, lines, lowercase_of, replace, replace_all,
    split_lines, texts, to_lowercase,
};
use crate::theme::{is_paint, paint, paint_bold, paint_outcome, Theme};
use vstd::prelude::*;

verus! {

/// Whether `line` contains `query`: character for character where
/// `case_sensitive` is set, else after lowercasing both.
pub open spec fn line_matches(query: Seq<char>, line: Seq<char>, case_sensitive: bool) -> bool {
    if case_sensitive {
        is_substring(line, query)
    } else {
        is_substring(lowercase_of(line), lowercase_of(query))
    }
}

/// One line of output, before it is rendered.
pub enum Item {
    /// The empty line that precedes a heading.
    Blank,
    /// The path of a directory entry under which matches were found.
    Heading { path: Seq<char> },
    /// The line at zero-based position `index` of a file, which matched.
    Match { index: nat, line: Seq<char> },
}

/// The matches among the first `upto` of `lines`, in ascending order.
pub open spec fn file_items(
    query: Seq<char>,
    lines: Seq<Seq<char>>,
    case_sensitive: bool,
    upto: nat,
) -> Seq<Item>
    decreases upto,
{
    if upto == 0 || upto > lines.len() {
        Seq::empty()
    } else {
        let index = (upto - 1) as nat;
        let earlier = file_items(query, lines, case_sensitive, index);
        if line_matches(query, lines[index as int], case_sensitive) {
            earlier.push(Item::Match { index, line: lines[index as int] })
        } else {
            earlier
        }
    }
}

/// `body`, behind `number_text` and `": "` where lines are numbered.
pub open spec fn compose_line(
    number_text: Seq<char>,
    body: Seq<char>,
    numbered: bool,
) -> Seq<char> {
    if numbered {
        number_text + ": "@ + body
    } else {
        body
    }
}

/// A match without colour: the line as it is, behind its one-based number
/// where lines are numbered.
pub open spec fn plain_line(index: nat, line: Seq<char>, numbered: bool) -> Seq<char> {
    compose_line(decimal_digits(index + 1), line, numbered)
}

/// A match with colour: every occurrence of the query exactly as written is
/// replaced by its bold painted form, and the one-based line number, where
/// shown, is painted in normal weight. Lines that matched only after
/// lowercasing may hold no such occurrence and are then left as they are.
pub open spec fn coloured_line(
    index: nat,
    line: Seq<char>,
    query: Seq<char>,
    theme: Theme,
    numbered: bool,
    number_styled: bool,
    mark_styled: bool,
) -> Seq<char> {
    compose_line(
        paint_outcome(decimal_digits(index + 1), theme, false, number_styled),
        replace_all(line, query, paint_outcome(query, theme, true, mark_styled)),
        numbered,
    )
}

/// `out` renders the match of `query` in `line`, found at zero-based
/// position `index`.
pub open spec fn is_match_rendering(
    out: Seq<char>,
    index: nat,
    line: Seq<char>,
    query: Seq<char>,
    colored: bool,
    numbered: bool,
    theme: Theme,
) -> bool {
    if colored {
        exists|number_styled: bool, mark_styled: bool|
            out == #[trigger] coloured_line(
                index,
                line,
                query,
                theme,
                numbered,
                number_styled,
                mark_styled,
            )
    } else {
        out == plain_line(index, line, numbered)
    }
}

/// `out` renders the heading for the directory entry at `path`.
pub open spec fn is_heading_rendering(
    out: Seq<char>,
    path: Seq<char>,
    colored: bool,
    theme: Theme,
) -> bool {
    if colored {
        is_paint(out, path, theme, false)
    } else {
        out == path
    }
}

/// `out` renders `item` under `options`.
pub open spec fn is_item_rendering(
    out: Seq<char>,
    item: Item,
    query: Seq<char>,
    options: SearchOptions,
) -> bool {
    match item {
        Item::Blank => out == Seq::<char>::empty(),
        Item::Heading { path } => is_heading_rendering(out, path, options.colored, options.theme),
        Item::Match { index, line } => is_match_rendering(
            out,
            index,
            line,
            query,
            options.colored,
            options.line_numbered,
            options.theme,
        ),
    }
}

/// `outs` renders `items` one for one, in order.
pub open spec fn is_rendering_of(
    outs: Seq<Seq<char>>,
    items: Seq<Item>,
    query: Seq<char>,
    options: SearchOptions,
) -> bool {
    &&& outs.len() == items.len()
    &&& forall|k: int|
        0 <= k < items.len() ==> is_item_rendering(#[trigger] outs[k], items[k], query, options)
}

/// Tests one line against the query. `needle` is the query itself for a
/// case-sensitive search and its lowercase form otherwise, computed once by
/// the caller.
pub fn is_match(needle: &str, line: &str, case_sensitive: bool) -> (hit: bool)
    ensures
        hit == if case_sensitive {
            is_substring(line@, needle@)
        } else {
            is_substring(lowercase_of(line@), needle@)
        },
{
    if case_sensitive {
        contains(line, needle)
    } else {
        let lowered = to_lowercase(line);
        contains(lowered.as_str(), needle)
    }
}

/// Puts `number_text` and `": "` in front of `body` where lines are numbered.
pub fn compose(number_text: &str, body: &str, line_numbered: bool) -> (out: String)
    ensures
        out@ == compose_line(number_text@, body@, line_numbered),
{
    if line_numbered {
        let mut out = String::from_str(number_text);
        out.append(": ");
        out.append(body);
        out
    } else {
        String::from_str(body)
    }
}

/// Renders a match with highlighting, given the painted line number and the
/// painted query: each occurrence of `query` in `line` becomes `mark`.
pub fn highlight_line(
    number_text: &str,
    mark: &str,
    line: &str,
    query: &str,
    line_numbered: bool,
) -> (out: String)
    ensures
        out@ == compose_line(number_text@, replace_all(line@, query@, mark@), line_numbered),
{
    let body = replace(line, query, mark);
    compose(number_text, body.as_str(), line_numbered)
}

/// Renders the match found in `line`, the line at zero-based position `i`,
/// and appends it to `results`.
pub fn add_to_result(
    i: usize,
    line: &str,
    colored: bool,
    line_numbered: bool,
    query: &str,
    theme: Theme,
    results: &mut Vec<String>,
)
    requires
        i < usize::MAX,
    ensures
        final(results)@.len() == old(results)@.len() + 1,
        final(results)@.drop_last() == old(results)@,
        is_match_rendering(
            final(results)@.last()@,
            i as nat,
            line@,
            query@,
            colored,
            line_numbered,
            theme,
        ),
{
    let number = decimal(i + 1);
    let entry = if colored {
        let number_text = paint(number.as_str(), theme);
        let mark = paint_bold(query, theme);
        let entry = highlight_line(number_text.as_str(), mark.as_str(), line, query, line_numbered);
        proof {
            let number_styled = choose|styled: bool|
                number_text@ == #[trigger] paint_outcome(number@, theme, false, styled);
            let mark_styled = choose|styled: bool|
                mark@ == #[trigger] paint_outcome(query@, theme, true, styled);
            assert(entry@ == coloured_line(
                i as nat,
                line@,
                query@,
                theme,
                line_numbered,
                number_styled,
                mark_styled,
            ));
        }
        entry
    } else {
        compose(number.as_str(), line, line_numbered)
    };
    results.push(entry);
    assert(results@.drop_last() =~= old(results)@);
}

/// Finds the lines of `content` that contain `query` and renders each: the
/// line matcher and formatter.
pub fn match_lines(query: &str, content: &str, options: &SearchOptions) -> (results: Vec<String>)
    ensures
        is_rendering_of(
            texts(results@),
            file_items(
                query@,
                split_lines(content@),
                options.case_sensitive,
                split_lines(content@).len(),
            ),
            query@,
            *options,
        ),
{
    let all = lines(content);
    let needle = if options.case_sensitive {
        String::from_str(query)
    } else {
        to_lowercase(query)
    };
    let mut results: Vec<String> = Vec::new();
    let mut i: usize = 0;
    while i < all.len()
        invariant
            i <= all.len(),
            texts(all@) == split_lines(content@),
            needle@ == if options.case_sensitive {
                query@
            } else {
                lowercase_of(query@)
            },
            is_rendering_of(
                texts(results@),
                file_items(query@, texts(all@), options.case_sensitive, i as nat),
                query@,
                *options,
            ),
        decreases all.len() - i,
    {
        let line = all[i].as_str();
        let ghost before = texts(results@);
        assert(texts(all@)[i as int] == line@);
        assert(texts(all@).len() == all@.len());
        if is_match(needle.as_str(), line, options.case_sensitive) {
            add_to_result(
                i,
                line,
                options.colored,
                options.line_numbered,
                query,
                options.theme,
                &mut results,
            );
            assert(texts(results@) =~= before.push(results@.last()@));
        }
        i += 1;
    }
    assert(texts(all@).len() == all@.len());
    results
}

} // verus!
