use tiny_grep::theme::{paint, paint_bold};
use tiny_grep::{match_lines, SearchOptions, Theme};

#[test]
fn painting_leaves_text_alone_where_colour_is_off() {
    colored::control::set_override(false);
    assert_eq!(paint("12", Theme::Blue), "12");
    assert_eq!(paint_bold("you", Theme::Purple), "you");
    let options = SearchOptions::new(true, true, true, Theme::Blue);
    assert_eq!(match_lines("you", "you and me", &options), vec!["1: you and me"]);
}
