use step_directives::lines::{select_lines, split_lines};
use step_directives::source_link::{GitHubLink, LineRange};

const TEXT: &str = "one\ntwo\nthree\nfour\nfive\nsix";

fn range(first: Option<usize>, last: Option<usize>) -> LineRange {
    LineRange { first, last }
}

#[test]
fn splits_at_line_breaks() {
    assert_eq!(split_lines("a\nb"), vec!["a", "b"]);
    assert_eq!(split_lines("a\nb\n"), vec!["a", "b"]);
    assert_eq!(split_lines("a\n\nb"), vec!["a", "", "b"]);
    assert_eq!(split_lines("\n"), vec![""]);
    assert_eq!(split_lines(""), Vec::<String>::new());
    assert_eq!(split_lines("no break"), vec!["no break"]);
}

#[test]
fn first_line_only_gives_that_line() {
    let link = GitHubLink::parse("f.rs:5").unwrap();
    assert_eq!(link.fragment(TEXT), "five");
    assert_eq!(select_lines(TEXT, range(Some(5), Some(5))), "five");
}

#[test]
fn last_line_only_gives_lines_from_the_top() {
    assert_eq!(select_lines(TEXT, range(None, Some(3))), "one\ntwo\nthree");
}

#[test]
fn no_line_gives_the_whole_text() {
    let link = GitHubLink::parse("f.rs").unwrap();
    assert_eq!(link.fragment(TEXT), TEXT);
    assert_eq!(select_lines(TEXT, range(None, None)), TEXT);
}

#[test]
fn both_lines_give_the_lines_between() {
    let link = GitHubLink::parse("f.rs:2:4").unwrap();
    assert_eq!(link.fragment(TEXT), "two\nthree\nfour");
    assert_eq!(select_lines(TEXT, range(Some(6), Some(6))), "six");
    assert_eq!(select_lines(TEXT, range(Some(1), Some(6))), TEXT);
}

#[test]
fn whole_text_keeps_its_final_line_break() {
    assert_eq!(select_lines("a\nb\n", range(None, None)), "a\nb\n");
    assert_eq!(select_lines("a\nb\n\n", range(None, None)), "a\nb\n\n");
    assert_eq!(select_lines("a\n", range(None, None)), "a\n");
    assert_eq!(select_lines("\n", range(None, None)), "\n");
    assert_eq!(select_lines("", range(None, None)), "");
    let link = GitHubLink::parse("f.rs").unwrap();
    assert_eq!(link.fragment("a\nb\n"), "a\nb\n");
}

#[test]
fn every_line_by_number_has_no_final_line_break() {
    assert_eq!(select_lines("a\nb\n", range(Some(1), Some(2))), "a\nb");
    assert_eq!(select_lines("a\nb\n", range(None, Some(2))), "a\nb");
    assert_eq!(select_lines("a\nb\n\n", range(Some(1), Some(3))), "a\nb\n");
}

#[test]
fn lines_that_are_not_there_are_left_out() {
    assert_eq!(select_lines(TEXT, range(Some(5), Some(9))), "five\nsix");
    assert_eq!(select_lines(TEXT, range(Some(7), Some(9))), "");
    assert_eq!(select_lines(TEXT, range(Some(4), Some(2))), "");
    assert_eq!(select_lines(TEXT, range(Some(0), Some(2))), "one\ntwo");
    assert_eq!(select_lines(TEXT, range(None, Some(0))), "");
}

#[test]
fn line_range_of_a_link() {
    let only_start = GitHubLink::parse("f.rs:5").unwrap().line_range();
    assert_eq!(only_start, range(Some(5), Some(5)));
    let both = GitHubLink::parse("f.rs:2:4").unwrap().line_range();
    assert_eq!(both, range(Some(2), Some(4)));
    let none = GitHubLink::parse("f.rs").unwrap().line_range();
    assert_eq!(none, range(None, None));
}
