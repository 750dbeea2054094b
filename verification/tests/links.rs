use step_directives::error::DirectiveError;
use step_directives::manual_link::{depth_class, ManualLink};
use step_directives::source_link::GitHubLink;
use step_directives::step::Step;

fn groups(items: [Option<&str>; 7]) -> Vec<Option<String>> {
    items.iter().map(|g| g.map(|s| s.to_owned())).collect()
}

#[test]
fn default_text_with_one_line() {
    let link = GitHubLink::parse("a/b.rs:3").unwrap();
    assert_eq!(link.text, None);
    assert_eq!(link.visible_path_part, "a/b.rs");
    assert_eq!(link.start, Some(3));
    assert_eq!(link.end, None);
    assert_eq!(link.step, Step::Start);
    assert!(!link.show_step);
    assert_eq!(link.default_text(), "a/b.rs:3");
    assert_eq!(link.text(), "a/b.rs:3");
    assert_eq!(link.range_suffix(), ":3");
    assert_eq!(link.url_suffix(), "a/b.rs#L3");
}

#[test]
fn default_text_with_step_shown() {
    let link = GitHubLink::parse("@2 src/foo.rs").unwrap();
    assert_eq!(*link.step(), Step::Numbered { major: 2, minor: None });
    assert!(link.show_step);
    assert_eq!(link.default_text(), "src/foo.rs after 2");
    assert_eq!(link.url_suffix(), "src/foo.rs");
}

#[test]
fn hidden_step_is_not_named() {
    let link = GitHubLink::parse("@-3.B src/foo.rs:10:20").unwrap();
    assert_eq!(link.step, Step::Numbered { major: 3, minor: Some('B') });
    assert!(!link.show_step);
    assert_eq!(link.default_text(), "src/foo.rs:10:20");
    assert_eq!(link.url_suffix(), "src/foo.rs#L10-L20");
}

#[test]
fn all_parts_at_once() {
    let link = GitHubLink::parse("[the entry point] @4 (crates/demo/)src/main.rs:3:7").unwrap();
    assert_eq!(link.text.as_deref(), Some("the entry point"));
    assert_eq!(link.hidden_path_part.as_deref(), Some("crates/demo/"));
    assert_eq!(link.visible_path_part, "src/main.rs");
    assert_eq!(link.path(), "crates/demo/src/main.rs");
    assert_eq!(link.text(), "the entry point");
    assert_eq!(link.default_text(), "src/main.rs:3:7 after 4");
    assert_eq!(link.range_suffix(), ":3:7");
    assert_eq!(link.url_suffix(), "crates/demo/src/main.rs#L3-L7");
}

#[test]
fn path_alone() {
    let link = GitHubLink::parse("src").unwrap();
    assert_eq!(link.path(), "src");
    assert_eq!(link.default_text(), "src");
    assert_eq!(link.range_suffix(), "");
    assert_eq!(link.url_suffix(), "src");
}

#[test]
fn shown_start_is_refused() {
    assert_eq!(GitHubLink::parse("@ src/foo.rs").unwrap_err(), DirectiveError::StartShown);
    let hidden = GitHubLink::parse("@- src/foo.rs").unwrap();
    assert_eq!(hidden.step, Step::Start);
    assert!(!hidden.show_step);
}

#[test]
fn bad_step_is_refused() {
    assert_eq!(GitHubLink::parse("@two src/foo.rs").unwrap_err(), DirectiveError::InvalidStep);
    assert_eq!(GitHubLink::parse("@3.b src/foo.rs").unwrap_err(), DirectiveError::InvalidStep);
}

#[test]
fn text_over_two_lines_is_refused() {
    assert_eq!(GitHubLink::parse("src/a\nb").unwrap_err(), DirectiveError::Malformed);
}

#[test]
fn line_number_must_fit() {
    assert_eq!(
        GitHubLink::parse("f.rs:99999999999999999999999").unwrap_err(),
        DirectiveError::Malformed
    );
}

#[test]
fn groups_give_the_link() {
    let link = GitHubLink::from_groups(&groups([
        Some("t"),
        None,
        Some("007.C"),
        Some("h/"),
        Some("v"),
        Some("1"),
        Some("2"),
    ]))
    .unwrap();
    assert_eq!(link.text.as_deref(), Some("t"));
    assert_eq!(link.step, Step::Numbered { major: 7, minor: Some('C') });
    assert!(link.show_step);
    assert_eq!(link.path(), "h/v");
    assert_eq!((link.start, link.end), (Some(1), Some(2)));
    assert_eq!(link.default_text(), "v:1:2 after 7.C");
}

#[test]
fn end_without_start_is_refused() {
    let r = GitHubLink::from_groups(&groups([None, None, None, None, Some("v"), None, Some("2")]));
    assert_eq!(r.unwrap_err(), DirectiveError::EndWithoutStart);
}

#[test]
fn first_fault_counts() {
    let bad_step_and_line =
        GitHubLink::from_groups(&groups([None, None, Some("x"), None, Some("v"), Some("y"), None]));
    assert_eq!(bad_step_and_line.unwrap_err(), DirectiveError::InvalidStep);
    let no_path = GitHubLink::from_groups(&groups([None, None, None, None, None, None, None]));
    assert_eq!(no_path.unwrap_err(), DirectiveError::Malformed);
    let bad_line_and_shown_start =
        GitHubLink::from_groups(&groups([None, None, Some(""), None, Some("v"), Some("y"), None]));
    assert_eq!(bad_line_and_shown_start.unwrap_err(), DirectiveError::Malformed);
    let too_few = GitHubLink::from_groups(&vec![Some("v".to_owned())]);
    assert_eq!(too_few.unwrap_err(), DirectiveError::Malformed);
}

#[test]
fn manual_link_with_section() {
    let link = ManualLink::parse("#2.3").unwrap();
    assert_eq!(link.text, None);
    assert_eq!(link.section.as_deref(), Some("2.3"));
    assert_eq!(link.section_name, None);
    assert_eq!(depth_class("2.3"), Ok("section"));
    assert_eq!(
        link.render("https://example.org/manual.pdf").unwrap(),
        "[Reference Manual § 2.3](https://example.org/manual.pdf#section.2.3)"
    );
}

#[test]
fn manual_link_with_all_parts() {
    let link = ManualLink::parse("[see here] #2.3.1 (Capability Spaces)").unwrap();
    assert_eq!(link.text.as_deref(), Some("see here"));
    assert_eq!(link.section.as_deref(), Some("2.3.1"));
    assert_eq!(link.section_name.as_deref(), Some("Capability Spaces"));
    assert_eq!(link.render("m").unwrap(), "[see here](m#subsection.2.3.1)");
}

#[test]
fn manual_link_default_text_with_name() {
    let link = ManualLink::parse("#4 (Address Spaces)").unwrap();
    assert_eq!(link.render("m").unwrap(), "[Reference Manual § 4 (Address Spaces)](m#chapter.4)");
}

#[test]
fn manual_link_without_section() {
    let link = ManualLink::parse("").unwrap();
    assert_eq!(link.render("m").unwrap(), "[Reference Manual](m)");
    let named = ManualLink::parse("(Only a name)").unwrap();
    assert_eq!(named.section_name.as_deref(), Some("Only a name"));
    assert_eq!(named.render("m").unwrap(), "[Reference Manual](m)");
}

#[test]
fn manual_link_that_is_none() {
    assert!(ManualLink::parse("2.3").is_none());
    assert!(ManualLink::parse("[text] words").is_none());
    assert!(ManualLink::parse("#2.3\nwords").is_none());
}

#[test]
fn manual_section_runs_to_the_end() {
    let link = ManualLink::parse("#2.3 trailing words").unwrap();
    assert_eq!(link.section.as_deref(), Some("2.3 trailing words"));
}

#[test]
fn depth_classes() {
    assert_eq!(depth_class("7"), Ok("chapter"));
    assert_eq!(depth_class("7.1"), Ok("section"));
    assert_eq!(depth_class("7.1.2"), Ok("subsection"));
    assert_eq!(depth_class("7.1.2.3"), Ok("subsubsection"));
    assert_eq!(depth_class("7.1.2.3.4"), Err(DirectiveError::InvalidSectionDepth));
    assert_eq!(depth_class("....."), Err(DirectiveError::InvalidSectionDepth));
    assert_eq!(depth_class(""), Ok("chapter"));
}

#[test]
fn section_with_four_dots_is_refused() {
    let link = ManualLink::parse("#1.2.3.4.5").unwrap();
    assert_eq!(link.render("m"), Err(DirectiveError::InvalidSectionDepth));
    let with_text = ManualLink::parse("[text] #1.2.3.4.5").unwrap();
    assert_eq!(with_text.render("m"), Err(DirectiveError::InvalidSectionDepth));
}

#[test]
fn manual_link_from_groups() {
    let link =
        ManualLink::from_groups(&vec![None, Some("1.2".to_owned()), Some("N".to_owned())]).unwrap();
    assert_eq!(link.render("u").unwrap(), "[Reference Manual § 1.2 (N)](u#section.1.2)");
    assert!(ManualLink::from_groups(&vec![None, None]).is_none());
}
