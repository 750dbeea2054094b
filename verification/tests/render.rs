use step_directives::error::DirectiveError;
use step_directives::manual_link::ManualLink;
use step_directives::render::{chapter_depth, parent_prefix, truncate_hash, Renderer, RustdocLocation};
use step_directives::source_link::GitHubLink;
use step_directives::step::Step;

const HASH: &str = "0123456789abcdef0123456789abcdef01234567";

fn renderer(location: RustdocLocation) -> Renderer {
    Renderer {
        code_gh_root: "tutorial/code".to_owned(),
        rustdoc_location: location,
        manual_url: "https://example.org/manual.pdf".to_owned(),
    }
}

fn local() -> Renderer {
    renderer(RustdocLocation::Path("rustdoc".to_owned()))
}

#[test]
fn name_and_output_format() {
    assert_eq!(local().name(), "sel4-rust-tutorial");
    assert!(local().supports_renderer("html"));
    assert!(!local().supports_renderer("markdown"));
    assert!(!local().supports_renderer("htm"));
    assert!(!local().supports_renderer(""));
}

#[test]
fn directory_goes_to_tree_and_file_to_blob() {
    let link = GitHubLink::parse("@2 (crates/)demo").unwrap();
    let as_directory = local().render_gh_link(&link, HASH, true);
    let as_file = local().render_gh_link(&link, HASH, false);
    assert_eq!(
        as_directory,
        format!("[demo after 2](https://github.com/tutorial/code/tree/{HASH}/crates/demo)")
    );
    assert_eq!(
        as_file,
        format!("[demo after 2](https://github.com/tutorial/code/blob/{HASH}/crates/demo)")
    );
    assert_eq!(as_directory.replace("/tree/", "/blob/"), as_file);
}

#[test]
fn link_address_with_lines() {
    let link = GitHubLink::parse("src/main.rs:3:7").unwrap();
    assert_eq!(
        local().gh_link_url(&link, false, HASH),
        format!("https://github.com/tutorial/code/blob/{HASH}/src/main.rs#L3-L7")
    );
}

#[test]
fn fragment_block() {
    let link = GitHubLink::parse("@3 (crates/)src/main.rs:2:3").unwrap();
    let block = local().render_fragment_with_gh_link("rust,ignore", &link, HASH, "let a = 1;\nlet b = 2;");
    let expected = format!(
        "<div class=\"fragment-with-gh-link\">\n\
         <div class=\"fragment-with-gh-link-link\">\n\
         <pre><code><a href=\"https://github.com/tutorial/code/blob/{HASH}/crates/src/main.rs#L2-L3\">src/main.rs:2:3 after 3</a></code></pre>\n\
         </div>\n\
         <div class=\"fragment-with-gh-link-fragment\">\n\
         \n\
         ```rust,ignore\n\
         let a = 1;\n\
         let b = 2;\n\
         ```\n\
         \n\
         </div>\n\
         </div>\n"
    );
    assert_eq!(block, expected);
}

#[test]
fn manual_link_uses_the_manuals_address() {
    let link = ManualLink::parse("#2.3").unwrap();
    assert_eq!(
        local().render_manual_link(&link).unwrap(),
        "[Reference Manual § 2.3](https://example.org/manual.pdf#section.2.3)"
    );
    let deep = ManualLink::parse("#1.2.3.4.5").unwrap();
    assert_eq!(local().render_manual_link(&deep), Err(DirectiveError::InvalidSectionDepth));
}

#[test]
fn api_link_two_levels_deep() {
    assert_eq!(
        local().render_rustdoc_link(2, "root-task", "sel4/index.html", "`sel4`").unwrap(),
        "[`sel4`](../../rustdoc/root-task/aarch64-sel4-unwind/doc/sel4/index.html)"
    );
}

#[test]
fn api_link_at_the_root_and_deeper() {
    assert_eq!(
        local().render_rustdoc_link(0, "microkit", "a.html", "a").unwrap(),
        "[a](rustdoc/microkit/aarch64-sel4-microkit-unwind/doc/a.html)"
    );
    assert_eq!(
        local().render_rustdoc_link(3, "microkit", "a.html", "a").unwrap(),
        "[a](../../../rustdoc/microkit/aarch64-sel4-microkit-unwind/doc/a.html)"
    );
    assert_eq!(parent_prefix(0), "");
    assert_eq!(parent_prefix(2), "../../");
}

#[test]
fn depth_is_one_less_than_the_components() {
    assert_eq!(chapter_depth(0), 0);
    assert_eq!(chapter_depth(1), 0);
    assert_eq!(chapter_depth(2), 1);
    assert_eq!(chapter_depth(3), 2);
    assert_eq!(parent_prefix(chapter_depth(3)), "../../");
}

#[test]
fn api_link_with_an_address_of_its_own() {
    let remote = renderer(RustdocLocation::Url("https://docs.example.org".to_owned()));
    assert_eq!(
        remote.render_rustdoc_link(2, "root-task", "sel4/index.html", "sel4").unwrap(),
        "[sel4](https://docs.example.org/root-task/aarch64-sel4-unwind/doc/sel4/index.html)"
    );
}

#[test]
fn api_link_with_unknown_configuration() {
    assert_eq!(
        local().render_rustdoc_link(1, "linux", "a.html", "a"),
        Err(DirectiveError::UnknownConfig)
    );
    assert_eq!(
        local().render_rustdoc_link(1, "", "a.html", "a"),
        Err(DirectiveError::UnknownConfig)
    );
}

#[test]
fn step_heading() {
    let step = Step::parse("3.B").unwrap();
    let expected = format!(
        "## Step 3.B: Title&nbsp;&nbsp;&nbsp;\
         <span class=\"step-heading-clickable\" onclick=\"navigator.clipboard.writeText('{HASH}')\">&nbsp;<i class=\"fa fa-copy\"></i>&nbsp;</span>\
         <a class=\"step-heading-clickable\" href=\"https://github.com/tutorial/code/commit/{HASH}\">&nbsp;<i class=\"fa fa-github\"></i>&nbsp;</a>\n"
    );
    assert_eq!(local().render_step_header(&step, ": Title", HASH), expected);
    assert_eq!(
        local().step_commit_link(HASH),
        format!("https://github.com/tutorial/code/commit/{HASH}")
    );
}

#[test]
fn hash_is_cut_to_length() {
    assert_eq!(truncate_hash(HASH, 7), "0123456");
    assert_eq!(truncate_hash(HASH, 40), HASH);
    assert_eq!(truncate_hash(HASH, 0), "");
    assert_eq!(truncate_hash(HASH, 99), HASH);
}

#[test]
fn repository_address() {
    assert_eq!(local().gh_repo_url(), "https://github.com/tutorial/code");
}
