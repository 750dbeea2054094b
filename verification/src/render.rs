//! What each directive is replaced by.

use vstd::prelude::*;
use vstd::string::StringExecFns;

use crate::error::DirectiveError;
use crate::manual_link::ManualLink;
use crate::source_link::{GitHubLink, GitHubLinkView};
use crate::step::Step;
use crate::text::{chars_of, same_text, string_of};

verus! {

/// Where the generated API documentation is found.
#[derive(Debug)]
pub enum RustdocLocation {
    /// A path beside the book, given from the book's root.
    Path(String),
    /// An address of its own.
    Url(String),
}

/// Where the API documentation is found, as plain sequences.
pub ghost enum RustdocLocationView {
    Path(Seq<char>),
    Url(Seq<char>),
}

impl View for RustdocLocation {
    type V = RustdocLocationView;

    open spec fn view(&self) -> RustdocLocationView {
        match self {
            RustdocLocation::Path(path) => RustdocLocationView::Path(path@),
            RustdocLocation::Url(url) => RustdocLocationView::Url(url@),
        }
    }
}

/// What the renderings of one book have in common.
#[derive(Debug)]
pub struct Renderer {
    /// The repository of the code, as owner and name: `owner/name`.
    pub code_gh_root: String,
    /// Where the API documentation is found.
    pub rustdoc_location: RustdocLocation,
    /// The address of the reference manual.
    pub manual_url: String,
}

/// A renderer as plain sequences.
pub ghost struct RendererView {
    pub code_gh_root: Seq<char>,
    pub rustdoc_location: RustdocLocationView,
    pub manual_url: Seq<char>,
}

impl View for Renderer {
    type V = RendererView;

    open spec fn view(&self) -> RendererView {
        RendererView {
            code_gh_root: self.code_gh_root@,
            rustdoc_location: self.rustdoc_location@,
            manual_url: self.manual_url@,
        }
    }
}

/// How many directories a chapter lies below the book's root, given how
/// many components its path from the root has: each component but one, the
/// chapter's own file, is a directory.
pub open spec fn depth_of(components: nat) -> nat {
    if components == 0 {
        0
    } else {
        (components - 1) as nat
    }
}

/// `depth` times `../`: the way from a chapter up to the book's root.
pub open spec fn way_up(depth: nat) -> Seq<char>
    decreases depth,
{
    if depth == 0 {
        Seq::<char>::empty()
    } else {
        way_up((depth - 1) as nat) + "../"@
    }
}

/// What a configuration adds to the name of its target; nothing for a
/// configuration that does not exist.
pub open spec fn target_suffix(config: Seq<char>) -> Option<Seq<char>> {
    if config == "root-task"@ {
        Some(""@)
    } else if config == "microkit"@ {
        Some("-microkit"@)
    } else {
        None
    }
}

/// The first `len` characters of `hash`, or all of it if it has fewer.
pub open spec fn truncated(hash: Seq<char>, len: nat) -> Seq<char> {
    if len < hash.len() {
        hash.take(len as int)
    } else {
        hash
    }
}

impl RendererView {
    /// The address of the code's repository.
    pub open spec fn repo_url(self) -> Seq<char> {
        "https://github.com/"@ + self.code_gh_root
    }

    /// The address of what a link means, as of the commit `hash`: under
    /// `tree` for a directory and under `blob` for a file.
    pub open spec fn gh_link_url(self, link: GitHubLinkView, is_directory: bool, hash: Seq<char>) -> Seq<
        char,
    > {
        "https://github.com/"@ + self.code_gh_root + "/"@ + (if is_directory {
            "tree"@
        } else {
            "blob"@
        }) + "/"@ + hash + "/"@ + link.url_suffix()
    }

    /// The Markdown link to a file or a directory of the code.
    pub open spec fn gh_link(self, link: GitHubLinkView, is_directory: bool, hash: Seq<char>) -> Seq<
        char,
    > {
        "["@ + link.shown_text() + "]("@ + self.gh_link_url(link, is_directory, hash) + ")"@
    }

    /// The block that shows a part of a file under a link to it.
    pub open spec fn fragment_with_gh_link(
        self,
        attrs: Seq<char>,
        link: GitHubLinkView,
        hash: Seq<char>,
        fragment: Seq<char>,
    ) -> Seq<char> {
        "<div class=\"fragment-with-gh-link\">\n"@
            + "<div class=\"fragment-with-gh-link-link\">\n"@ + "<pre><code>"@ + "<a href=\""@
            + self.gh_link_url(link, false, hash) + "\">"@ + link.shown_text() + "</a>"@
            + "</code></pre>"@ + "\n"@ + "</div>\n"@
            + "<div class=\"fragment-with-gh-link-fragment\">\n"@ + "\n"@ + "```"@ + attrs + "\n"@
            + fragment + "\n"@ + "```\n"@ + "\n"@ + "</div>\n"@ + "</div>\n"@
    }

    /// Where the API documentation is found, seen from a chapter that lies
    /// `depth` directories below the book's root.
    pub open spec fn rustdoc_base(self, depth: nat) -> Seq<char> {
        match self.rustdoc_location {
            RustdocLocationView::Path(path) => way_up(depth) + path,
            RustdocLocationView::Url(url) => url,
        }
    }

    /// The Markdown link to a page of the API documentation.
    pub open spec fn rustdoc_link(self, depth: nat, config: Seq<char>, path: Seq<char>, text: Seq<char>) -> Result<
        Seq<char>,
        DirectiveError,
    > {
        match target_suffix(config) {
            Some(suffix) => Ok(
                "["@ + text + "]("@ + self.rustdoc_base(depth) + "/"@ + config + "/aarch64-sel4"@
                    + suffix + "-unwind/doc/"@ + path + ")"@,
            ),
            None => Err(DirectiveError::UnknownConfig),
        }
    }

    /// The address of the page of the commit `hash`.
    pub open spec fn step_commit_link(self, hash: Seq<char>) -> Seq<char> {
        "https://github.com/"@ + self.code_gh_root + "/commit/"@ + hash
    }

    /// The heading of a step: its number and text, a control that copies
    /// the commit's hash, and a link to the commit's page.
    pub open spec fn step_header(self, step: Step, text: Seq<char>, hash: Seq<char>) -> Seq<char> {
        "## Step "@ + step.token() + text + "&nbsp;"@ + "&nbsp;"@ + "&nbsp;"@
            + "<span class=\"step-heading-clickable\" onclick=\"navigator.clipboard.writeText('"@
            + hash + "')\">&nbsp;<i class=\"fa fa-copy\"></i>&nbsp;</span>"@
            + "<a class=\"step-heading-clickable\" href=\""@ + self.step_commit_link(hash)
            + "\">&nbsp;<i class=\"fa fa-github\"></i>&nbsp;</a>"@ + "\n"@
    }
}

/// How many directories a chapter lies below the book's root, given the
/// number of components of its path from the root.
pub fn chapter_depth(components: usize) -> (depth: usize)
    ensures
        depth == depth_of(components as nat),
        depth == if components == 0 {
            0
        } else {
            components - 1
        },
{
    if components == 0 {
        0
    } else {
        components - 1
    }
}

/// `depth` times `../`.
pub fn parent_prefix(depth: usize) -> (r: String)
    ensures
        r@ == way_up(depth as nat),
{
    let mut up = String::new();
    let mut i: usize = 0;
    while i < depth
        invariant
            i <= depth,
            up@ == way_up(i as nat),
        decreases depth - i,
    {
        up.append("../");
        i += 1;
    }
    up
}

/// The first `len` characters of a commit's hash.
pub fn truncate_hash(hash: &str, len: usize) -> (r: String)
    ensures
        r@ == truncated(hash@, len as nat),
{
    let v = chars_of(hash);
    if len < v.len() {
        let r = string_of(&v, 0, len);
        assert(v@.subrange(0, len as int) =~= hash@.take(len as int));
        r
    } else {
        let r = string_of(&v, 0, v.len());
        assert(v@.subrange(0, v.len() as int) =~= hash@);
        r
    }
}

impl Renderer {
    /// The name under which the book's host knows this expansion.
    pub fn name(&self) -> (r: &'static str)
        ensures
            r@ == "sel4-rust-tutorial"@,
    {
        "sel4-rust-tutorial"
    }

    /// Whether the expansion serves the given output format: `html` only.
    pub fn supports_renderer(&self, renderer: &str) -> (r: bool)
        ensures
            r == (renderer@ == "html"@),
    {
        same_text(renderer, "html")
    }

    /// The address of the code's repository.
    pub fn gh_repo_url(&self) -> (r: String)
        ensures
            r@ == self@.repo_url(),
    {
        let mut s = String::new();
        s.append("https://github.com/");
        s.append(self.code_gh_root.as_str());
        assert(s@ =~= self@.repo_url());
        s
    }

    /// The address of what `link` means as of the commit `commit_hash`.
    pub fn gh_link_url(&self, link: &GitHubLink, is_directory: bool, commit_hash: &str) -> (r: String)
        ensures
            r@ == self@.gh_link_url(link@, is_directory, commit_hash@),
    {
        let mut s = String::new();
        s.append("https://github.com/");
        s.append(self.code_gh_root.as_str());
        s.append("/");
        if is_directory {
            s.append("tree");
        } else {
            s.append("blob");
        }
        s.append("/");
        s.append(commit_hash);
        s.append("/");
        let suffix = link.url_suffix();
        s.append(suffix.as_str());
        assert(s@ =~= self@.gh_link_url(link@, is_directory, commit_hash@));
        s
    }

    /// The Markdown link to what `link` means: to a directory where
    /// `is_directory` says that the path is one at the link's step, and to a
    /// file otherwise.
    pub fn render_gh_link(&self, link: &GitHubLink, commit_hash: &str, is_directory: bool) -> (r: String)
        ensures
            r@ == self@.gh_link(link@, is_directory, commit_hash@),
    {
        let mut s = String::new();
        s.append("[");
        let text = link.text();
        s.append(text.as_str());
        s.append("](");
        let url = self.gh_link_url(link, is_directory, commit_hash);
        s.append(url.as_str());
        s.append(")");
        assert(s@ =~= self@.gh_link(link@, is_directory, commit_hash@));
        s
    }

    /// The block that shows `fragment`, a part of the file that `link`
    /// means, under a link to it, in a code block with the attributes
    /// `attrs`.
    pub fn render_fragment_with_gh_link(
        &self,
        attrs: &str,
        link: &GitHubLink,
        commit_hash: &str,
        fragment: &str,
    ) -> (r: String)
        ensures
            r@ == self@.fragment_with_gh_link(attrs@, link@, commit_hash@, fragment@),
    {
        let link_text = link.text();
        let url = self.gh_link_url(link, false, commit_hash);
        let mut s = String::new();
        s.append("<div class=\"fragment-with-gh-link\">\n");
        s.append("<div class=\"fragment-with-gh-link-link\">\n");
        s.append("<pre><code>");
        s.append("<a href=\"");
        s.append(url.as_str());
        s.append("\">");
        s.append(link_text.as_str());
        s.append("</a>");
        s.append("</code></pre>");
        s.append("\n");
        s.append("</div>\n");
        s.append("<div class=\"fragment-with-gh-link-fragment\">\n");
        s.append("\n");
        s.append("```");
        s.append(attrs);
        s.append("\n");
        s.append(fragment);
        s.append("\n");
        s.append("```\n");
        s.append("\n");
        s.append("</div>\n");
        s.append("</div>\n");
        assert(s@ =~= self@.fragment_with_gh_link(attrs@, link@, commit_hash@, fragment@));
        s
    }

    /// The Markdown link into the reference manual.
    pub fn render_manual_link(&self, link: &ManualLink) -> (r: Result<String, DirectiveError>)
        ensures
            match r {
                Ok(s) => link@.rendered(self@.manual_url) == Ok::<Seq<char>, DirectiveError>(s@),
                Err(e) => link@.rendered(self@.manual_url) == Err::<Seq<char>, DirectiveError>(e),
            },
    {
        link.render(self.manual_url.as_str())
    }

    /// The Markdown link to the page `path` of the API documentation of the
    /// configuration `config`, from a chapter that lies `depth` directories
    /// below the book's root.
    pub fn render_rustdoc_link(&self, depth: usize, config: &str, path: &str, text: &str) -> (r: Result<
        String,
        DirectiveError,
    >)
        ensures
            match r {
                Ok(s) => self@.rustdoc_link(depth as nat, config@, path@, text@) == Ok::<
                    Seq<char>,
                    DirectiveError,
                >(s@),
                Err(e) => self@.rustdoc_link(depth as nat, config@, path@, text@) == Err::<
                    Seq<char>,
                    DirectiveError,
                >(e),
            },
    {
        let suffix = if same_text(config, "root-task") {
            ""
        } else if same_text(config, "microkit") {
            "-microkit"
        } else {
            return Err(DirectiveError::UnknownConfig);
        };
        let base = match &self.rustdoc_location {
            RustdocLocation::Path(root) => {
                let mut up = parent_prefix(depth);
                up.append(root.as_str());
                up
            },
            RustdocLocation::Url(url) => url.clone(),
        };
        assert(base@ == self@.rustdoc_base(depth as nat));
        let mut s = String::new();
        s.append("[");
        s.append(text);
        s.append("](");
        s.append(base.as_str());
        s.append("/");
        s.append(config);
        s.append("/aarch64-sel4");
        s.append(suffix);
        s.append("-unwind/doc/");
        s.append(path);
        s.append(")");
        assert(s@ =~= "["@ + text@ + "]("@ + self@.rustdoc_base(depth as nat) + "/"@ + config@
            + "/aarch64-sel4"@ + suffix@ + "-unwind/doc/"@ + path@ + ")"@);
        Ok(s)
    }

    /// The address of the page of the commit `commit_hash`.
    pub fn step_commit_link(&self, commit_hash: &str) -> (r: String)
        ensures
            r@ == self@.step_commit_link(commit_hash@),
    {
        let mut s = String::new();
        s.append("https://github.com/");
        s.append(self.code_gh_root.as_str());
        s.append("/commit/");
        s.append(commit_hash);
        assert(s@ =~= self@.step_commit_link(commit_hash@));
        s
    }

    /// The heading of `step`, whose commit has the hash `commit_hash`.
    pub fn render_step_header(&self, step: &Step, text: &str, commit_hash: &str) -> (r: String)
        ensures
            r@ == self@.step_header(*step, text@, commit_hash@),
    {
        let commit_link = self.step_commit_link(commit_hash);
        let number = step.format();
        let mut s = String::new();
        s.append("## Step ");
        s.append(number.as_str());
        s.append(text);
        s.append("&nbsp;");
        s.append("&nbsp;");
        s.append("&nbsp;");
        s.append("<span class=\"step-heading-clickable\" onclick=\"navigator.clipboard.writeText('");
        s.append(commit_hash);
        s.append("')\">&nbsp;<i class=\"fa fa-copy\"></i>&nbsp;</span>");
        s.append("<a class=\"step-heading-clickable\" href=\"");
        s.append(commit_link.as_str());
        s.append("\">&nbsp;<i class=\"fa fa-github\"></i>&nbsp;</a>");
        s.append("\n");
        assert(s@ =~= self@.step_header(*step, text@, commit_hash@));
        s
    }
}

/// The way up from a chapter has one segment of three characters for each
/// directory that the chapter lies below the root.
pub proof fn lemma_way_up_len(depth: nat)
    ensures
        way_up(depth).len() == 3 * depth,
        way_up(depth + 1) == way_up(depth) + "../"@,
    decreases depth,
{
    reveal_strlit("../");
    if depth > 0 {
        lemma_way_up_len((depth - 1) as nat);
    }
}

/// The address of a directory and the address of a file differ in one word
/// only: both begin with the repository, name the same commit and end with
/// the same path and lines.
pub proof fn lemma_tree_or_blob(renderer: RendererView, link: GitHubLinkView, hash: Seq<char>)
    ensures
        renderer.gh_link_url(link, true, hash) == renderer.repo_url() + "/tree/"@ + hash + "/"@
            + link.url_suffix(),
        renderer.gh_link_url(link, false, hash) == renderer.repo_url() + "/blob/"@ + hash + "/"@
            + link.url_suffix(),
{
    reveal_strlit("/");
    reveal_strlit("tree");
    reveal_strlit("blob");
    reveal_strlit("/tree/");
    reveal_strlit("/blob/");
    assert("/"@ + "tree"@ + "/"@ =~= "/tree/"@);
    assert("/"@ + "blob"@ + "/"@ =~= "/blob/"@);
    assert(renderer.gh_link_url(link, true, hash) =~= renderer.repo_url() + ("/"@ + "tree"@ + "/"@)
        + hash + "/"@ + link.url_suffix());
    assert(renderer.gh_link_url(link, false, hash) =~= renderer.repo_url() + ("/"@ + "blob"@ + "/"@)
        + hash + "/"@ + link.url_suffix());
}

} // verus!
