//! The kinds of directive, and the reading of one occurrence.

use vstd::prelude::*;

use crate::decimal::{parse_size, read_size};
use crate::error::DirectiveError;
use crate::manual_link::{
    manual_link_in, manual_link_names, ManualLink, ManualLinkView, MANUAL_LINK_PATTERN,
};
use crate::pattern::{regex_scan, Groups};
use crate::source_link::{
    github_link_in, github_link_names, GitHubLink, GitHubLinkView, GITHUB_LINK_PATTERN,
};
use crate::step::{read_step, Step};

verus! {

/// `{{#fragment_with_gh_link "attributes" link}}`
pub const FRAGMENT_WITH_GH_LINK_PATTERN: &'static str =
    "\\{\\{\\s*#fragment_with_gh_link\\s+\"(?<attrs>[^}]*)\"\\s+(?<link>.*?)\\s*\\}\\}";

/// `{{#gh_link link}}`
pub const GH_LINK_PATTERN: &'static str = r"\{\{\s*#gh_link\s+(?<link>.*?)\s*\}\}";

/// `{{#manual_link link}}`
pub const MANUAL_LINK_DIRECTIVE_PATTERN: &'static str = r"\{\{\s*#manual_link\s+(?<link>.*?)\s*\}\}";

/// `{{#rustdoc_link configuration path text}}`
pub const RUSTDOC_LINK_PATTERN: &'static str =
    r"\{\{\s*#rustdoc_link\s+(?<config>.*?)\s+(?<path>.*?)\s+(?<text>.*?)\s*\}\}";

/// `{{#step 3.B text}}`
pub const STEP_PATTERN: &'static str = r"\{\{\s*#step\s+(?<step>[0-9]+(\.[A-Z])?)(?<text>.*?)\}\}";

/// `{{#rev_of_step_0 length}}`
pub const REV_OF_STEP_0_PATTERN: &'static str = r"\{\{\s*#rev_of_step_0(\s+(?<len>[0-9]+))?\s*\}\}";

/// `{{#rev_of_last_step length}}`
pub const REV_OF_LAST_STEP_PATTERN: &'static str =
    r"\{\{\s*#rev_of_last_step(\s+(?<len>[0-9]+))?\s*\}\}";

/// `{{#gh_repo_url}}`
pub const GH_REPO_URL_PATTERN: &'static str = r"\{\{\s*#gh_repo_url\s*\}\}";

/// How many characters of a commit's hash are shown where the directive
/// does not say.
pub const DEFAULT_REV_LENGTH: usize = 40;

/// The kinds of directive.
#[derive(Clone, Copy, Debug, PartialEq, Eq)]
pub enum DirectiveKind {
    /// A part of a file under a link to it.
    FragmentWithGhLink,
    /// A link to a file or a directory of the code.
    GhLink,
    /// A link into the reference manual.
    ManualLink,
    /// A link to a page of the API documentation.
    RustdocLink,
    /// The heading of a step.
    StepHeader,
    /// The hash of the commit of step 0.
    RevOfStep0,
    /// The hash of the commit of the last step.
    RevOfLastStep,
    /// The address of the code's repository.
    GhRepoUrl,
}

/// One occurrence of a directive, with its arguments read.
#[derive(Debug)]
#[allow(inconsistent_fields)]
pub enum Directive {
    FragmentWithGhLink { attrs: String, link: GitHubLink },
    GhLink { link: GitHubLink },
    ManualLink { link: ManualLink },
    RustdocLink { config: String, path: String, text: String },
    StepHeader { step: Step, text: String },
    RevOfStep0 { len: usize },
    RevOfLastStep { len: usize },
    GhRepoUrl,
}

/// One occurrence of a directive as plain values.
#[allow(inconsistent_fields)]
pub ghost enum DirectiveView {
    FragmentWithGhLink { attrs: Seq<char>, link: GitHubLinkView },
    GhLink { link: GitHubLinkView },
    ManualLink { link: ManualLinkView },
    RustdocLink { config: Seq<char>, path: Seq<char>, text: Seq<char> },
    StepHeader { step: Step, text: Seq<char> },
    RevOfStep0 { len: nat },
    RevOfLastStep { len: nat },
    GhRepoUrl,
}

impl View for Directive {
    type V = DirectiveView;

    open spec fn view(&self) -> DirectiveView {
        match self {
            Directive::FragmentWithGhLink { attrs, link } => DirectiveView::FragmentWithGhLink {
                attrs: attrs@,
                link: link@,
            },
            Directive::GhLink { link } => DirectiveView::GhLink { link: link@ },
            Directive::ManualLink { link } => DirectiveView::ManualLink { link: link@ },
            Directive::RustdocLink { config, path, text } => DirectiveView::RustdocLink {
                config: config@,
                path: path@,
                text: text@,
            },
            Directive::StepHeader { step, text } => DirectiveView::StepHeader {
                step: *step,
                text: text@,
            },
            Directive::RevOfStep0 { len } => DirectiveView::RevOfStep0 { len: *len as nat },
            Directive::RevOfLastStep { len } => DirectiveView::RevOfLastStep { len: *len as nat },
            Directive::GhRepoUrl => DirectiveView::GhRepoUrl,
        }
    }
}

/// The regular expression that finds the occurrences of a kind.
pub open spec fn pattern_of(kind: DirectiveKind) -> Seq<char> {
    match kind {
        DirectiveKind::FragmentWithGhLink => FRAGMENT_WITH_GH_LINK_PATTERN@,
        DirectiveKind::GhLink => GH_LINK_PATTERN@,
        DirectiveKind::ManualLink => MANUAL_LINK_DIRECTIVE_PATTERN@,
        DirectiveKind::RustdocLink => RUSTDOC_LINK_PATTERN@,
        DirectiveKind::StepHeader => STEP_PATTERN@,
        DirectiveKind::RevOfStep0 => REV_OF_STEP_0_PATTERN@,
        DirectiveKind::RevOfLastStep => REV_OF_LAST_STEP_PATTERN@,
        DirectiveKind::GhRepoUrl => GH_REPO_URL_PATTERN@,
    }
}

/// The names of the groups that hold the arguments of a kind, in the order
/// in which an occurrence is read from them.
pub open spec fn names_of(kind: DirectiveKind) -> Seq<Seq<char>> {
    match kind {
        DirectiveKind::FragmentWithGhLink => seq!["attrs"@, "link"@],
        DirectiveKind::GhLink => seq!["link"@],
        DirectiveKind::ManualLink => seq!["link"@],
        DirectiveKind::RustdocLink => seq!["config"@, "path"@, "text"@],
        DirectiveKind::StepHeader => seq!["step"@, "text"@],
        DirectiveKind::RevOfStep0 => seq!["len"@],
        DirectiveKind::RevOfLastStep => seq!["len"@],
        DirectiveKind::GhRepoUrl => Seq::<Seq<char>>::empty(),
    }
}

/// The link to the code that the text `s` writes.
pub open spec fn github_link_written(s: Seq<char>) -> Result<GitHubLinkView, DirectiveError> {
    github_link_in(regex_scan(GITHUB_LINK_PATTERN@, github_link_names(), s))
}

/// The manual link that the text `s` writes.
pub open spec fn manual_link_written(s: Seq<char>) -> Option<ManualLinkView> {
    manual_link_in(regex_scan(MANUAL_LINK_PATTERN@, manual_link_names(), s))
}

/// The length that the group of a hash directive asks for: the default
/// where the group took no part, nothing where it cannot be read.
pub open spec fn length_asked(group: Option<Seq<char>>) -> Option<nat> {
    match group {
        Some(s) => read_size(s),
        None => Some(DEFAULT_REV_LENGTH as nat),
    }
}

/// The occurrence that the groups of a match of a kind's pattern give, or
/// the reason why they give none.
pub open spec fn directive_of(kind: DirectiveKind, groups: Groups) -> Result<
    DirectiveView,
    DirectiveError,
> {
    if groups.len() != names_of(kind).len() {
        Err(DirectiveError::Malformed)
    } else {
        match kind {
            DirectiveKind::FragmentWithGhLink => {
                if groups[0] is None || groups[1] is None {
                    Err(DirectiveError::Malformed)
                } else {
                    match github_link_written(groups[1]->0) {
                        Ok(link) => Ok(
                            DirectiveView::FragmentWithGhLink { attrs: groups[0]->0, link },
                        ),
                        Err(e) => Err(e),
                    }
                }
            },
            DirectiveKind::GhLink => {
                if groups[0] is None {
                    Err(DirectiveError::Malformed)
                } else {
                    match github_link_written(groups[0]->0) {
                        Ok(link) => Ok(DirectiveView::GhLink { link }),
                        Err(e) => Err(e),
                    }
                }
            },
            DirectiveKind::ManualLink => {
                if groups[0] is None {
                    Err(DirectiveError::Malformed)
                } else {
                    match manual_link_written(groups[0]->0) {
                        Some(link) => Ok(DirectiveView::ManualLink { link }),
                        None => Err(DirectiveError::Malformed),
                    }
                }
            },
            DirectiveKind::RustdocLink => {
                if groups[0] is None || groups[1] is None || groups[2] is None {
                    Err(DirectiveError::Malformed)
                } else {
                    Ok(
                        DirectiveView::RustdocLink {
                            config: groups[0]->0,
                            path: groups[1]->0,
                            text: groups[2]->0,
                        },
                    )
                }
            },
            DirectiveKind::StepHeader => {
                if groups[0] is None || groups[1] is None {
                    Err(DirectiveError::Malformed)
                } else {
                    match read_step(groups[0]->0) {
                        Some(step) => Ok(DirectiveView::StepHeader { step, text: groups[1]->0 }),
                        None => Err(DirectiveError::InvalidStep),
                    }
                }
            },
            DirectiveKind::RevOfStep0 => match length_asked(groups[0]) {
                Some(len) => Ok(DirectiveView::RevOfStep0 { len }),
                None => Err(DirectiveError::Malformed),
            },
            DirectiveKind::RevOfLastStep => match length_asked(groups[0]) {
                Some(len) => Ok(DirectiveView::RevOfLastStep { len }),
                None => Err(DirectiveError::Malformed),
            },
            DirectiveKind::GhRepoUrl => Ok(DirectiveView::GhRepoUrl),
        }
    }
}

/// The length that the group of a hash directive asks for.
fn length_of_group(group: &Option<String>) -> (r: Result<usize, DirectiveError>)
    ensures
        match r {
            Ok(len) => length_asked(group.deep_view()) == Some(len as nat),
            Err(e) => length_asked(group.deep_view()) is None && e == DirectiveError::Malformed,
        },
{
    match group {
        Some(s) => match parse_size(s.as_str()) {
            Some(len) => Ok(len),
            None => Err(DirectiveError::Malformed),
        },
        None => Ok(DEFAULT_REV_LENGTH),
    }
}

/// A copy of the text of a group, where the group took part in the match.
fn text_of_group(group: &Option<String>) -> (r: Result<String, DirectiveError>)
    ensures
        match r {
            Ok(s) => group.deep_view() == Some(s@),
            Err(e) => group is None && e == DirectiveError::Malformed,
        },
{
    match group {
        Some(s) => Ok(s.clone()),
        None => Err(DirectiveError::Malformed),
    }
}

/// Reads the link to the code that a group holds.
fn link_of_group(group: &Option<String>) -> (r: Result<GitHubLink, DirectiveError>)
    requires
        group is Some,
    ensures
        match r {
            Ok(link) => github_link_written(group->0@) == Ok::<GitHubLinkView, DirectiveError>(
                link@,
            ) && link@.wf(),
            Err(e) => github_link_written(group->0@) == Err::<GitHubLinkView, DirectiveError>(e),
        },
{
    match group {
        Some(s) => GitHubLink::parse(s.as_str()),
        None => Err(DirectiveError::Malformed),
    }
}

impl DirectiveKind {
    /// The kinds in the order in which a text is searched for them.
    pub fn passes() -> (r: Vec<DirectiveKind>)
        ensures
            r@ == seq![
                DirectiveKind::FragmentWithGhLink,
                DirectiveKind::GhLink,
                DirectiveKind::ManualLink,
                DirectiveKind::RustdocLink,
                DirectiveKind::StepHeader,
                DirectiveKind::RevOfStep0,
                DirectiveKind::RevOfLastStep,
                DirectiveKind::GhRepoUrl,
            ],
    {
        vec![
            DirectiveKind::FragmentWithGhLink,
            DirectiveKind::GhLink,
            DirectiveKind::ManualLink,
            DirectiveKind::RustdocLink,
            DirectiveKind::StepHeader,
            DirectiveKind::RevOfStep0,
            DirectiveKind::RevOfLastStep,
            DirectiveKind::GhRepoUrl,
        ]
    }

    /// The regular expression that finds the occurrences of the kind.
    pub fn pattern(&self) -> (r: &'static str)
        ensures
            r@ == pattern_of(*self),
    {
        match self {
            DirectiveKind::FragmentWithGhLink => FRAGMENT_WITH_GH_LINK_PATTERN,
            DirectiveKind::GhLink => GH_LINK_PATTERN,
            DirectiveKind::ManualLink => MANUAL_LINK_DIRECTIVE_PATTERN,
            DirectiveKind::RustdocLink => RUSTDOC_LINK_PATTERN,
            DirectiveKind::StepHeader => STEP_PATTERN,
            DirectiveKind::RevOfStep0 => REV_OF_STEP_0_PATTERN,
            DirectiveKind::RevOfLastStep => REV_OF_LAST_STEP_PATTERN,
            DirectiveKind::GhRepoUrl => GH_REPO_URL_PATTERN,
        }
    }

    /// The names of the groups that hold the arguments of the kind.
    pub fn group_names(&self) -> (names: Vec<&'static str>)
        ensures
            names.deep_view() == names_of(*self),
    {
        let names: Vec<&'static str> = match self {
            DirectiveKind::FragmentWithGhLink => vec!["attrs", "link"],
            DirectiveKind::GhLink => vec!["link"],
            DirectiveKind::ManualLink => vec!["link"],
            DirectiveKind::RustdocLink => vec!["config", "path", "text"],
            DirectiveKind::StepHeader => vec!["step", "text"],
            DirectiveKind::RevOfStep0 => vec!["len"],
            DirectiveKind::RevOfLastStep => vec!["len"],
            DirectiveKind::GhRepoUrl => Vec::new(),
        };
        assert(names.deep_view() =~= names_of(*self));
        names
    }
}

impl Directive {
    /// Reads an occurrence of `kind` from the groups of a match of the
    /// kind's pattern.
    pub fn from_groups(kind: DirectiveKind, groups: &Vec<Option<String>>) -> (r: Result<
        Directive,
        DirectiveError,
    >)
        ensures
            match r {
                Ok(d) => directive_of(kind, groups.deep_view()) == Ok::<
                    DirectiveView,
                    DirectiveError,
                >(d@),
                Err(e) => directive_of(kind, groups.deep_view()) == Err::<
                    DirectiveView,
                    DirectiveError,
                >(e),
            },
    {
        let names = kind.group_names();
        if groups.len() != names.len() {
            return Err(DirectiveError::Malformed);
        }
        match kind {
            DirectiveKind::FragmentWithGhLink => {
                if groups[0].is_none() || groups[1].is_none() {
                    return Err(DirectiveError::Malformed);
                }
                let attrs = text_of_group(&groups[0])?;
                let link = link_of_group(&groups[1])?;
                Ok(Directive::FragmentWithGhLink { attrs, link })
            },
            DirectiveKind::GhLink => {
                if groups[0].is_none() {
                    return Err(DirectiveError::Malformed);
                }
                let link = link_of_group(&groups[0])?;
                Ok(Directive::GhLink { link })
            },
            DirectiveKind::ManualLink => {
                match &groups[0] {
                    Some(s) => match ManualLink::parse(s.as_str()) {
                        Some(link) => Ok(Directive::ManualLink { link }),
                        None => Err(DirectiveError::Malformed),
                    },
                    None => Err(DirectiveError::Malformed),
                }
            },
            DirectiveKind::RustdocLink => {
                if groups[0].is_none() || groups[1].is_none() || groups[2].is_none() {
                    return Err(DirectiveError::Malformed);
                }
                let config = text_of_group(&groups[0])?;
                let path = text_of_group(&groups[1])?;
                let text = text_of_group(&groups[2])?;
                Ok(Directive::RustdocLink { config, path, text })
            },
            DirectiveKind::StepHeader => {
                if groups[0].is_none() || groups[1].is_none() {
                    return Err(DirectiveError::Malformed);
                }
                let number = text_of_group(&groups[0])?;
                let text = text_of_group(&groups[1])?;
                let step = Step::parse(number.as_str())?;
                Ok(Directive::StepHeader { step, text })
            },
            DirectiveKind::RevOfStep0 => {
                let len = length_of_group(&groups[0])?;
                Ok(Directive::RevOfStep0 { len })
            },
            DirectiveKind::RevOfLastStep => {
                let len = length_of_group(&groups[0])?;
                Ok(Directive::RevOfLastStep { len })
            },
            DirectiveKind::GhRepoUrl => Ok(Directive::GhRepoUrl),
        }
    }
}

} // verus!
