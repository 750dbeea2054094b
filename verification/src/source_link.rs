//! Links to the tutorial's code as of a step.

use vstd::prelude::*;
use vstd::string::StringExecFns;

use crate::decimal::{numeral, parse_size, push_numeral, read_size};
use crate::error::DirectiveError;
use crate::lines::{select_lines, selected_lines};
use crate::pattern::{regex_scan, scan, Groups, Matches};
use crate::step::{read_step, Step};
use crate::text::clone_opt;

verus! {

/// The grammar of a link to the code: a text in square brackets; `@` and a
/// step, with `-` between them where the step is not to be shown; a part of
/// the path in round brackets, which is not shown; the part of the path that
/// is shown; a first line and a last line, each behind a colon. All but the
/// shown part of the path are optional.
pub const GITHUB_LINK_PATTERN: &'static str = r"(?x)
            ^
            (\[(?<text>.*?)\]\s+)?
            (@(?<hide_step>-)?(?<step>.*?)\s+)?
            (\((?<hidden_path_part>.*?)\))?
            (?<visible_path_part>.*?)(:(?<start>\d+)(:(?<end>\d+))?)?
            $
        ";

/// The names of the groups of [`GITHUB_LINK_PATTERN`], in the order in
/// which a link is read from them.
pub open spec fn github_link_names() -> Seq<Seq<char>> {
    seq![
        "text"@,
        "hide_step"@,
        "step"@,
        "hidden_path_part"@,
        "visible_path_part"@,
        "start"@,
        "end"@,
    ]
}

/// A link to a file or a directory of the code, as its directive gives it.
#[derive(Debug)]
pub struct GitHubLink {
    /// The text to show, where the directive gives one.
    pub text: Option<String>,
    /// The step as of which the code is meant; the start where none is given.
    pub step: Step,
    /// Whether the default text names the step.
    pub show_step: bool,
    /// The beginning of the path that the reader is not shown.
    pub hidden_path_part: Option<String>,
    /// The rest of the path, which the reader is shown.
    pub visible_path_part: String,
    /// The first line meant, counted from 1.
    pub start: Option<usize>,
    /// The last line meant, counted from 1.
    pub end: Option<usize>,
}

/// A link to the code as plain values.
pub ghost struct GitHubLinkView {
    pub text: Option<Seq<char>>,
    pub step: Step,
    pub show_step: bool,
    pub hidden_path_part: Option<Seq<char>>,
    pub visible_path_part: Seq<char>,
    pub start: Option<nat>,
    pub end: Option<nat>,
}

/// The lines of a file that a link means: from `first` to `last`, both
/// counted from 1 and both included. Without `first` they begin with the
/// file, without `last` they end with it.
#[derive(Clone, Copy, Debug, PartialEq, Eq)]
pub struct LineRange {
    pub first: Option<usize>,
    pub last: Option<usize>,
}

/// The link that the groups of a match give, or the reason why they give
/// none. Of several reasons the first in this order counts: the step is no
/// step; the path or a line number cannot be read; the step is to be shown
/// and is the start; there is a last line and no first.
pub open spec fn github_link_of_groups(groups: Groups) -> Result<GitHubLinkView, DirectiveError> {
    if groups.len() != 7 {
        Err(DirectiveError::Malformed)
    } else if groups[2] is Some && read_step(groups[2]->0) is None {
        Err(DirectiveError::InvalidStep)
    } else if groups[4] is None {
        Err(DirectiveError::Malformed)
    } else if groups[5] is Some && read_size(groups[5]->0) is None {
        Err(DirectiveError::Malformed)
    } else if groups[6] is Some && read_size(groups[6]->0) is None {
        Err(DirectiveError::Malformed)
    } else {
        let link = GitHubLinkView {
            text: groups[0],
            step: match groups[2] {
                Some(step) => read_step(step)->0,
                None => Step::Start,
            },
            show_step: groups[2] is Some && groups[1] is None,
            hidden_path_part: groups[3],
            visible_path_part: groups[4]->0,
            start: match groups[5] {
                Some(start) => read_size(start),
                None => None,
            },
            end: match groups[6] {
                Some(end) => read_size(end),
                None => None,
            },
        };
        if link.show_step && link.step == Step::Start {
            Err(DirectiveError::StartShown)
        } else if link.start is None && link.end is Some {
            Err(DirectiveError::EndWithoutStart)
        } else {
            Ok(link)
        }
    }
}

/// The link that a search with [`GITHUB_LINK_PATTERN`] gives: that of its
/// first match.
pub open spec fn github_link_in(found: Option<Matches>) -> Result<GitHubLinkView, DirectiveError> {
    match found {
        Some(m) => if m.groups.len() > 0 {
            github_link_of_groups(m.groups[0])
        } else {
            Err(DirectiveError::Malformed)
        },
        None => Err(DirectiveError::Malformed),
    }
}

impl GitHubLinkView {
    /// A last line comes with a first line, a step that is shown is not the
    /// start, and the step is well formed.
    pub open spec fn wf(self) -> bool {
        &&& self.end is Some ==> self.start is Some
        &&& self.show_step ==> self.step != Step::Start
        &&& self.step.wf()
    }

    /// The whole path: the hidden part, then the shown part.
    pub open spec fn path(self) -> Seq<char> {
        match self.hidden_path_part {
            Some(hidden) => hidden + self.visible_path_part,
            None => self.visible_path_part,
        }
    }

    /// The lines as the default text names them: `:3`, `:3:7`, or nothing.
    pub open spec fn range_suffix(self) -> Seq<char> {
        match self.start {
            Some(start) => ":"@ + numeral(start) + match self.end {
                Some(end) => ":"@ + numeral(end),
                None => Seq::<char>::empty(),
            },
            None => Seq::<char>::empty(),
        }
    }

    /// The text shown where the directive gives none: the shown part of the
    /// path, the lines, and the step where it is to be shown.
    pub open spec fn default_text(self) -> Seq<char> {
        self.visible_path_part + self.range_suffix() + if self.show_step {
            " after "@ + self.step.token()
        } else {
            Seq::<char>::empty()
        }
    }

    /// The text shown: the directive's own, or the default.
    pub open spec fn shown_text(self) -> Seq<char> {
        match self.text {
            Some(text) => text,
            None => self.default_text(),
        }
    }

    /// What follows the commit in the link's address: the whole path and the
    /// anchor of the lines, `#L3` or `#L3-L7`.
    pub open spec fn url_suffix(self) -> Seq<char> {
        self.path() + match self.start {
            Some(start) => "#L"@ + numeral(start) + match self.end {
                Some(end) => "-L"@ + numeral(end),
                None => Seq::<char>::empty(),
            },
            None => Seq::<char>::empty(),
        }
    }

    /// The first line meant: the link's first line, where it has one.
    pub open spec fn first_line(self) -> Option<nat> {
        self.start
    }

    /// The last line meant: the link's last line, or its first line where it
    /// has no last one.
    pub open spec fn last_line(self) -> Option<nat> {
        match self.end {
            Some(end) => Some(end),
            None => self.start,
        }
    }
}

impl View for GitHubLink {
    type V = GitHubLinkView;

    open spec fn view(&self) -> GitHubLinkView {
        GitHubLinkView {
            text: self.text.deep_view(),
            step: self.step,
            show_step: self.show_step,
            hidden_path_part: self.hidden_path_part.deep_view(),
            visible_path_part: self.visible_path_part@,
            start: match self.start {
                Some(n) => Some(n as nat),
                None => None,
            },
            end: match self.end {
                Some(n) => Some(n as nat),
                None => None,
            },
        }
    }
}

/// Reads the line number that a group holds, if the group took part.
fn parse_line_group(group: &Option<String>) -> (r: Result<Option<usize>, DirectiveError>)
    ensures
        match r {
            Ok(Some(n)) => group is Some && read_size(group->0@) == Some(n as nat),
            Ok(None) => group is None,
            Err(e) => group is Some && read_size(group->0@) is None && e
                == DirectiveError::Malformed,
        },
{
    match group {
        Some(s) => match parse_size(s.as_str()) {
            Some(n) => Ok(Some(n)),
            None => Err(DirectiveError::Malformed),
        },
        None => Ok(None),
    }
}

impl GitHubLink {
    /// The names of the groups that a link is read from.
    pub fn group_names() -> (names: Vec<&'static str>)
        ensures
            names.deep_view() == github_link_names(),
    {
        let names = vec![
            "text",
            "hide_step",
            "step",
            "hidden_path_part",
            "visible_path_part",
            "start",
            "end",
        ];
        assert(names.deep_view() =~= github_link_names());
        names
    }

    /// Builds the link from the groups of a match of
    /// [`GITHUB_LINK_PATTERN`].
    pub fn from_groups(groups: &Vec<Option<String>>) -> (r: Result<GitHubLink, DirectiveError>)
        ensures
            match r {
                Ok(link) => github_link_of_groups(groups.deep_view()) == Ok::<
                    GitHubLinkView,
                    DirectiveError,
                >(link@) && link@.wf(),
                Err(e) => github_link_of_groups(groups.deep_view()) == Err::<
                    GitHubLinkView,
                    DirectiveError,
                >(e),
            },
    {
        if groups.len() != 7 {
            return Err(DirectiveError::Malformed);
        }
        let step = match &groups[2] {
            Some(s) => Step::parse(s.as_str())?,
            None => Step::Start,
        };
        let visible_path_part = match &groups[4] {
            Some(s) => s.clone(),
            None => {
                return Err(DirectiveError::Malformed);
            },
        };
        let start = parse_line_group(&groups[5])?;
        let end = parse_line_group(&groups[6])?;
        let show_step = groups[2].is_some() && groups[1].is_none();
        if show_step && step.is_start() {
            return Err(DirectiveError::StartShown);
        }
        if start.is_none() && end.is_some() {
            return Err(DirectiveError::EndWithoutStart);
        }
        Ok(
            GitHubLink {
                text: clone_opt(&groups[0]),
                step,
                show_step,
                hidden_path_part: clone_opt(&groups[3]),
                visible_path_part,
                start,
                end,
            },
        )
    }

    /// Reads a link from the arguments of its directive: searches them
    /// with [`GITHUB_LINK_PATTERN`] and builds the link from the groups of
    /// the match, as [`GitHubLink::from_groups`] does. Arguments that the
    /// pattern does not match are malformed.
    pub fn parse(s: &str) -> (r: Result<GitHubLink, DirectiveError>)
        ensures
            match r {
                Ok(link) => github_link_in(regex_scan(GITHUB_LINK_PATTERN@, github_link_names(), s@))
                    == Ok::<GitHubLinkView, DirectiveError>(link@) && link@.wf(),
                Err(e) => github_link_in(regex_scan(GITHUB_LINK_PATTERN@, github_link_names(), s@))
                    == Err::<GitHubLinkView, DirectiveError>(e),
            },
    {
        let names = GitHubLink::group_names();
        match scan(GITHUB_LINK_PATTERN, &names, s) {
            Some(found) => {
                if found.groups.len() > 0 {
                    GitHubLink::from_groups(&found.groups[0])
                } else {
                    Err(DirectiveError::Malformed)
                }
            },
            None => Err(DirectiveError::Malformed),
        }
    }

    /// The step as of which the code is meant.
    pub fn step(&self) -> (r: &Step)
        ensures
            *r == self@.step,
    {
        &self.step
    }

    /// The whole path: the hidden part, then the shown part.
    pub fn path(&self) -> (r: String)
        ensures
            r@ == self@.path(),
    {
        let mut s = String::new();
        match &self.hidden_path_part {
            Some(hidden) => {
                s.append(hidden.as_str());
            },
            None => {},
        }
        s.append(self.visible_path_part.as_str());
        assert(s@ =~= self@.path());
        s
    }

    /// The text shown: the directive's own, or the default.
    pub fn text(&self) -> (r: String)
        ensures
            r@ == self@.shown_text(),
    {
        match &self.text {
            Some(text) => text.clone(),
            None => self.default_text(),
        }
    }

    /// The text shown where the directive gives none.
    pub fn default_text(&self) -> (r: String)
        ensures
            r@ == self@.default_text(),
    {
        let mut s = String::new();
        s.append(self.visible_path_part.as_str());
        let range = self.range_suffix();
        s.append(range.as_str());
        if self.show_step {
            s.append(" after ");
            let step = self.step.format();
            s.append(step.as_str());
        }
        assert(s@ =~= self@.default_text());
        s
    }

    /// What follows the commit in the link's address.
    pub fn url_suffix(&self) -> (r: String)
        ensures
            r@ == self@.url_suffix(),
    {
        let mut s = self.path();
        match self.start {
            Some(start) => {
                s.append("#L");
                push_numeral(&mut s, start as u64);
                match self.end {
                    Some(end) => {
                        s.append("-L");
                        push_numeral(&mut s, end as u64);
                    },
                    None => {},
                }
            },
            None => {},
        }
        assert(s@ =~= self@.url_suffix());
        s
    }

    /// The lines as the default text names them.
    pub fn range_suffix(&self) -> (r: String)
        ensures
            r@ == self@.range_suffix(),
    {
        let mut s = String::new();
        match self.start {
            Some(start) => {
                s.append(":");
                push_numeral(&mut s, start as u64);
                match self.end {
                    Some(end) => {
                        s.append(":");
                        push_numeral(&mut s, end as u64);
                    },
                    None => {},
                }
            },
            None => {},
        }
        assert(s@ =~= self@.range_suffix());
        s
    }

    /// The lines of the file that the link means.
    pub fn line_range(&self) -> (r: LineRange)
        ensures
            r.first == self.start,
            r.last == match self.end {
                Some(end) => Some(end),
                None => self.start,
            },
    {
        LineRange {
            first: self.start,
            last: match self.end {
                Some(end) => Some(end),
                None => self.start,
            },
        }
    }

    /// The part of a file that the link means, given what the file holds
    /// as of the link's step: all of it where the link names no line, the
    /// one line where it names a first line only, the lines from the top
    /// where it names a last line only, and else the lines from the first
    /// to the last.
    pub fn fragment(&self, content: &str) -> (r: String)
        ensures
            r@ == selected_lines(content@, self@.first_line(), self@.last_line()),
            self.start is None && self.end is None ==> r@ == content@,
    {
        select_lines(content, self.line_range())
    }
}

} // verus!
