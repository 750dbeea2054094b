//! Links into the reference manual.

use vstd::prelude::*;
use vstd::string::StringExecFns;

use crate::error::DirectiveError;
use crate::pattern::{regex_scan, scan, Groups, Matches};
use crate::text::{clone_opt, count_char, count_of};

verus! {

/// The grammar of a manual link: a text in square brackets, a section
/// number behind `#`, a section name in round brackets. Each part is
/// optional; white space parts them.
pub const MANUAL_LINK_PATTERN: &'static str = r"(?x)
            ^
            (
                \[
                    (?<text>.*?)
                \]
                (\s+|$)
            )?
            (
                \#
                (?<section>.*?)
                (\s+|$)
            )?
            (
                \(
                    (?<section_name>.*?)
                \)
                (\s+|$)
            )?
            $
        ";

/// The names of the groups of [`MANUAL_LINK_PATTERN`], in the order in
/// which a manual link is read from them.
pub open spec fn manual_link_names() -> Seq<Seq<char>> {
    seq!["text"@, "section"@, "section_name"@]
}

/// A link into the reference manual, as its directive gives it.
#[derive(Debug)]
pub struct ManualLink {
    /// The text to show, where the directive gives one.
    pub text: Option<String>,
    /// The number of the section, such as `2.3.1`.
    pub section: Option<String>,
    /// The name of the section.
    pub section_name: Option<String>,
}

/// A manual link as plain sequences.
pub ghost struct ManualLinkView {
    pub text: Option<Seq<char>>,
    pub section: Option<Seq<char>>,
    pub section_name: Option<Seq<char>>,
}

impl View for ManualLink {
    type V = ManualLinkView;

    open spec fn view(&self) -> ManualLinkView {
        ManualLinkView {
            text: self.text.deep_view(),
            section: self.section.deep_view(),
            section_name: self.section_name.deep_view(),
        }
    }
}

/// The kind of heading that a section number stands for, by the number of
/// its dots; nothing beyond three dots.
pub open spec fn depth_class_of(section: Seq<char>) -> Option<Seq<char>> {
    let dots = count_of(section, '.');
    if dots == 0 {
        Some("chapter"@)
    } else if dots == 1 {
        Some("section"@)
    } else if dots == 2 {
        Some("subsection"@)
    } else if dots == 3 {
        Some("subsubsection"@)
    } else {
        None
    }
}

/// The manual link that the groups of a match give.
pub open spec fn manual_link_of_groups(groups: Groups) -> Option<ManualLinkView> {
    if groups.len() == 3 {
        Some(ManualLinkView { text: groups[0], section: groups[1], section_name: groups[2] })
    } else {
        None
    }
}

/// The manual link that a search with [`MANUAL_LINK_PATTERN`] gives: that
/// of its first match.
pub open spec fn manual_link_in(found: Option<Matches>) -> Option<ManualLinkView> {
    match found {
        Some(m) => if m.groups.len() > 0 {
            manual_link_of_groups(m.groups[0])
        } else {
            None
        },
        None => None,
    }
}

impl ManualLinkView {
    /// The text shown where the directive gives none.
    pub open spec fn default_text(self) -> Seq<char> {
        "Reference Manual"@ + match self.section {
            Some(section) => " § "@ + section + match self.section_name {
                Some(name) => " ("@ + name + ")"@,
                None => Seq::<char>::empty(),
            },
            None => Seq::<char>::empty(),
        }
    }

    /// The text shown: the directive's own, or the default.
    pub open spec fn shown_text(self) -> Seq<char> {
        match self.text {
            Some(text) => text,
            None => self.default_text(),
        }
    }

    /// What follows the manual's address in the link: the anchor of the
    /// section, where there is a section and its depth is known.
    pub open spec fn anchor(self) -> Option<Seq<char>> {
        match self.section {
            Some(section) => match depth_class_of(section) {
                Some(class) => Some("#"@ + class + "."@ + section),
                None => None,
            },
            None => Some(Seq::<char>::empty()),
        }
    }

    /// The Markdown link for a manual at the address `url`.
    pub open spec fn rendered(self, url: Seq<char>) -> Result<Seq<char>, DirectiveError> {
        match self.anchor() {
            Some(anchor) => Ok("["@ + self.shown_text() + "]("@ + url + anchor + ")"@),
            None => Err(DirectiveError::InvalidSectionDepth),
        }
    }
}

/// The kind of heading that the section number `section` stands for.
pub fn depth_class(section: &str) -> (r: Result<&'static str, DirectiveError>)
    ensures
        match r {
            Ok(class) => depth_class_of(section@) == Some(class@),
            Err(e) => depth_class_of(section@) is None && e == DirectiveError::InvalidSectionDepth,
        },
{
    let dots = count_char(section, '.');
    if dots == 0 {
        Ok("chapter")
    } else if dots == 1 {
        Ok("section")
    } else if dots == 2 {
        Ok("subsection")
    } else if dots == 3 {
        Ok("subsubsection")
    } else {
        Err(DirectiveError::InvalidSectionDepth)
    }
}

impl ManualLink {
    /// The names of the groups that a manual link is read from.
    pub fn group_names() -> (names: Vec<&'static str>)
        ensures
            names.deep_view() == manual_link_names(),
    {
        let names = vec!["text", "section", "section_name"];
        assert(names.deep_view() =~= manual_link_names());
        names
    }

    /// Builds the link from the groups of a match of
    /// [`MANUAL_LINK_PATTERN`].
    pub fn from_groups(groups: &Vec<Option<String>>) -> (r: Option<ManualLink>)
        ensures
            match r {
                Some(link) => manual_link_of_groups(groups.deep_view()) == Some(link@),
                None => manual_link_of_groups(groups.deep_view()) is None,
            },
    {
        if groups.len() != 3 {
            return None;
        }
        Some(ManualLink {
            text: clone_opt(&groups[0]),
            section: clone_opt(&groups[1]),
            section_name: clone_opt(&groups[2]),
        })
    }

    /// Reads a manual link from the arguments of its directive: searches
    /// them with [`MANUAL_LINK_PATTERN`] and builds the link from the groups
    /// of the match. There is no link where the pattern does not match.
    pub fn parse(s: &str) -> (r: Option<ManualLink>)
        ensures
            match r {
                Some(link) => manual_link_in(regex_scan(MANUAL_LINK_PATTERN@, manual_link_names(), s@))
                    == Some(link@),
                None => manual_link_in(regex_scan(MANUAL_LINK_PATTERN@, manual_link_names(), s@))
                    is None,
            },
    {
        let names = ManualLink::group_names();
        match scan(MANUAL_LINK_PATTERN, &names, s) {
            Some(found) => {
                if found.groups.len() > 0 {
                    ManualLink::from_groups(&found.groups[0])
                } else {
                    None
                }
            },
            None => None,
        }
    }

    /// The Markdown link into the manual at the address `url`.
    pub fn render(&self, url: &str) -> (r: Result<String, DirectiveError>)
        ensures
            match r {
                Ok(s) => self@.rendered(url@) == Ok::<Seq<char>, DirectiveError>(s@),
                Err(e) => self@.rendered(url@) == Err::<Seq<char>, DirectiveError>(e),
            },
    {
        let mut anchor = String::new();
        match &self.section {
            Some(section) => {
                let class = depth_class(section.as_str())?;
                anchor.append("#");
                anchor.append(class);
                anchor.append(".");
                anchor.append(section.as_str());
            },
            None => {},
        }
        let mut s = String::new();
        s.append("[");
        match &self.text {
            Some(text) => {
                s.append(text.as_str());
            },
            None => {
                s.append("Reference Manual");
                match &self.section {
                    Some(section) => {
                        s.append(" § ");
                        s.append(section.as_str());
                        match &self.section_name {
                            Some(name) => {
                                s.append(" (");
                                s.append(name.as_str());
                                s.append(")");
                            },
                            None => {},
                        }
                    },
                    None => {},
                }
                assert(s@ =~= "["@ + self@.default_text());
            },
        }
        s.append("](");
        s.append(url);
        s.append(anchor.as_str());
        s.append(")");
        assert(s@ =~= "["@ + self@.shown_text() + "]("@ + url@ + anchor@ + ")"@);
        Ok(s)
    }
}

} // verus!
