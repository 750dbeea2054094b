//! Searching a text for the matches of a regular expression.

use regex::Regex;
use vstd::prelude::*;

verus! {

/// What one match captured: for each name asked for, in the order asked,
/// the text of the group of that name, or nothing where the group took no
/// part in the match.
pub type Groups = Seq<Option<Seq<char>>>;

/// What a search found in a text, as plain sequences.
pub ghost struct Matches {
    /// The stretches of the text that no match covers: the one before the
    /// first match, those between two matches, the one after the last.
    pub gaps: Seq<Seq<char>>,
    /// The stretch of the text that each match covers, from the first
    /// match to the last.
    pub wholes: Seq<Seq<char>>,
    /// The groups of each match, from the first match to the last.
    pub groups: Seq<Groups>,
}

/// A text put together: the first gap, then each piece followed by the gap
/// behind it.
pub open spec fn woven(gaps: Seq<Seq<char>>, pieces: Seq<Seq<char>>) -> Seq<char>
    recommends
        gaps.len() == pieces.len() + 1,
    decreases pieces.len(),
{
    if pieces.len() == 0 {
        gaps[0]
    } else {
        woven(gaps.drop_last(), pieces.drop_last()) + pieces.last() + gaps.last()
    }
}

impl Matches {
    /// There is one gap more than there are matches, each match has its
    /// stretch of the text, and every match has one entry for each of the
    /// `names` names.
    pub open spec fn wf(self, names: nat) -> bool {
        &&& self.gaps.len() == self.groups.len() + 1
        &&& self.wholes.len() == self.groups.len()
        &&& forall|i: int| 0 <= i < self.groups.len() ==> (#[trigger] self.groups[i]).len() == names
    }
}

/// What a search found in a text.
#[derive(Debug)]
pub struct Scan {
    /// The stretches of the text that no match covers.
    pub gaps: Vec<String>,
    /// The stretch of the text that each match covers.
    pub wholes: Vec<String>,
    /// The groups of each match, from the first match to the last.
    pub groups: Vec<Vec<Option<String>>>,
}

impl View for Scan {
    type V = Matches;

    open spec fn view(&self) -> Matches {
        Matches {
            gaps: self.gaps.deep_view(),
            wholes: self.wholes.deep_view(),
            groups: self.groups.deep_view(),
        }
    }
}

/// The successive matches of the regular expression `pattern` in `text`, as
/// the `regex` crate finds them, with the groups called `names` of each;
/// nothing where the crate does not accept `pattern`.
pub uninterp spec fn regex_scan(pattern: Seq<char>, names: Seq<Seq<char>>, text: Seq<char>) -> Option<Matches>;

/// Searches `text` for the successive matches of `pattern`.
///
/// Compiles the pattern with `regex::Regex::new`, takes the gaps from
/// `Regex::split` and the matches from `Regex::captures_iter`, and reads
/// the stretch of each match with `Captures::get_match` and each group with
/// `Captures::name`. The contract names the outcome [`regex_scan`] and
/// claims three things of it. `split` yields one stretch per match and one
/// more for the rest of the text. Each match gets one entry per name, since
/// the groups are read name by name. The matches come in the order of the
/// text and do not overlap, and `split` yields what lies before, between
/// and behind them: so the gaps and the matches, taken in turn, make up the
/// text.
#[verifier::external_body]
pub(crate) fn scan(pattern: &str, names: &Vec<&str>, text: &str) -> (r: Option<Scan>)
    ensures
        r is Some <==> regex_scan(pattern@, names.deep_view(), text@) is Some,
        r matches Some(s) ==> regex_scan(pattern@, names.deep_view(), text@) == Some(s@),
        r matches Some(s) ==> s@.wf(names.len() as nat),
        r matches Some(s) ==> woven(s@.gaps, s@.wholes) == text@,
{
    match Regex::new(pattern) {
        Ok(re) => {
            let (wholes, groups) = re.captures_iter(text).map(|found| (
                found.get_match().as_str().to_owned(),
                names.iter().map(|name| found.name(name).map(|group| group.as_str().to_owned())).collect(),
            )).unzip();
            Some(Scan { gaps: re.split(text).map(|gap| gap.to_owned()).collect(), wholes, groups })
        },
        Err(_) => None,
    }
}

} // verus!
