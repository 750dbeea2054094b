//! The expansion of a text: finding the occurrences of a kind of
//! directive, saying what has to be looked up for each, and putting the
//! text together again with each occurrence replaced.
//!
//! What a step's commit is, and what the code holds as of a step, is not
//! known here. The caller finds the occurrences with [`recognize`], answers
//! the [`Lookup`] of each, and hands the answers to
//! [`Occurrences::expand`]; it does so for each kind in the order of
//! [`DirectiveKind::passes`], each time on the text that the kind before
//! left.

use vstd::prelude::*;
use vstd::string::StringExecFns;

use crate::directive::{
    directive_of, names_of, pattern_of, Directive, DirectiveKind, DirectiveView,
};
use crate::error::DirectiveError;
use crate::lines::selected_lines;
use crate::pattern::{regex_scan, scan, woven, Groups, Matches, Scan};
use crate::render::{truncate_hash, truncated, Renderer, RendererView};
use crate::step::Step;

verus! {

/// What has to be known of the code before an occurrence can be rendered.
#[derive(Debug)]
pub enum Lookup {
    /// Nothing.
    Nothing,
    /// The hash of the commit of a step.
    Commit { step: Step },
    /// The hash of the commit of the last step.
    LastCommit,
    /// The hash of the commit of a step, and whether a path is a directory
    /// as of that step.
    CommitAndKind { step: Step, path: String },
    /// The hash of the commit of a step, and what the file at a path holds
    /// as of that step.
    CommitAndContent { step: Step, path: String },
}

/// A lookup as plain values.
pub ghost enum LookupView {
    Nothing,
    Commit { step: Step },
    LastCommit,
    CommitAndKind { step: Step, path: Seq<char> },
    CommitAndContent { step: Step, path: Seq<char> },
}

impl View for Lookup {
    type V = LookupView;

    open spec fn view(&self) -> LookupView {
        match self {
            Lookup::Nothing => LookupView::Nothing,
            Lookup::Commit { step } => LookupView::Commit { step: *step },
            Lookup::LastCommit => LookupView::LastCommit,
            Lookup::CommitAndKind { step, path } => LookupView::CommitAndKind {
                step: *step,
                path: path@,
            },
            Lookup::CommitAndContent { step, path } => LookupView::CommitAndContent {
                step: *step,
                path: path@,
            },
        }
    }
}

/// The answer to a lookup. Of what was not asked for, nothing is read.
#[derive(Debug)]
pub struct Answer {
    /// The full hash of the commit.
    pub commit_hash: String,
    /// Whether the path is a directory.
    pub is_directory: bool,
    /// What the file holds.
    pub content: String,
}

/// An answer as plain values.
pub ghost struct AnswerView {
    pub commit_hash: Seq<char>,
    pub is_directory: bool,
    pub content: Seq<char>,
}

impl View for Answer {
    type V = AnswerView;

    open spec fn view(&self) -> AnswerView {
        AnswerView {
            commit_hash: self.commit_hash@,
            is_directory: self.is_directory,
            content: self.content@,
        }
    }
}

/// The occurrences of one kind of directive in a text, and the text
/// between them.
#[derive(Debug)]
pub struct Occurrences {
    /// The text before the first occurrence, between each two, and after
    /// the last.
    pub gaps: Vec<String>,
    /// The text of each occurrence, braces included.
    pub sources: Vec<String>,
    /// The occurrences, from the first to the last.
    pub directives: Vec<Directive>,
}

/// The occurrences in a text as plain values.
pub ghost struct OccurrencesView {
    pub gaps: Seq<Seq<char>>,
    pub sources: Seq<Seq<char>>,
    pub directives: Seq<DirectiveView>,
}

impl View for Occurrences {
    type V = OccurrencesView;

    open spec fn view(&self) -> OccurrencesView {
        OccurrencesView {
            gaps: self.gaps.deep_view(),
            sources: self.sources.deep_view(),
            directives: self.directives@.map_values(|d: Directive| d@),
        }
    }
}

/// What has to be looked up for an occurrence.
pub open spec fn lookup_of(d: DirectiveView) -> LookupView {
    match d {
        DirectiveView::FragmentWithGhLink { attrs, link } => LookupView::CommitAndContent {
            step: link.step,
            path: link.path(),
        },
        DirectiveView::GhLink { link } => LookupView::CommitAndKind {
            step: link.step,
            path: link.path(),
        },
        DirectiveView::ManualLink { .. } => LookupView::Nothing,
        DirectiveView::RustdocLink { .. } => LookupView::Nothing,
        DirectiveView::StepHeader { step, text } => LookupView::Commit { step },
        DirectiveView::RevOfStep0 { len } => LookupView::Commit {
            step: Step::Numbered { major: 0, minor: None },
        },
        DirectiveView::RevOfLastStep { len } => LookupView::LastCommit,
        DirectiveView::GhRepoUrl => LookupView::Nothing,
    }
}

/// What an occurrence is replaced by, in a chapter that lies `depth`
/// directories below the book's root, given the answer to its lookup.
pub open spec fn rendering(renderer: RendererView, depth: nat, d: DirectiveView, answer: AnswerView) -> Result<
    Seq<char>,
    DirectiveError,
> {
    match d {
        DirectiveView::FragmentWithGhLink { attrs, link } => Ok(
            renderer.fragment_with_gh_link(
                attrs,
                link,
                answer.commit_hash,
                selected_lines(answer.content, link.first_line(), link.last_line()),
            ),
        ),
        DirectiveView::GhLink { link } => Ok(
            renderer.gh_link(link, answer.is_directory, answer.commit_hash),
        ),
        DirectiveView::ManualLink { link } => link.rendered(renderer.manual_url),
        DirectiveView::RustdocLink { config, path, text } => renderer.rustdoc_link(
            depth,
            config,
            path,
            text,
        ),
        DirectiveView::StepHeader { step, text } => Ok(
            renderer.step_header(step, text, answer.commit_hash),
        ),
        DirectiveView::RevOfStep0 { len } => Ok(truncated(answer.commit_hash, len)),
        DirectiveView::RevOfLastStep { len } => Ok(truncated(answer.commit_hash, len)),
        DirectiveView::GhRepoUrl => Ok(renderer.repo_url()),
    }
}

/// The two answers agree in what the lookup asks for.
pub open spec fn answers_agree(lookup: LookupView, a: AnswerView, b: AnswerView) -> bool {
    match lookup {
        LookupView::Nothing => true,
        LookupView::Commit { .. } => a.commit_hash == b.commit_hash,
        LookupView::LastCommit => a.commit_hash == b.commit_hash,
        LookupView::CommitAndKind { .. } => a.commit_hash == b.commit_hash && a.is_directory
            == b.is_directory,
        LookupView::CommitAndContent { .. } => a.commit_hash == b.commit_hash && a.content
            == b.content,
    }
}

/// The occurrences that the groups of the successive matches give, or the
/// reason why the first match that gives none does not.
pub open spec fn directives_of(kind: DirectiveKind, groups: Seq<Groups>) -> Result<
    Seq<DirectiveView>,
    DirectiveError,
>
    decreases groups.len(),
{
    if groups.len() == 0 {
        Ok(Seq::<DirectiveView>::empty())
    } else {
        match directives_of(kind, groups.drop_last()) {
            Ok(ds) => match directive_of(kind, groups.last()) {
                Ok(d) => Ok(ds.push(d)),
                Err(e) => Err(e),
            },
            Err(e) => Err(e),
        }
    }
}

/// The occurrences of a kind that a search with the kind's pattern gives.
pub open spec fn occurrences_in(kind: DirectiveKind, found: Option<Matches>) -> Result<
    OccurrencesView,
    DirectiveError,
> {
    match found {
        Some(m) => if m.gaps.len() != m.groups.len() + 1 || m.wholes.len() != m.groups.len() {
            Err(DirectiveError::Malformed)
        } else {
            match directives_of(kind, m.groups) {
                Ok(ds) => Ok(OccurrencesView { gaps: m.gaps, sources: m.wholes, directives: ds }),
                Err(e) => Err(e),
            }
        },
        None => Err(DirectiveError::Malformed),
    }
}

/// What the occurrences are replaced by, given the answer to the lookup of
/// each, or the reason why the first that cannot be rendered cannot.
pub open spec fn renderings(
    renderer: RendererView,
    depth: nat,
    ds: Seq<DirectiveView>,
    answers: Seq<AnswerView>,
) -> Result<Seq<Seq<char>>, DirectiveError>
    decreases ds.len(),
{
    if ds.len() == 0 {
        Ok(Seq::<Seq<char>>::empty())
    } else {
        match renderings(renderer, depth, ds.drop_last(), answers.drop_last()) {
            Ok(pieces) => match rendering(renderer, depth, ds.last(), answers.last()) {
                Ok(piece) => Ok(pieces.push(piece)),
                Err(e) => Err(e),
            },
            Err(e) => Err(e),
        }
    }
}

impl OccurrencesView {
    /// There is one gap more than there are occurrences, and each
    /// occurrence has its text.
    pub open spec fn wf(self) -> bool {
        &&& self.gaps.len() == self.directives.len() + 1
        &&& self.sources.len() == self.directives.len()
    }

    /// The text that the occurrences were found in: the gaps and the
    /// occurrences' own texts, taken in turn.
    pub open spec fn text(self) -> Seq<char> {
        woven(self.gaps, self.sources)
    }

    /// What has to be looked up, occurrence by occurrence.
    pub open spec fn lookups(self) -> Seq<LookupView> {
        self.directives.map_values(|d: DirectiveView| lookup_of(d))
    }

    /// The text with each occurrence replaced, or the reason why the first
    /// occurrence that cannot be rendered cannot.
    pub open spec fn expanded(self, renderer: RendererView, depth: nat, answers: Seq<AnswerView>) -> Result<
        Seq<char>,
        DirectiveError,
    > {
        match renderings(renderer, depth, self.directives, answers) {
            Ok(pieces) => Ok(woven(self.gaps, pieces)),
            Err(e) => Err(e),
        }
    }
}

impl Directive {
    /// What has to be looked up before this occurrence can be rendered.
    pub fn lookup(&self) -> (r: Lookup)
        ensures
            r@ == lookup_of(self@),
    {
        match self {
            Directive::FragmentWithGhLink { attrs, link } => Lookup::CommitAndContent {
                step: link.step,
                path: link.path(),
            },
            Directive::GhLink { link } => Lookup::CommitAndKind {
                step: link.step,
                path: link.path(),
            },
            Directive::ManualLink { .. } => Lookup::Nothing,
            Directive::RustdocLink { .. } => Lookup::Nothing,
            Directive::StepHeader { step, text } => Lookup::Commit { step: *step },
            Directive::RevOfStep0 { len } => Lookup::Commit {
                step: Step::Numbered { major: 0, minor: None },
            },
            Directive::RevOfLastStep { len } => Lookup::LastCommit,
            Directive::GhRepoUrl => Lookup::Nothing,
        }
    }
}

impl Renderer {
    /// What an occurrence is replaced by, in a chapter that lies `depth`
    /// directories below the book's root, given the answer to its lookup.
    pub fn render(&self, depth: usize, directive: &Directive, answer: &Answer) -> (r: Result<
        String,
        DirectiveError,
    >)
        ensures
            match r {
                Ok(s) => rendering(self@, depth as nat, directive@, answer@) == Ok::<
                    Seq<char>,
                    DirectiveError,
                >(s@),
                Err(e) => rendering(self@, depth as nat, directive@, answer@) == Err::<
                    Seq<char>,
                    DirectiveError,
                >(e),
            },
    {
        match directive {
            Directive::FragmentWithGhLink { attrs, link } => {
                let fragment = link.fragment(answer.content.as_str());
                Ok(
                    self.render_fragment_with_gh_link(
                        attrs.as_str(),
                        link,
                        answer.commit_hash.as_str(),
                        fragment.as_str(),
                    ),
                )
            },
            Directive::GhLink { link } => Ok(
                self.render_gh_link(link, answer.commit_hash.as_str(), answer.is_directory),
            ),
            Directive::ManualLink { link } => self.render_manual_link(link),
            Directive::RustdocLink { config, path, text } => self.render_rustdoc_link(
                depth,
                config.as_str(),
                path.as_str(),
                text.as_str(),
            ),
            Directive::StepHeader { step, text } => Ok(
                self.render_step_header(step, text.as_str(), answer.commit_hash.as_str()),
            ),
            Directive::RevOfStep0 { len } => Ok(truncate_hash(answer.commit_hash.as_str(), *len)),
            Directive::RevOfLastStep { len } => Ok(
                truncate_hash(answer.commit_hash.as_str(), *len),
            ),
            Directive::GhRepoUrl => Ok(self.gh_repo_url()),
        }
    }
}

impl Occurrences {
    /// Reads the occurrences of `kind` from what a search with the kind's
    /// pattern found.
    pub fn from_scan(kind: DirectiveKind, found: Scan) -> (r: Result<Occurrences, DirectiveError>)
        ensures
            match r {
                Ok(o) => occurrences_in(kind, Some(found@)) == Ok::<
                    OccurrencesView,
                    DirectiveError,
                >(o@) && o@.wf() && o@.text() == woven(found@.gaps, found@.wholes),
                Err(e) => occurrences_in(kind, Some(found@)) == Err::<
                    OccurrencesView,
                    DirectiveError,
                >(e),
            },
    {
        if found.gaps.len() == 0 || found.gaps.len() - 1 != found.groups.len()
            || found.wholes.len() != found.groups.len() {
            return Err(DirectiveError::Malformed);
        }
        let ghost all = found.groups.deep_view();
        let mut directives: Vec<Directive> = Vec::new();
        let mut i: usize = 0;
        assert(all.take(0) =~= Seq::<Groups>::empty());
        assert(directives@.map_values(|d: Directive| d@) =~= Seq::<DirectiveView>::empty());
        while i < found.groups.len()
            invariant
                i <= found.groups.len(),
                found.gaps.len() == found.groups.len() + 1,
                found.wholes.len() == found.groups.len(),
                all == found.groups.deep_view(),
                directives.len() == i,
                directives_of(kind, all.take(i as int)) == Ok::<Seq<DirectiveView>, DirectiveError>(
                    directives@.map_values(|d: Directive| d@),
                ),
            decreases found.groups.len() - i,
        {
            let ghost before = directives@.map_values(|d: Directive| d@);
            proof {
                assert(all.take(i + 1).drop_last() =~= all.take(i as int));
                assert(all.take(i + 1).last() == found.groups[i as int].deep_view());
            }
            match Directive::from_groups(kind, &found.groups[i]) {
                Ok(d) => {
                    let ghost dv = d@;
                    directives.push(d);
                    assert(directives@.map_values(|d: Directive| d@) =~= before.push(dv));
                },
                Err(e) => {
                    proof {
                        lemma_first_failure(kind, all, i as int);
                    }
                    return Err(e);
                },
            }
            i += 1;
        }
        assert(all.take(found.groups.len() as int) =~= all);
        Ok(Occurrences { gaps: found.gaps, sources: found.wholes, directives })
    }

    /// What has to be looked up, occurrence by occurrence.
    pub fn lookups(&self) -> (r: Vec<Lookup>)
        ensures
            r@.map_values(|l: Lookup| l@) == self@.lookups(),
    {
        let mut r: Vec<Lookup> = Vec::new();
        let mut i: usize = 0;
        while i < self.directives.len()
            invariant
                i <= self.directives.len(),
                r.len() == i,
                forall|j: int| 0 <= j < i ==> (#[trigger] r@[j])@ == lookup_of(self.directives@[j]@),
            decreases self.directives.len() - i,
        {
            r.push(self.directives[i].lookup());
            i += 1;
        }
        assert(r@.map_values(|l: Lookup| l@) =~= self@.lookups());
        r
    }

    /// The text with each occurrence replaced by its rendering, given the
    /// answer to the lookup of each. Where an occurrence cannot be
    /// rendered there is no text at all.
    pub fn expand(&self, renderer: &Renderer, depth: usize, answers: &Vec<Answer>) -> (r: Result<
        String,
        DirectiveError,
    >)
        requires
            self@.wf(),
            answers.len() == self.directives.len(),
        ensures
            match r {
                Ok(s) => self@.expanded(
                    renderer@,
                    depth as nat,
                    answers@.map_values(|a: Answer| a@),
                ) == Ok::<Seq<char>, DirectiveError>(s@),
                Err(e) => self@.expanded(
                    renderer@,
                    depth as nat,
                    answers@.map_values(|a: Answer| a@),
                ) == Err::<Seq<char>, DirectiveError>(e),
            },
    {
        let ghost gaps = self@.gaps;
        let ghost ds = self@.directives;
        let ghost given = answers@.map_values(|a: Answer| a@);
        let ghost mut pieces = Seq::<Seq<char>>::empty();
        let n = self.directives.len();
        let mut out = String::new();
        out.append(self.gaps[0].as_str());
        let mut i: usize = 0;
        assert(ds.take(0) =~= Seq::<DirectiveView>::empty());
        assert(out@ =~= gaps[0]);
        assert(gaps.take(1)[0] == gaps[0]);
        while i < n
            invariant
                i <= n,
                n == self.directives.len(),
                n == answers.len(),
                gaps == self@.gaps,
                gaps.len() == n + 1,
                ds == self@.directives,
                given == answers@.map_values(|a: Answer| a@),
                pieces.len() == i,
                renderings(renderer@, depth as nat, ds.take(i as int), given.take(i as int)) == Ok::<
                    Seq<Seq<char>>,
                    DirectiveError,
                >(pieces),
                out@ == woven(gaps.take(i + 1), pieces),
            decreases n - i,
        {
            proof {
                assert(ds.take(i + 1).drop_last() =~= ds.take(i as int));
                assert(given.take(i + 1).drop_last() =~= given.take(i as int));
                assert(ds.take(i + 1).last() == self.directives@[i as int]@);
                assert(given.take(i + 1).last() == answers@[i as int]@);
            }
            match renderer.render(depth, &self.directives[i], &answers[i]) {
                Ok(piece) => {
                    out.append(piece.as_str());
                    out.append(self.gaps[i + 1].as_str());
                    proof {
                        let grown = pieces.push(piece@);
                        assert(grown.drop_last() =~= pieces);
                        assert(gaps.take(i + 2).drop_last() =~= gaps.take(i + 1));
                        assert(gaps.take(i + 2).last() == self.gaps@[i + 1]@);
                        pieces = grown;
                    }
                },
                Err(e) => {
                    proof {
                        lemma_first_unrendered(renderer@, depth as nat, ds, given, i as int);
                    }
                    return Err(e);
                },
            }
            i += 1;
        }
        proof {
            assert(ds.take(n as int) =~= ds);
            assert(given.take(n as int) =~= given);
            assert(gaps.take(n + 1) =~= gaps);
        }
        Ok(out)
    }
}

/// Where the groups of one match give no occurrence and those before it
/// do, the reason of that match is the reason of the whole.
pub proof fn lemma_first_failure(kind: DirectiveKind, groups: Seq<Groups>, i: int)
    requires
        0 <= i < groups.len(),
        directives_of(kind, groups.take(i)) is Ok,
        directive_of(kind, groups[i]) is Err,
    ensures
        directives_of(kind, groups) == Err::<Seq<DirectiveView>, DirectiveError>(
            directive_of(kind, groups[i])->Err_0,
        ),
    decreases groups.len(),
{
    if i == groups.len() - 1 {
        assert(groups.drop_last() =~= groups.take(i));
    } else {
        assert(groups.drop_last().take(i) =~= groups.take(i));
        lemma_first_failure(kind, groups.drop_last(), i);
    }
}

/// Where one occurrence cannot be rendered and those before it can, the
/// reason of that occurrence is the reason of the whole.
pub proof fn lemma_first_unrendered(
    renderer: RendererView,
    depth: nat,
    ds: Seq<DirectiveView>,
    answers: Seq<AnswerView>,
    i: int,
)
    requires
        0 <= i < ds.len(),
        ds.len() == answers.len(),
        renderings(renderer, depth, ds.take(i), answers.take(i)) is Ok,
        rendering(renderer, depth, ds[i], answers[i]) is Err,
    ensures
        renderings(renderer, depth, ds, answers) == Err::<Seq<Seq<char>>, DirectiveError>(
            rendering(renderer, depth, ds[i], answers[i])->Err_0,
        ),
    decreases ds.len(),
{
    if i == ds.len() - 1 {
        assert(ds.drop_last() =~= ds.take(i));
        assert(answers.drop_last() =~= answers.take(i));
    } else {
        assert(ds.drop_last().take(i) =~= ds.take(i));
        assert(answers.drop_last().take(i) =~= answers.take(i));
        lemma_first_unrendered(renderer, depth, ds.drop_last(), answers.drop_last(), i);
    }
}

/// A rendering depends on the answer only in what the lookup asked for.
pub proof fn lemma_only_what_was_asked(
    renderer: RendererView,
    depth: nat,
    d: DirectiveView,
    a: AnswerView,
    b: AnswerView,
)
    requires
        answers_agree(lookup_of(d), a, b),
    ensures
        rendering(renderer, depth, d, a) == rendering(renderer, depth, d, b),
{
}

/// A text in which a kind of directive does not occur is left as it is.
pub proof fn lemma_nothing_to_expand(o: OccurrencesView, renderer: RendererView, depth: nat)
    requires
        o.wf(),
        o.directives.len() == 0,
    ensures
        o.expanded(renderer, depth, Seq::<AnswerView>::empty()) == Ok::<Seq<char>, DirectiveError>(
            o.text(),
        ),
{
}

/// The expansion differs from the text in the occurrences only: it is the
/// text with each occurrence's own text replaced by its rendering, the gaps
/// being those of the text.
pub proof fn lemma_gaps_are_kept(
    o: OccurrencesView,
    renderer: RendererView,
    depth: nat,
    answers: Seq<AnswerView>,
)
    requires
        o.wf(),
        renderings(renderer, depth, o.directives, answers) is Ok,
    ensures
        o.text() == woven(o.gaps, o.sources),
        o.expanded(renderer, depth, answers) == Ok::<Seq<char>, DirectiveError>(
            woven(o.gaps, renderings(renderer, depth, o.directives, answers)->Ok_0),
        ),
        renderings(renderer, depth, o.directives, answers)->Ok_0.len() == o.sources.len(),
{
    lemma_rendering_count(renderer, depth, o.directives, answers);
}

/// There are as many renderings as there are occurrences.
pub proof fn lemma_rendering_count(
    renderer: RendererView,
    depth: nat,
    ds: Seq<DirectiveView>,
    answers: Seq<AnswerView>,
)
    requires
        renderings(renderer, depth, ds, answers) is Ok,
    ensures
        renderings(renderer, depth, ds, answers)->Ok_0.len() == ds.len(),
    decreases ds.len(),
{
    if ds.len() > 0 {
        lemma_rendering_count(renderer, depth, ds.drop_last(), answers.drop_last());
    }
}

/// Finds the occurrences of `kind` in `text` and reads the arguments of
/// each. Where one of them cannot be read, nothing is found at all. What
/// is found keeps the whole text: the gaps and the occurrences' own texts,
/// taken in turn, make it up.
pub fn recognize(kind: DirectiveKind, text: &str) -> (r: Result<Occurrences, DirectiveError>)
    ensures
        match r {
            Ok(o) => occurrences_in(
                kind,
                regex_scan(pattern_of(kind), names_of(kind), text@),
            ) == Ok::<OccurrencesView, DirectiveError>(o@) && o@.wf() && o@.text() == text@ && (
            o.directives.len() == 0 ==> o@.gaps[0] == text@),
            Err(e) => occurrences_in(
                kind,
                regex_scan(pattern_of(kind), names_of(kind), text@),
            ) == Err::<OccurrencesView, DirectiveError>(e),
        },
{
    let names = kind.group_names();
    match scan(kind.pattern(), &names, text) {
        Some(found) => {
            let ghost m = found@;
            let r = Occurrences::from_scan(kind, found);
            proof {
                if r is Ok {
                    lemma_count(kind, m.groups);
                }
            }
            r
        },
        None => Err(DirectiveError::Malformed),
    }
}

/// There are as many occurrences as there are matches.
pub proof fn lemma_count(kind: DirectiveKind, groups: Seq<Groups>)
    requires
        directives_of(kind, groups) is Ok,
    ensures
        directives_of(kind, groups)->Ok_0.len() == groups.len(),
    decreases groups.len(),
{
    if groups.len() > 0 {
        lemma_count(kind, groups.drop_last());
    }
}

} // verus!
