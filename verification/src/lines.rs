//! The lines of a text, and the choice of some of them.

use vstd::prelude::*;
use vstd::string::StringExecFns;

use crate::source_link::LineRange;
use crate::text::{chars_of, push_char, string_of};

verus! {

/// How many characters stand before the first line break of `s`, or in all
/// of `s` where it has none.
pub open spec fn first_line_len(s: Seq<char>) -> nat
    decreases s.len(),
{
    if s.len() == 0 || s[0] == '\n' {
        0
    } else {
        1 + first_line_len(s.drop_first())
    }
}

/// The lines of `s`, without their line breaks. A line break ends a line;
/// what follows the last one is a line only if it is not empty.
pub open spec fn lines_of(s: Seq<char>) -> Seq<Seq<char>>
    decreases s.len(),
{
    if s.len() == 0 {
        Seq::<Seq<char>>::empty()
    } else {
        let k = first_line_len(s) as int;
        if k >= s.len() {
            seq![s]
        } else {
            seq![s.take(k)] + lines_of(s.skip(k + 1))
        }
    }
}

/// The lines put together again, with a line break between each two.
pub open spec fn join_lines(lines: Seq<Seq<char>>) -> Seq<char>
    decreases lines.len(),
{
    if lines.len() == 0 {
        Seq::<char>::empty()
    } else if lines.len() == 1 {
        lines[0]
    } else {
        join_lines(lines.drop_last()) + seq!['\n'] + lines.last()
    }
}

/// The index of the first line chosen: lines are counted from 1, and
/// without a first line the choice begins with the text.
pub open spec fn lower_index(first: Option<nat>) -> int {
    match first {
        Some(f) => if f >= 1 {
            f - 1
        } else {
            0
        },
        None => 0,
    }
}

/// The index behind the last line chosen among `count` lines.
pub open spec fn upper_index(last: Option<nat>, count: nat) -> int {
    match last {
        Some(l) => if l < count {
            l as int
        } else {
            count as int
        },
        None => count as int,
    }
}

/// The part of `s` that a range means. With neither a first nor a last
/// line it is the whole of `s`, as it is. Else it is the lines `first` to
/// `last` of `s`, both included and counted from 1, joined by line breaks;
/// lines that `s` does not have are left out.
pub open spec fn selected_lines(s: Seq<char>, first: Option<nat>, last: Option<nat>) -> Seq<char> {
    if first is None && last is None {
        s
    } else {
        let lines = lines_of(s);
        let lo = lower_index(first);
        let hi = upper_index(last, lines.len());
        if lo < hi {
            join_lines(lines.subrange(lo, hi))
        } else {
            Seq::<char>::empty()
        }
    }
}

impl LineRange {
    /// The first line as a number of the model.
    pub open spec fn first_line(self) -> Option<nat> {
        match self.first {
            Some(n) => Some(n as nat),
            None => None,
        }
    }

    /// The last line as a number of the model.
    pub open spec fn last_line(self) -> Option<nat> {
        match self.last {
            Some(n) => Some(n as nat),
            None => None,
        }
    }
}

/// Where the first `k` characters of `s` hold no line break, and a line
/// break or the end of `s` follows them, the first line has `k` characters.
pub proof fn lemma_first_line_len(s: Seq<char>, k: int)
    requires
        0 <= k <= s.len(),
        forall|j: int| 0 <= j < k ==> s[j] != '\n',
        k == s.len() || s[k] == '\n',
    ensures
        first_line_len(s) == k,
    decreases k,
{
    if k > 0 {
        lemma_first_line_len(s.drop_first(), k - 1);
    }
}

/// The first line ends before the first line break, or with the text.
pub proof fn lemma_first_line_end(s: Seq<char>)
    ensures
        first_line_len(s) <= s.len(),
        forall|j: int| 0 <= j < first_line_len(s) ==> s[j] != '\n',
        first_line_len(s) < s.len() ==> s[first_line_len(s) as int] == '\n',
    decreases s.len(),
{
    if s.len() == 0 || s[0] == '\n' {
    } else {
        let t = s.drop_first();
        lemma_first_line_end(t);
        assert forall|j: int| 0 <= j < first_line_len(s) implies s[j] != '\n' by {
            if j > 0 {
                assert(s[j] == t[j - 1]);
            }
        }
    }
}

/// A text that is not empty has a line.
pub proof fn lemma_lines_nonempty(s: Seq<char>)
    requires
        s.len() > 0,
    ensures
        lines_of(s).len() >= 1,
{
}

/// Joining a line and further lines puts a line break between them.
pub proof fn lemma_join_front(line: Seq<char>, rest: Seq<Seq<char>>)
    requires
        rest.len() >= 1,
    ensures
        join_lines(seq![line] + rest) == line + seq!['\n'] + join_lines(rest),
    decreases rest.len(),
{
    let all = seq![line] + rest;
    if rest.len() == 1 {
        assert(all.drop_last() =~= seq![line]);
        assert(join_lines(all.drop_last()) == line);
        assert(all.last() == rest[0]);
    } else {
        lemma_join_front(line, rest.drop_last());
        assert(all.drop_last() =~= seq![line] + rest.drop_last());
        assert(all.last() == rest.last());
        assert(join_lines(all) =~= line + seq!['\n'] + join_lines(rest));
    }
}

/// Splitting a text into its lines and joining them gives the text back,
/// less the line break at its very end if it has one there.
pub proof fn lemma_join_of_lines(s: Seq<char>)
    ensures
        join_lines(lines_of(s)) == if s.len() > 0 && s.last() == '\n' {
            s.drop_last()
        } else {
            s
        },
    decreases s.len(),
{
    if s.len() == 0 {
    } else {
        lemma_first_line_end(s);
        let k = first_line_len(s) as int;
        if k >= s.len() {
            assert(s[s.len() - 1] != '\n');
        } else {
            let line = s.take(k);
            let t = s.skip(k + 1);
            if t.len() == 0 {
                assert(lines_of(t) =~= Seq::<Seq<char>>::empty());
                assert(lines_of(s) =~= seq![line]);
                assert(line =~= s.drop_last());
            } else {
                lemma_join_of_lines(t);
                lemma_lines_nonempty(t);
                lemma_join_front(line, lines_of(t));
                assert(t.last() == s.last());
                if t.last() == '\n' {
                    assert(line + seq!['\n'] + t.drop_last() =~= s.drop_last());
                } else {
                    assert(line + seq!['\n'] + t =~= s);
                }
            }
        }
    }
}

/// With neither a first nor a last line the choice is the whole text:
/// nothing is dropped at either end.
pub proof fn lemma_select_all(s: Seq<char>)
    ensures
        selected_lines(s, None, None) == s,
{
}

/// The choice of every line by its number is the text, less the line break
/// at its very end if it has one there.
pub proof fn lemma_select_every_line(s: Seq<char>)
    ensures
        selected_lines(s, Some(1), Some(lines_of(s).len())) == if s.len() > 0 && s.last() == '\n' {
            s.drop_last()
        } else {
            s
        },
{
    lemma_join_of_lines(s);
    let lines = lines_of(s);
    assert(lines.subrange(0, lines.len() as int) =~= lines);
}

/// The choice of one line that the text has is that line.
pub proof fn lemma_select_one(s: Seq<char>, n: nat)
    requires
        1 <= n <= lines_of(s).len(),
    ensures
        selected_lines(s, Some(n), Some(n)) == lines_of(s)[n - 1],
{
    let lines = lines_of(s);
    assert(lines.subrange(n - 1, n as int) =~= seq![lines[n - 1]]);
}

/// The choice up to a line is the choice from the first line up to it.
pub proof fn lemma_select_from_top(s: Seq<char>, last: nat)
    ensures
        selected_lines(s, None, Some(last)) == selected_lines(s, Some(1), Some(last)),
{
}

/// The lines of `content`, without their line breaks.
pub fn split_lines(content: &str) -> (lines: Vec<String>)
    ensures
        lines.deep_view() == lines_of(content@),
{
    let v = chars_of(content);
    let n = v.len();
    let mut lines: Vec<String> = Vec::new();
    let mut start: usize = 0;
    let mut i: usize = 0;
    assert(v@.skip(0) =~= v@);
    assert(lines.deep_view() =~= Seq::<Seq<char>>::empty());
    while i < n
        invariant
            n == v.len(),
            v@ == content@,
            start <= i <= n,
            forall|j: int| start <= j < i ==> v@[j] != '\n',
            lines_of(v@) == lines.deep_view() + lines_of(v@.skip(start as int)),
        decreases n - i,
    {
        if v[i] == '\n' {
            let line = string_of(&v, start, i);
            proof {
                let rest = v@.skip(start as int);
                let k = i - start;
                lemma_first_line_len(rest, k);
                assert(rest.take(k) =~= line@);
                assert(rest.skip(k + 1) =~= v@.skip(i + 1));
                assert(lines_of(rest) == seq![line@] + lines_of(v@.skip(i + 1)));
            }
            let ghost before = lines.deep_view();
            lines.push(line);
            assert(lines.deep_view() =~= before.push(line@));
            assert(before + (seq![line@] + lines_of(v@.skip(i + 1))) =~= before.push(line@) + lines_of(
                v@.skip(i + 1),
            ));
            start = i + 1;
        }
        i += 1;
    }
    if start < n {
        let line = string_of(&v, start, n);
        proof {
            let rest = v@.skip(start as int);
            lemma_first_line_len(rest, n - start);
            assert(rest =~= line@);
            assert(lines_of(rest) == seq![line@]);
        }
        let ghost before = lines.deep_view();
        lines.push(line);
        assert(lines.deep_view() =~= before.push(line@));
        assert(before + seq![line@] =~= before.push(line@));
    } else {
        assert(v@.skip(start as int) =~= Seq::<char>::empty());
        assert(lines.deep_view() + Seq::<Seq<char>>::empty() =~= lines.deep_view());
    }
    lines
}

/// The part of `content` that `range` means: all of it, as it is, where the
/// range has neither a first nor a last line, and else the lines of the
/// range, joined by line breaks.
pub fn select_lines(content: &str, range: LineRange) -> (r: String)
    ensures
        r@ == selected_lines(content@, range.first_line(), range.last_line()),
        range.first is None && range.last is None ==> r@ == content@,
{
    if range.first.is_none() && range.last.is_none() {
        return content.to_owned();
    }
    let lines = split_lines(content);
    let n = lines.len();
    let lo: usize = match range.first {
        Some(f) => if f >= 1 {
            f - 1
        } else {
            0
        },
        None => 0,
    };
    let hi: usize = match range.last {
        Some(l) => if l < n {
            l
        } else {
            n
        },
        None => n,
    };
    let mut out = String::new();
    if lo < hi {
        let ghost all = lines.deep_view();
        out.append(lines[lo].as_str());
        assert(all.subrange(lo as int, lo + 1) =~= seq![all[lo as int]]);
        let mut i: usize = lo + 1;
        while i < hi
            invariant
                lo < i <= hi <= n,
                n == lines.len(),
                all == lines.deep_view(),
                out@ == join_lines(all.subrange(lo as int, i as int)),
            decreases hi - i,
        {
            push_char(&mut out, '\n');
            out.append(lines[i].as_str());
            proof {
                let next = all.subrange(lo as int, i + 1);
                assert(next.drop_last() =~= all.subrange(lo as int, i as int));
                assert(next.last() == lines[i as int]@);
                assert(out@ =~= join_lines(next.drop_last()) + seq!['\n'] + next.last());
            }
            i += 1;
        }
    }
    out
}

} // verus!
