//! Ingestion: turning raw text read from the source into lines, and the
//! decisions of the read loop that feeds them to the store.

use vstd::prelude::*;

use crate::text::{chars_of, is_space, is_space_char, string_of, views};

verus! {

/// What the escape-sequence stripper leaves of `s`: the text with its ANSI
/// escape sequences removed.
pub uninterp spec fn ansi_stripped(s: Seq<char>) -> Seq<char>;

/// `s` with each newline and tab turned into a space.
pub open spec fn blanked(s: Seq<char>) -> Seq<char> {
    s.map_values(|c: char| if c == '\n' || c == '\t' { ' ' } else { c })
}

/// The line that raw text `s` becomes: controls blanked, escapes stripped.
pub open spec fn normalized(s: Seq<char>) -> Seq<char> {
    ansi_stripped(blanked(s))
}

/// Relies on strip-ansi-escapes' `strip_str`: the text without its ANSI
/// escape sequences (the crate documents that the result is always UTF-8).
/// Its performer prints no control character and writes a newline only
/// when it executes one from the input, so no tab or escape character
/// comes out, and a newline only where one went in.
#[verifier::external_body]
fn strip_ansi(s: &str) -> (r: String)
    ensures
        r@ == ansi_stripped(s@),
        !r@.contains('\t'),
        !r@.contains('\u{1b}'),
        !s@.contains('\n') ==> !r@.contains('\n'),
{
    strip_ansi_escapes::strip_str(s)
}

/// Replaces each newline and tab in `s` by a space.
pub fn blank_controls(s: &str) -> (r: String)
    ensures
        r@ == blanked(s@),
{
    let chars = chars_of(s);
    let mut out: Vec<char> = Vec::new();
    for i in 0..chars.len()
        invariant
            chars@ == s@,
            out@ == blanked(s@.take(i as int)),
    {
        let c = chars[i];
        if c == '\n' || c == '\t' {
            out.push(' ');
        } else {
            out.push(c);
        }
        assert(out@ =~= blanked(s@.take(i + 1)));
    }
    assert(s@.take(chars@.len() as int) =~= s@);
    string_of(&out)
}

/// Turns raw text read from the source into a line: newlines and tabs
/// become spaces, then ANSI escape sequences are stripped.
pub fn normalize_line(raw: &str) -> (r: String)
    ensures
        r@ == normalized(raw@),
        !r@.contains('\n'),
        !r@.contains('\t'),
        !r@.contains('\u{1b}'),
{
    let blank = blank_controls(raw);
    assert(!blank@.contains('\n')) by {
        assert forall|i: int| 0 <= i < blank@.len() implies blank@[i] != '\n' by {
            assert(blank@[i] == blanked(raw@)[i]);
        }
    }
    strip_ansi(blank.as_str())
}

/// The outcome of one timeout-bounded read from the source.
pub enum ReadOutcome {
    /// No line arrived within the read timeout.
    TimedOut,
    /// A raw line of text.
    Line(String),
    /// The source is exhausted.
    Closed,
    /// The read failed.
    Failed,
}

/// What the read loop does after a read.
pub enum IngestAction {
    /// Read again.
    ReadAgain,
    /// Hand this line on to the store, then read again.
    Forward(String),
    /// End ingestion.
    Stop,
}

/// The model of an ingestion decision.
pub enum StepView {
    ReadAgain,
    Forward(Seq<char>),
    Stop,
}

impl View for IngestAction {
    type V = StepView;

    open spec fn view(&self) -> StepView {
        match self {
            IngestAction::ReadAgain => StepView::ReadAgain,
            IngestAction::Forward(l) => StepView::Forward(l@),
            IngestAction::Stop => StepView::Stop,
        }
    }
}

/// The decision after a read: once cancellation is seen nothing more is
/// handed on; a timeout reads again; a line is handed on cleaned up; the end
/// of the source or a failed read ends ingestion.
pub open spec fn step_spec(cancelled: bool, outcome: ReadOutcome) -> StepView {
    if cancelled {
        StepView::Stop
    } else {
        match outcome {
            ReadOutcome::TimedOut => StepView::ReadAgain,
            ReadOutcome::Line(l) => StepView::Forward(normalized(l@)),
            ReadOutcome::Closed => StepView::Stop,
            ReadOutcome::Failed => StepView::Stop,
        }
    }
}

/// Decides what the read loop does after a read, given whether ingestion
/// has been cancelled meanwhile. Each read is bounded by the retrieval
/// timeout, so cancellation takes effect within one such interval.
pub fn ingest_step(cancelled: bool, outcome: ReadOutcome) -> (r: IngestAction)
    ensures
        r@ == step_spec(cancelled, outcome),
{
    if cancelled {
        return IngestAction::Stop;
    }
    match outcome {
        ReadOutcome::TimedOut => IngestAction::ReadAgain,
        ReadOutcome::Line(l) => IngestAction::Forward(normalize_line(l.as_str())),
        ReadOutcome::Closed => IngestAction::Stop,
        ReadOutcome::Failed => IngestAction::Stop,
    }
}

/// The lines that a read loop hands on, given for each read whether
/// cancellation had been seen and what the read gave; the loop ends at the
/// first `Stop`.
pub open spec fn forwarded(steps: Seq<(bool, ReadOutcome)>) -> Seq<Seq<char>>
    decreases steps.len(),
{
    if steps.len() == 0 {
        Seq::empty()
    } else {
        match step_spec(steps[0].0, steps[0].1) {
            StepView::Stop => Seq::empty(),
            StepView::ReadAgain => forwarded(steps.drop_first()),
            StepView::Forward(l) => seq![l] + forwarded(steps.drop_first()),
        }
    }
}

/// Once a read sees cancellation, no line read from then on is handed on:
/// the loop forwards exactly what it forwarded before that read.
pub proof fn lemma_cancel_stops_forwarding(steps: Seq<(bool, ReadOutcome)>, k: int)
    requires
        0 <= k < steps.len(),
        steps[k].0,
    ensures
        forwarded(steps) == forwarded(steps.take(k)),
    decreases k,
{
    if k > 0 {
        lemma_cancel_stops_forwarding(steps.drop_first(), k - 1);
        assert(steps.take(k).drop_first() =~= steps.drop_first().take(k - 1));
        assert(steps.take(k)[0] == steps[0]);
    } else {
        assert(steps.take(0) =~= Seq::<(bool, ReadOutcome)>::empty());
    }
}

/// The pieces of `s` between whitespace characters, empty pieces included.
pub open spec fn split_spaces(s: Seq<char>) -> Seq<Seq<char>>
    decreases s.len(),
{
    if s.len() == 0 {
        seq![Seq::<char>::empty()]
    } else {
        let prev = split_spaces(s.drop_last());
        if is_space(s.last()) {
            prev.push(Seq::<char>::empty())
        } else {
            prev.update(prev.len() - 1, prev.last().push(s.last()))
        }
    }
}

/// The outcome of a read from one of two merged streams (a command's
/// standard output and standard error), as the source's outcome: the end
/// or the failure of one stream while the other is still open is no end of
/// the source.
pub fn merged_outcome(outcome: ReadOutcome, other_open: bool) -> (r: ReadOutcome)
    ensures
        ((outcome is Closed || outcome is Failed) && other_open) ==> r is TimedOut,
        !((outcome is Closed || outcome is Failed) && other_open) ==> r == outcome,
{
    match outcome {
        ReadOutcome::Closed => if other_open {
            ReadOutcome::TimedOut
        } else {
            ReadOutcome::Closed
        },
        ReadOutcome::Failed => if other_open {
            ReadOutcome::TimedOut
        } else {
            ReadOutcome::Failed
        },
        other => other,
    }
}

/// The whitespace-separated words of `s`, as `str::split_whitespace` yields
/// them.
pub open spec fn words(s: Seq<char>) -> Seq<Seq<char>> {
    split_spaces(s).filter(|p: Seq<char>| p.len() > 0)
}

/// The whitespace-separated words of `s`.
pub fn split_words(s: &str) -> (r: Vec<String>)
    ensures
        views(r@) == words(s@),
{
    let chars = chars_of(s);
    let n = chars.len();
    let mut out: Vec<String> = Vec::new();
    let mut cur: Vec<char> = Vec::new();
    let ghost done: Seq<Seq<char>> = Seq::empty();
    let ghost keep = |p: Seq<char>| p.len() > 0;
    for i in 0..n
        invariant
            n == chars@.len(),
            chars@ == s@,
            keep == (|p: Seq<char>| p.len() > 0),
            split_spaces(chars@.take(i as int)) == done.push(cur@),
            views(out@) == done.filter(keep),
    {
        let c = chars[i];
        assert(chars@.take(i + 1).drop_last() =~= chars@.take(i as int));
        if is_space_char(c) {
            proof {
                done.lemma_filter_push(cur@, keep);
            }
            if cur.len() > 0 {
                let w = string_of(&cur);
                out.push(w);
            }
            proof {
                done = done.push(cur@);
            }
            assert(views(out@) =~= done.filter(keep));
            cur = Vec::new();
            assert(split_spaces(chars@.take(i + 1)) =~= done.push(cur@));
        } else {
            cur.push(c);
            assert(split_spaces(chars@.take(i + 1)) =~= done.push(cur@));
        }
    }
    proof {
        done.lemma_filter_push(cur@, keep);
    }
    if cur.len() > 0 {
        let w = string_of(&cur);
        out.push(w);
    }
    assert(chars@.take(n as int) =~= s@);
    assert(views(out@) =~= words(s@));
    out
}

/// Splits a command line into the program and its arguments at whitespace;
/// `None` when it holds no word.
pub fn parse_command(cmd: &str) -> (r: Option<(String, Vec<String>)>)
    ensures
        r is None <==> words(cmd@).len() == 0,
        r matches Some((program, args)) ==> program@ == words(cmd@)[0] && views(args@)
            == words(cmd@).drop_first(),
{
    let mut ws = split_words(cmd);
    if ws.len() == 0 {
        return None;
    }
    let ghost all = ws@;
    let program = ws.remove(0);
    assert(views(ws@) =~= views(all).drop_first());
    Some((program, ws))
}

} // verus!
