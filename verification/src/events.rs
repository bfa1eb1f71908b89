//! The event model of streamed subprocess output.
//!
//! One streaming invocation produces a transcript: any number of line
//! events from the two output streams, at most one free-text error
//! notice, and exactly one terminal completion event after everything
//! else. Two concurrent readers feed the transcript; their interleaving
//! across streams is unspecified, but within one stream the child's line
//! order is preserved, and the completion event is appended only after
//! both readers have drained.

use vstd::prelude::*;

verus! {

/// Which output stream a line came from.
#[derive(Clone, Copy, PartialEq, Eq, Structural, Debug)]
pub enum StreamTag {
    Stdout,
    Stderr,
}

/// One line of subprocess output, terminator stripped.
#[derive(Debug, PartialEq)]
pub struct StreamEvent {
    pub tag: StreamTag,
    pub line: String,
}

/// The single terminal signal of an invocation.
#[derive(Debug, PartialEq)]
pub struct CompletionEvent {
    pub success: bool,
    pub exit_code: Option<i32>,
}

/// A progress tick of a long-running capability: a symbolic phase label
/// and how many of its units are done.
#[derive(Debug, PartialEq)]
pub struct ProgressEvent {
    pub phase: String,
    pub done: usize,
    pub total: usize,
}

/// Everything an invocation can deliver to its sink, in delivery order.
#[derive(Debug, PartialEq)]
pub enum RunEvent {
    /// A line from one of the output streams.
    Output(StreamEvent),
    /// The at-most-once free-text error notice.
    ErrorNotice(String),
    /// The terminal completion signal.
    Finished(CompletionEvent),
}

/// `e` is a line event of stream `tag`.
pub open spec fn is_output(e: RunEvent, tag: StreamTag) -> bool {
    e matches RunEvent::Output(se) && se.tag == tag
}

/// The line carried by a line event.
pub open spec fn output_line(e: RunEvent) -> Seq<char> {
    match e {
        RunEvent::Output(se) => se.line@,
        _ => Seq::<char>::empty(),
    }
}

/// The lines of stream `tag` in a transcript, in delivery order.
pub open spec fn lines_of(events: Seq<RunEvent>, tag: StreamTag) -> Seq<Seq<char>>
    decreases events.len(),
{
    if events.len() == 0 {
        Seq::<Seq<char>>::empty()
    } else {
        let rest = lines_of(events.drop_last(), tag);
        if is_output(events.last(), tag) {
            rest.push(output_line(events.last()))
        } else {
            rest
        }
    }
}

/// The positions of the line events of stream `tag`, in delivery order.
pub open spec fn tag_positions(events: Seq<RunEvent>, tag: StreamTag) -> Seq<int>
    decreases events.len(),
{
    if events.len() == 0 {
        Seq::<int>::empty()
    } else {
        let rest = tag_positions(events.drop_last(), tag);
        if is_output(events.last(), tag) {
            rest.push(events.len() - 1)
        } else {
            rest
        }
    }
}

/// How many completion events a transcript holds.
pub open spec fn completion_count(events: Seq<RunEvent>) -> nat
    decreases events.len(),
{
    if events.len() == 0 {
        0
    } else {
        completion_count(events.drop_last()) + (if events.last() is Finished {
            1nat
        } else {
            0nat
        })
    }
}

/// How many error notices a transcript holds.
pub open spec fn error_count(events: Seq<RunEvent>) -> nat
    decreases events.len(),
{
    if events.len() == 0 {
        0
    } else {
        error_count(events.drop_last()) + (if events.last() is ErrorNotice {
            1nat
        } else {
            0nat
        })
    }
}

/// How appending one event changes the counts and per-stream lines.
proof fn lemma_push_event(s: Seq<RunEvent>, e: RunEvent)
    ensures
        completion_count(s.push(e)) == completion_count(s) + (if e is Finished {
            1nat
        } else {
            0nat
        }),
        error_count(s.push(e)) == error_count(s) + (if e is ErrorNotice {
            1nat
        } else {
            0nat
        }),
        forall|t: StreamTag|
            #[trigger] lines_of(s.push(e), t) == (if is_output(e, t) {
                lines_of(s, t).push(output_line(e))
            } else {
                lines_of(s, t)
            }),
{
    assert(s.push(e).drop_last() =~= s);
    assert(s.push(e).last() == e);
}

/// A transcript with no completion event has completion count zero.
proof fn lemma_no_completion_count(s: Seq<RunEvent>)
    requires
        forall|i: int| 0 <= i < s.len() ==> !(s[i] is Finished),
    ensures
        completion_count(s) == 0,
    decreases s.len(),
{
    if s.len() > 0 {
        lemma_no_completion_count(s.drop_last());
    }
}

/// The transcript of one streaming invocation, as the sink receives it.
pub struct Transcript {
    events: Vec<RunEvent>,
    done: bool,
    errored: bool,
}

impl View for Transcript {
    type V = Seq<RunEvent>;

    closed spec fn view(&self) -> Seq<RunEvent> {
        self.events@
    }
}

impl Transcript {
    /// The terminal completion event has been delivered.
    pub closed spec fn is_done(&self) -> bool {
        self.done
    }

    /// The error notice has been delivered.
    pub closed spec fn has_error(&self) -> bool {
        self.errored
    }

    /// The delivery discipline: a completion event can only stand last,
    /// and only once the transcript is finished; the error notice occurs
    /// exactly as often as it was recorded, at most once.
    pub open spec fn wf(&self) -> bool {
        &&& (forall|i: int|
            0 <= i < self@.len() && #[trigger] self@[i] is Finished ==> self.is_done() && i
                == self@.len() - 1)
        &&& (self.is_done() ==> self@.len() > 0 && self@.last() is Finished)
        &&& error_count(self@) == (if self.has_error() {
            1nat
        } else {
            0nat
        })
    }

    /// An empty transcript for a fresh invocation.
    pub fn new() -> (t: Transcript)
        ensures
            t.wf(),
            t@ == Seq::<RunEvent>::empty(),
            !t.is_done(),
            !t.has_error(),
    {
        Transcript { events: Vec::new(), done: false, errored: false }
    }

    /// Delivers one line of stream `tag`. Refused after completion: no
    /// line is ever emitted after the terminal event.
    pub fn emit_line(&mut self, tag: StreamTag, line: String)
        requires
            old(self).wf(),
            !old(self).is_done(),
        ensures
            final(self).wf(),
            !final(self).is_done(),
            final(self).has_error() == old(self).has_error(),
            final(self)@ == old(self)@.push(RunEvent::Output((StreamEvent { tag, line }))),
    {
        proof {
            lemma_push_event(self@, RunEvent::Output(StreamEvent { tag, line }));
        }
        self.events.push(RunEvent::Output(StreamEvent { tag, line }));
    }

    /// Delivers the free-text error notice, at most once per invocation,
    /// and only before the terminal event.
    pub fn emit_error(&mut self, message: String)
        requires
            old(self).wf(),
            !old(self).is_done(),
            !old(self).has_error(),
        ensures
            final(self).wf(),
            !final(self).is_done(),
            final(self).has_error(),
            final(self)@ == old(self)@.push(RunEvent::ErrorNotice(message)),
    {
        proof {
            lemma_push_event(self@, RunEvent::ErrorNotice(message));
        }
        self.events.push(RunEvent::ErrorNotice(message));
        self.errored = true;
    }

    /// Delivers the terminal completion event, exactly once, after all
    /// other events of the invocation.
    pub fn finish(&mut self, success: bool, exit_code: Option<i32>)
        requires
            old(self).wf(),
            !old(self).is_done(),
        ensures
            final(self).wf(),
            final(self).is_done(),
            final(self).has_error() == old(self).has_error(),
            final(self)@ == old(self)@.push(
                RunEvent::Finished((CompletionEvent { success, exit_code })),
            ),
    {
        proof {
            lemma_push_event(self@, RunEvent::Finished(CompletionEvent { success, exit_code }));
        }
        self.events.push(RunEvent::Finished(CompletionEvent { success, exit_code }));
        self.done = true;
    }

    /// Hands the delivered events over, in delivery order.
    pub fn into_events(self) -> (v: Vec<RunEvent>)
        ensures
            v@ == self@,
    {
        self.events
    }
}

/// Law: a finished transcript holds exactly one completion event, and it
/// stands after every other event of the invocation.
pub proof fn lemma_single_completion(t: Transcript)
    requires
        t.wf(),
        t.is_done(),
    ensures
        completion_count(t@) == 1,
        t@.last() is Finished,
        forall|i: int| 0 <= i < t@.len() - 1 ==> !(#[trigger] t@[i] is Finished),
{
    assert(t@.drop_last() =~= t@.take(t@.len() - 1));
    lemma_no_completion_count(t@.drop_last());
}

/// Law: an unfinished transcript holds no completion event.
pub proof fn lemma_no_completion_before_finish(t: Transcript)
    requires
        t.wf(),
        !t.is_done(),
    ensures
        completion_count(t@) == 0,
{
    lemma_no_completion_count(t@);
}

/// Law: the error notice is delivered at most once, and never after the
/// terminal event.
pub proof fn lemma_error_at_most_once(t: Transcript)
    requires
        t.wf(),
    ensures
        error_count(t@) <= 1,
        t.is_done() ==> !(t@.last() is ErrorNotice),
{
}

/// Law: within one stream the child's line order is preserved. The k-th
/// line event of a stream stands at an earlier delivery position than
/// the (k+1)-th, and carries the k-th line of that stream.
pub proof fn lemma_per_stream_order(events: Seq<RunEvent>, tag: StreamTag)
    ensures
        tag_positions(events, tag).len() == lines_of(events, tag).len(),
        forall|a: int, b: int|
            0 <= a < b < tag_positions(events, tag).len() ==> #[trigger] tag_positions(
                events,
                tag,
            )[a] < #[trigger] tag_positions(events, tag)[b],
        forall|k: int|
            0 <= k < tag_positions(events, tag).len() ==> {
                let p = #[trigger] tag_positions(events, tag)[k];
                &&& 0 <= p < events.len()
                &&& is_output(events[p], tag)
                &&& output_line(events[p]) == lines_of(events, tag)[k]
            },
    decreases events.len(),
{
    if events.len() > 0 {
        lemma_per_stream_order(events.drop_last(), tag);
    }
}

/// Builds the transcript of one run from the lines each reader drained,
/// an arbitrary cross-stream interleaving, and the exit status.
///
/// For every interleaving the per-stream line order is preserved, and
/// the single completion event comes after both streams are drained.
pub fn assemble_run(
    stdout_lines: Vec<String>,
    stderr_lines: Vec<String>,
    schedule: &Vec<bool>,
    success: bool,
    exit_code: Option<i32>,
) -> (t: Transcript)
    ensures
        t.wf(),
        t.is_done(),
        !t.has_error(),
        lines_of(t@, StreamTag::Stdout) == stdout_lines.deep_view(),
        lines_of(t@, StreamTag::Stderr) == stderr_lines.deep_view(),
        t@.len() == stdout_lines@.len() + stderr_lines@.len() + 1,
{
    let ghost so = stdout_lines.deep_view();
    let ghost se = stderr_lines.deep_view();
    let n1 = stdout_lines.len();
    let n2 = stderr_lines.len();
    let mut t = Transcript::new();
    let mut i: usize = 0;
    let mut j: usize = 0;
    let mut k: usize = 0;
    assert(lines_of(t@, StreamTag::Stdout) =~= so.take(0));
    assert(lines_of(t@, StreamTag::Stderr) =~= se.take(0));
    while i < n1 || j < n2
        invariant
            i <= n1 == stdout_lines.len(),
            j <= n2 == stderr_lines.len(),
            so == stdout_lines.deep_view(),
            se == stderr_lines.deep_view(),
            t.wf(),
            !t.is_done(),
            !t.has_error(),
            lines_of(t@, StreamTag::Stdout) == so.take(i as int),
            lines_of(t@, StreamTag::Stderr) == se.take(j as int),
            t@.len() == i + j,
        decreases (n1 - i) + (n2 - j),
    {
        let take_stdout = if i >= n1 {
            false
        } else if j >= n2 {
            true
        } else if k < schedule.len() {
            schedule[k]
        } else {
            true
        };
        if take_stdout {
            let line = stdout_lines[i].clone();
            let ghost ev = RunEvent::Output(StreamEvent { tag: StreamTag::Stdout, line: line });
            let ghost pre = t@;
            t.emit_line(StreamTag::Stdout, line);
            proof {
                lemma_push_event(pre, ev);
                assert(so.take(i + 1) =~= so.take(i as int).push(so[i as int]));
            }
            i = i + 1;
        } else {
            let line = stderr_lines[j].clone();
            let ghost ev = RunEvent::Output(StreamEvent { tag: StreamTag::Stderr, line: line });
            let ghost pre = t@;
            t.emit_line(StreamTag::Stderr, line);
            proof {
                lemma_push_event(pre, ev);
                assert(se.take(j + 1) =~= se.take(j as int).push(se[j as int]));
            }
            j = j + 1;
        }
        if k < usize::MAX {
            k = k + 1;
        }
    }
    let ghost pre = t@;
    t.finish(success, exit_code);
    proof {
        lemma_push_event(pre, RunEvent::Finished(CompletionEvent { success, exit_code }));
        assert(so.take(n1 as int) =~= so);
        assert(se.take(n2 as int) =~= se);
    }
    t
}

} // verus!
