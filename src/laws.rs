use vstd::prelude::*;

use crate::reply::{ReadOutcome, ResponseView, Sink, end_notice, is_output, respond, terminal_route};
use crate::session::{SessionState, Status, abandon, initial, ready, replies, run, settle, step};

verus! {

/// The lines among `outs`, in order.
pub open spec fn line_texts(outs: Seq<ReadOutcome>) -> Seq<Seq<char>>
    decreases outs.len(),
{
    if outs.len() == 0 {
        Seq::empty()
    } else {
        let rest = line_texts(outs.drop_first());
        match outs[0] {
            ReadOutcome::Line(s) => seq![s@] + rest,
            _ => rest,
        }
    }
}

/// Whether an outcome leaves the loop running.
pub open spec fn keeps_reading(o: ReadOutcome) -> bool {
    o is Line || o is Interrupted
}

/// Everything written to the output stream, by either terminal route.
pub open spec fn output_text(rs: Seq<ResponseView>) -> Seq<char>
    decreases rs.len(),
{
    if rs.len() == 0 {
        Seq::empty()
    } else {
        (if is_output(rs[0].route) {
            rs[0].text
        } else {
            Seq::empty()
        }) + output_text(rs.drop_first())
    }
}

/// Everything written to the error stream.
pub open spec fn error_text(rs: Seq<ResponseView>) -> Seq<char>
    decreases rs.len(),
{
    if rs.len() == 0 {
        Seq::empty()
    } else {
        (if is_output(rs[0].route) {
            Seq::empty()
        } else {
            rs[0].text
        }) + error_text(rs.drop_first())
    }
}

/// Lines entered while the session runs are appended to the history in the
/// order entered, each once: after any run of lines and interrupts the
/// history has grown by exactly the lines, and the session still reads.
pub proof fn lemma_history_keeps_every_line(st: SessionState, outs: Seq<ReadOutcome>)
    requires
        ready(st),
        forall|i: int| 0 <= i < outs.len() ==> keeps_reading(#[trigger] outs[i]),
    ensures
        run(st, outs).history == st.history + line_texts(outs),
        run(st, outs).history.len() == st.history.len() + line_texts(outs).len(),
        ready(run(st, outs)),
    decreases outs.len(),
{
    if outs.len() == 0 {
        assert(st.history + line_texts(outs) =~= st.history);
    } else {
        let rest = outs.drop_first();
        assert forall|i: int| 0 <= i < rest.len() implies keeps_reading(#[trigger] rest[i]) by {
            assert(rest[i] == outs[i + 1]);
        }
        assert(keeps_reading(outs[0]));
        lemma_history_keeps_every_line(settle(step(st, outs[0])), rest);
        match outs[0] {
            ReadOutcome::Line(s) => {
                assert(st.history.push(s@) + line_texts(rest) =~= st.history + (seq![s@]
                    + line_texts(rest)));
            },
            _ => {},
        }
    }
}

/// A session that is not ready to read (it has stopped, or an echo is still
/// outstanding) reads nothing more and says nothing more.
pub proof fn lemma_stopped_session_reads_nothing(st: SessionState, outs: Seq<ReadOutcome>)
    requires
        !ready(st),
    ensures
        run(st, outs) == st,
        replies(st, outs) == Seq::<ResponseView>::empty(),
{
}

/// The end of input closes a running session cleanly with a single newline
/// on the output stream, the history untouched, and whatever would come after
/// it is never read.
pub proof fn lemma_end_of_input_closes(st: SessionState, outs: Seq<ReadOutcome>)
    requires
        ready(st),
        outs.len() > 0,
        outs[0] is EndOfInput,
    ensures
        run(st, outs) == (SessionState { status: Status::Finished, ..st }),
        replies(st, outs) == seq![respond(st.sink, ReadOutcome::EndOfInput)],
        output_text(replies(st, outs)) == end_notice(),
        error_text(replies(st, outs)) == Seq::<char>::empty(),
{
    let next = settle(step(st, outs[0]));
    lemma_stopped_session_reads_nothing(next, outs.drop_first());
    let rs = replies(st, outs);
    assert(rs =~= seq![respond(st.sink, ReadOutcome::EndOfInput)]);
    assert(rs.drop_first() =~= Seq::<ResponseView>::empty());
    assert(output_text(rs.drop_first()) == Seq::<char>::empty());
    assert(error_text(rs.drop_first()) == Seq::<char>::empty());
    assert(is_output(rs[0].route));
    assert(output_text(rs) =~= end_notice());
    assert(error_text(rs) =~= Seq::<char>::empty());
}

/// Which way output reaches the terminal cannot be observed: two sessions
/// that differ only in their sink, fed the same outcomes, end with the same
/// history and status and write the same text to each stream.
pub proof fn lemma_sink_is_unobservable(a: SessionState, b: SessionState, outs: Seq<ReadOutcome>)
    requires
        a.history == b.history,
        a.pending == b.pending,
        a.status == b.status,
    ensures
        run(a, outs).history == run(b, outs).history,
        run(a, outs).status == run(b, outs).status,
        output_text(replies(a, outs)) == output_text(replies(b, outs)),
        error_text(replies(a, outs)) == error_text(replies(b, outs)),
    decreases outs.len(),
{
    if outs.len() == 0 || !ready(a) {
    } else {
        let o = outs[0];
        let rest = outs.drop_first();
        lemma_sink_is_unobservable(settle(step(a, o)), settle(step(b, o)), rest);
        let ra = replies(a, outs);
        let rb = replies(b, outs);
        assert(ra.drop_first() =~= replies(settle(step(a, o)), rest));
        assert(rb.drop_first() =~= replies(settle(step(b, o)), rest));
        assert(is_output(terminal_route(a.sink)) && is_output(terminal_route(b.sink)));
        assert(ra[0].text == rb[0].text);
        assert(is_output(ra[0].route) == is_output(rb[0].route));
    }
}

/// A line is shown before it is kept: once its echo is delivered it is the
/// newest entry of the history, and if the echo cannot be delivered the
/// session fails with the history as it was before the line was read.
pub proof fn lemma_line_kept_only_when_shown(st: SessionState, line: String)
    requires
        ready(st),
    ensures
        settle(step(st, ReadOutcome::Line(line))).history == st.history.push(line@),
        abandon(step(st, ReadOutcome::Line(line))).history == st.history,
        abandon(step(st, ReadOutcome::Line(line))).status == Status::Failed,
{
}

/// A fresh session shows the same thing and keeps the same history whichever
/// way its output reaches the terminal.
pub proof fn lemma_fresh_sessions_agree(outs: Seq<ReadOutcome>)
    ensures
        run(initial(Sink::Direct), outs).history == run(initial(Sink::Channel), outs).history,
        run(initial(Sink::Direct), outs).status == run(initial(Sink::Channel), outs).status,
        output_text(replies(initial(Sink::Direct), outs)) == output_text(
            replies(initial(Sink::Channel), outs),
        ),
        error_text(replies(initial(Sink::Direct), outs)) == error_text(
            replies(initial(Sink::Channel), outs),
        ),
{
    lemma_sink_is_unobservable(initial(Sink::Direct), initial(Sink::Channel), outs);
}

} // verus!
