use vstd::prelude::*;

use crate::reply::{ReadOutcome, Response, ResponseView, Sink, error_report, error_response, respond, response_to};

verus! {

/// Where a session stands.
#[derive(Debug, Clone, Copy, PartialEq, Eq, Structural)]
pub enum Status {
    /// Waiting for the next read.
    Running,
    /// The input ended; the session closed cleanly.
    Finished,
    /// Reading or writing failed; the session closed with an error.
    Failed,
}

/// The mathematical value of a [`Session`].
pub struct SessionState {
    /// Every line entered and shown so far, oldest first.
    pub history: Seq<Seq<char>>,
    /// A line that was read and whose echo has not yet been delivered.
    pub pending: Option<Seq<char>>,
    pub sink: Sink,
    pub status: Status,
}

/// The state of one interactive session: the lines entered so far, the line
/// whose echo is on its way, the way output reaches the terminal, and whether
/// the loop goes on.
pub struct Session {
    history: Vec<String>,
    pending: Option<String>,
    sink: Sink,
    status: Status,
}

/// The texts of a vector of strings.
pub open spec fn texts(v: Seq<String>) -> Seq<Seq<char>> {
    v.map_values(|s: String| s@)
}

impl View for Session {
    type V = SessionState;

    closed spec fn view(&self) -> SessionState {
        SessionState {
            history: texts(self.history@),
            pending: match self.pending {
                Some(s) => Some(s@),
                None => None,
            },
            sink: self.sink,
            status: self.status,
        }
    }
}

/// A fresh session that shows its output through `sink`.
pub open spec fn initial(sink: Sink) -> SessionState {
    SessionState { history: Seq::empty(), pending: None, sink, status: Status::Running }
}

/// Whether the loop reads next: the session runs and no echo is outstanding.
pub open spec fn ready(st: SessionState) -> bool {
    st.status == Status::Running && st.pending is None
}

/// The state that handling `outcome` leads to: a line waits for its echo to
/// be delivered, an interrupt changes nothing, the end of input finishes the
/// session and a read error fails it.
pub open spec fn step(st: SessionState, outcome: ReadOutcome) -> SessionState {
    match outcome {
        ReadOutcome::Line(s) => SessionState { pending: Some(s@), ..st },
        ReadOutcome::Interrupted => st,
        ReadOutcome::EndOfInput => SessionState { status: Status::Finished, ..st },
        ReadOutcome::Error(_) => SessionState { status: Status::Failed, ..st },
    }
}

/// The state once the response has been delivered: a pending line joins the
/// history.
pub open spec fn settle(st: SessionState) -> SessionState {
    match st.pending {
        Some(line) => SessionState { history: st.history.push(line), pending: None, ..st },
        None => st,
    }
}

/// The state after a response could not be delivered: the session fails and
/// a pending line is dropped.
pub open spec fn abandon(st: SessionState) -> SessionState {
    SessionState { pending: None, status: Status::Failed, ..st }
}

/// The state after feeding `outs` to the loop in order, each response being
/// delivered; once the session has stopped, nothing more is read.
pub open spec fn run(st: SessionState, outs: Seq<ReadOutcome>) -> SessionState
    decreases outs.len(),
{
    if outs.len() == 0 || !ready(st) {
        st
    } else {
        run(settle(step(st, outs[0])), outs.drop_first())
    }
}

/// The responses given while feeding `outs` to the loop in order.
pub open spec fn replies(st: SessionState, outs: Seq<ReadOutcome>) -> Seq<ResponseView>
    decreases outs.len(),
{
    if outs.len() == 0 || !ready(st) {
        Seq::empty()
    } else {
        seq![respond(st.sink, outs[0])] + replies(settle(step(st, outs[0])), outs.drop_first())
    }
}

/// The views of a sequence of responses.
pub open spec fn views(rs: Seq<Response>) -> Seq<ResponseView> {
    rs.map_values(|r: Response| r@)
}

impl Session {
    /// Starts a session that shows its output through `sink`.
    pub fn new(sink: Sink) -> (s: Session)
        ensures
            s@ == initial(sink),
    {
        let s = Session { history: Vec::new(), pending: None, sink, status: Status::Running };
        assert(s@.history =~= Seq::<Seq<char>>::empty());
        s
    }

    /// The way output reaches the terminal.
    pub fn sink(&self) -> (r: Sink)
        ensures
            r == self@.sink,
    {
        self.sink
    }

    /// Where the session stands.
    pub fn status(&self) -> (r: Status)
        ensures
            r == self@.status,
    {
        self.status
    }

    /// Whether the session still runs.
    pub fn is_running(&self) -> (r: bool)
        ensures
            r == (self@.status == Status::Running),
    {
        self.status == Status::Running
    }

    /// Whether the loop should read again: the session runs and the last
    /// response has been settled.
    pub fn is_ready(&self) -> (r: bool)
        ensures
            r == ready(self@),
    {
        self.status == Status::Running && self.pending.is_none()
    }

    /// The lines entered and shown so far, oldest first.
    pub fn history(&self) -> (r: &Vec<String>)
        ensures
            texts(r@) == self@.history,
    {
        &self.history
    }

    /// Handles one read outcome: updates the session as [`step`] says and
    /// returns what to show. A line joins the history only once its echo has
    /// been delivered (see [`Session::delivered`]).
    pub fn handle(&mut self, outcome: &ReadOutcome) -> (r: Response)
        requires
            ready(old(self)@),
        ensures
            final(self)@ == step(old(self)@, *outcome),
            r@ == respond(old(self)@.sink, *outcome),
    {
        let r = response_to(self.sink, outcome);
        match outcome {
            ReadOutcome::Line(s) => {
                self.pending = Some(s.clone());
            },
            ReadOutcome::Interrupted => {},
            ReadOutcome::EndOfInput => {
                self.status = Status::Finished;
            },
            ReadOutcome::Error(_) => {
                self.status = Status::Failed;
            },
        }
        r
    }

    /// Records that the last response was delivered: a pending line is
    /// appended to the history.
    pub fn delivered(&mut self)
        ensures
            final(self)@ == settle(old(self)@),
    {
        let ghost before = self.history@;
        match self.pending.take() {
            Some(line) => {
                let ghost l = line@;
                self.history.push(line);
                assert(texts(self.history@) =~= texts(before).push(l));
            },
            None => {},
        }
    }

    /// Ends the session with an error after output could not be delivered,
    /// drops a line whose echo was lost, and returns the report of it for the
    /// error stream.
    pub fn abort(&mut self, description: &str) -> (r: Response)
        ensures
            final(self)@ == abandon(old(self)@),
            r@ == error_response(description@),
    {
        self.status = Status::Failed;
        self.pending = None;
        error_report(description)
    }

    /// Feeds `outcomes` to the loop in order, each response being delivered,
    /// until they run out or the session stops, and returns the responses
    /// given.
    pub fn replay(&mut self, outcomes: &Vec<ReadOutcome>) -> (r: Vec<Response>)
        ensures
            final(self)@ == run(old(self)@, outcomes@),
            views(r@) == replies(old(self)@, outcomes@),
    {
        let ghost start = self@;
        let mut out: Vec<Response> = Vec::new();
        let mut i: usize = 0;
        assert(outcomes@.skip(0) =~= outcomes@);
        assert(views(out@) + replies(self@, outcomes@) =~= replies(self@, outcomes@));
        while i < outcomes.len() && self.is_ready()
            invariant
                i <= outcomes.len(),
                run(start, outcomes@) == run(self@, outcomes@.skip(i as int)),
                replies(start, outcomes@) == views(out@) + replies(self@, outcomes@.skip(i as int)),
            decreases outcomes.len() - i,
        {
            let ghost rest = outcomes@.skip(i as int);
            assert(rest.drop_first() =~= outcomes@.skip(i + 1));
            let ghost before = out@;
            let r = self.handle(&outcomes[i]);
            self.delivered();
            out.push(r);
            assert(views(out@) =~= views(before) + seq![r@]);
            i = i + 1;
        }
        assert(views(out@) + Seq::<ResponseView>::empty() =~= views(out@));
        out
    }
}

} // verus!
