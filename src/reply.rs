use vstd::prelude::*;
use vstd::string::*;

verus! {

/// What one read of the terminal gave.
#[derive(Debug)]
pub enum ReadOutcome {
    /// A line of text, without its newline.
    Line(String),
    /// The interrupt key was pressed.
    Interrupted,
    /// The input ended.
    EndOfInput,
    /// Reading failed; the text describes why.
    Error(String),
}

/// How the session shows text on the terminal, chosen once when it starts.
#[derive(Debug, Clone, Copy, PartialEq, Eq, Structural)]
pub enum Sink {
    /// Written straight to standard output.
    Direct,
    /// Sent to a printer that writes it without disturbing the line being edited.
    Channel,
}

/// Where a piece of text is to be written.
#[derive(Debug, Clone, Copy, PartialEq, Eq, Structural)]
pub enum Route {
    /// Standard output, written directly.
    Stdout,
    /// Standard output, through the background printer.
    Printer,
    /// Standard error.
    Stderr,
}

/// Text to write, and a line to offer to the editor's recall list, if any.
#[derive(Debug)]
pub struct Response {
    pub route: Route,
    pub text: String,
    pub recall: Option<String>,
}

/// The mathematical value of a [`Response`].
pub struct ResponseView {
    pub route: Route,
    pub text: Seq<char>,
    pub recall: Option<Seq<char>>,
}

impl View for Response {
    type V = ResponseView;

    open spec fn view(&self) -> ResponseView {
        ResponseView {
            route: self.route,
            text: self.text@,
            recall: match self.recall {
                Some(s) => Some(s@),
                None => None,
            },
        }
    }
}

/// The prompt shown before each read.
pub open spec fn prompt_text() -> Seq<char> {
    seq!['a', 'i', 'o', 'm', 'e', '>', ' ']
}

/// Shown when the interrupt key is pressed.
pub open spec fn interrupt_notice() -> Seq<char> {
    seq!['^', 'C', '\n']
}

/// Shown when the input ends.
pub open spec fn end_notice() -> Seq<char> {
    seq!['\n']
}

/// Put before the description of an error.
pub open spec fn error_prefix() -> Seq<char> {
    seq!['e', 'r', 'r', 'o', 'r', ':', ' ']
}

/// A line as it is echoed: the line and a newline.
pub open spec fn echo_of(line: Seq<char>) -> Seq<char> {
    line + seq!['\n']
}

/// An error as it is reported: the prefix, the description and a newline.
pub open spec fn report_of(description: Seq<char>) -> Seq<char> {
    error_prefix() + description + seq!['\n']
}

/// The response that reports an error with this description.
pub open spec fn error_response(description: Seq<char>) -> ResponseView {
    ResponseView { route: Route::Stderr, text: report_of(description), recall: None }
}

/// The route that terminal output takes under `sink`.
pub open spec fn terminal_route(sink: Sink) -> Route {
    match sink {
        Sink::Direct => Route::Stdout,
        Sink::Channel => Route::Printer,
    }
}

/// Whether text on this route reaches the output stream (both routes but the
/// error stream do).
pub open spec fn is_output(route: Route) -> bool {
    route != Route::Stderr
}

/// The response to `outcome` under `sink`.
pub open spec fn respond(sink: Sink, outcome: ReadOutcome) -> ResponseView {
    match outcome {
        ReadOutcome::Line(s) => ResponseView {
            route: terminal_route(sink),
            text: echo_of(s@),
            recall: Some(s@),
        },
        ReadOutcome::Interrupted => ResponseView {
            route: terminal_route(sink),
            text: interrupt_notice(),
            recall: None,
        },
        ReadOutcome::EndOfInput => ResponseView {
            route: terminal_route(sink),
            text: end_notice(),
            recall: None,
        },
        ReadOutcome::Error(d) => error_response(d@),
    }
}

/// The prompt shown before each read.
pub fn prompt() -> (r: &'static str)
    ensures
        r@ == prompt_text(),
{
    proof {
        reveal_strlit("aiome> ");
    }
    let r = "aiome> ";
    assert(r@ =~= prompt_text());
    r
}

/// The route that terminal output takes under `sink`.
pub fn route_for(sink: Sink) -> (r: Route)
    ensures
        r == terminal_route(sink),
{
    match sink {
        Sink::Direct => Route::Stdout,
        Sink::Channel => Route::Printer,
    }
}

/// The report of an error with this description.
pub fn error_report(description: &str) -> (r: Response)
    ensures
        r@ == error_response(description@),
{
    proof {
        reveal_strlit("error: ");
        reveal_strlit("\n");
    }
    let mut text = String::from_str("error: ");
    text.append(description);
    text.append("\n");
    assert(text@ =~= report_of(description@));
    Response { route: Route::Stderr, text, recall: None }
}

/// The response to `outcome` under `sink`.
pub fn response_to(sink: Sink, outcome: &ReadOutcome) -> (r: Response)
    ensures
        r@ == respond(sink, *outcome),
{
    proof {
        reveal_strlit("\n");
        reveal_strlit("^C\n");
    }
    match outcome {
        ReadOutcome::Line(s) => {
            let mut text = s.clone();
            text.append("\n");
            assert(text@ =~= echo_of(s@));
            Response { route: route_for(sink), text, recall: Some(s.clone()) }
        },
        ReadOutcome::Interrupted => {
            let text = String::from_str("^C\n");
            assert(text@ =~= interrupt_notice());
            Response { route: route_for(sink), text, recall: None }
        },
        ReadOutcome::EndOfInput => {
            let text = String::from_str("\n");
            assert(text@ =~= end_notice());
            Response { route: route_for(sink), text, recall: None }
        },
        ReadOutcome::Error(d) => error_report(d.as_str()),
    }
}

} // verus!
