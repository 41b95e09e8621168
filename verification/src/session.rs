//! A shell session: read a line, evaluate it, render the result, resolve any pause, repeat.
//!
//! [`Session`] decides; it does no input or output. It hands out one [`Request`] at a time, and the
//! [`Event`] that answers the request moves it on.
//!
//! An agent never blocks waiting on a human: a question is returned immediately as part of the
//! result, and the answer arrives on a separate invocation. So a turn lasts until a result comes
//! back that carries no question, whichever session raised the first one.
use vstd::prelude::*;

use crate::invocation::{columns_command, read_reply, Reply};
#[allow(unused_imports)]
use crate::invocation::{columns_command_text, reply_in, ReplyView};
use crate::prompt::{label_prefix, prompt_message, shell_prompt_label};
#[allow(unused_imports)]
use crate::prompt::{kebab_case, label_of_kebab, shown_label, shown_message};
use crate::question::{ask_human, take_answer, AnswerPrompt, UserInput};
#[allow(unused_imports)]
use crate::question::{answer_in, answer_prompt_for, question_line, AnswerPromptView, UserInputView};
use crate::render::render;
#[allow(unused_imports)]
use crate::render::rendered;
use crate::schema::SchemaValue;
use crate::surface::{ABORT_PROMPT, ANSWER_PROMPT, EVAL};
use crate::text::{first_word, same_text, trim};
#[allow(unused_imports)]
use crate::text::{first_word_of, trimmed};

verus! {

/// Typed in at the command prompt to leave the shell.
pub const EXIT: &'static str = "exit";

/// What is shown while an invocation runs.
#[derive(Debug, Clone, Copy, PartialEq, Eq, Structural)]
pub enum Progress {
    /// The loader: the first invocation pays for the cold start of the instance.
    Loader,
    /// The ticker, once the command takes long.
    Ticker { is_ask: bool },
    /// Nothing.
    Quiet,
}

/// What is really shown of `progress`: nothing is drawn where the output is piped or scripted and not
/// on a terminal.
pub fn shown_progress(progress: Progress, on_terminal: bool) -> (r: Progress)
    ensures
        r == (if on_terminal {
            progress
        } else {
            Progress::Quiet
        }),
{
    if on_terminal {
        progress
    } else {
        Progress::Quiet
    }
}

/// What a session is waiting for.
#[derive(Debug)]
pub enum Request {
    /// Invoke `method` and answer with [`Event::Invoked`].
    Invoke { method: &'static str, argument: Option<String>, progress: Progress },
    /// Read a command line under `message` and answer with [`Event::Input`].
    ReadLine { message: String },
    /// Measure the terminal and answer with [`Event::Width`].
    MeasureWidth,
    /// Ask the human and answer with [`Event::Input`].
    Ask { prompt: AnswerPrompt },
    /// The session is over.
    Leave,
    /// The session is over, for this error.
    Fail { reason: String },
}

/// What a [`Request`] holds.
pub enum RequestView {
    Invoke { method: Seq<char>, argument: Option<Seq<char>>, progress: Progress },
    ReadLine { message: Seq<char> },
    MeasureWidth,
    Ask { prompt: AnswerPromptView },
    Leave,
    Fail { reason: Seq<char> },
}

impl View for Request {
    type V = RequestView;

    open spec fn view(&self) -> RequestView {
        match self {
            Request::Invoke { method, argument, progress } => RequestView::Invoke {
                method: method@,
                argument: argument.deep_view(),
                progress: *progress,
            },
            Request::ReadLine { message } => RequestView::ReadLine { message: message@ },
            Request::MeasureWidth => RequestView::MeasureWidth,
            Request::Ask { prompt } => RequestView::Ask { prompt: prompt@ },
            Request::Leave => RequestView::Leave,
            Request::Fail { reason } => RequestView::Fail { reason: reason@ },
        }
    }
}

/// Something to print before the next request is served.
#[derive(Debug)]
pub enum Output {
    /// That the shell connects, and to what.
    Connecting(String),
    /// The output of a command, line feeds and all.
    Preformatted(String),
    /// A line.
    Line(String),
    /// An error.
    Error(String),
}

/// What an [`Output`] holds.
pub enum OutputView {
    Connecting(Seq<char>),
    Preformatted(Seq<char>),
    Line(Seq<char>),
    Error(Seq<char>),
}

impl View for Output {
    type V = OutputView;

    open spec fn view(&self) -> OutputView {
        match self {
            Output::Connecting(text) => OutputView::Connecting(text@),
            Output::Preformatted(text) => OutputView::Preformatted(text@),
            Output::Line(text) => OutputView::Line(text@),
            Output::Error(text) => OutputView::Error(text@),
        }
    }
}

/// What `outputs` hold.
pub open spec fn outputs_view(outputs: Seq<Output>) -> Seq<OutputView> {
    Seq::new(outputs.len(), |i: int| outputs[i]@)
}

/// What a session does next: print `outputs`, then serve `request`.
#[derive(Debug)]
pub struct Step {
    pub outputs: Vec<Output>,
    pub request: Request,
}

/// What a [`Step`] holds.
pub struct StepView {
    pub outputs: Seq<OutputView>,
    pub request: RequestView,
}

impl View for Step {
    type V = StepView;

    open spec fn view(&self) -> StepView {
        StepView { outputs: outputs_view(self.outputs@), request: self.request@ }
    }
}

/// What came of a request.
#[derive(Debug)]
pub enum Event {
    /// The invocation came back with a reply, or failed for a reason.
    Invoked(Result<Reply, String>),
    /// The terminal is this wide.
    Width(u16),
    /// The human did this.
    Input(UserInput),
}

/// What an [`Event`] holds.
pub enum EventView {
    Invoked(Result<ReplyView, Seq<char>>),
    Width(u16),
    Input(UserInputView),
}

impl View for Event {
    type V = EventView;

    open spec fn view(&self) -> EventView {
        match self {
            Event::Invoked(Ok(reply)) => EventView::Invoked(Ok(reply@)),
            Event::Invoked(Err(reason)) => EventView::Invoked(Err(reason@)),
            Event::Width(columns) => EventView::Width(*columns),
            Event::Input(input) => EventView::Input(input@),
        }
    }
}

impl Event {
    /// The end of an invocation of `method` on `agent_type` that came back with `value`.
    pub fn returned(agent_type: &str, method: &str, value: &Option<SchemaValue>) -> (r: Event)
        ensures
            r@ == EventView::Invoked(
                match reply_in(agent_type@, method@, *value) {
                    Ok(reply) => Ok(reply),
                    Err(error) => Err(error.message()),
                },
            ),
    {
        match read_reply(agent_type, method, value) {
            Ok(reply) => Event::Invoked(Ok(reply)),
            Err(error) => Event::Invoked(Err(error.to_string())),
        }
    }
}

/// Where in a turn a session is.
#[derive(Debug)]
enum Phase {
    Seeding,
    Reading,
    Measuring { line: String },
    Resizing { line: String },
    Evaluating,
    Asking,
    Answering,
    Closed,
}

/// Where in a turn a session is.
pub enum PhaseView {
    /// The first invocation is out: it tells the width and seeds the working directory.
    Seeding,
    /// A command line is being read.
    Reading,
    /// The terminal is being measured before `line` is evaluated.
    Measuring { line: Seq<char> },
    /// The agent is being told the new width before `line` is evaluated.
    Resizing { line: Seq<char> },
    /// The command line is being evaluated.
    Evaluating,
    /// A question of the agent is before the human.
    Asking,
    /// What the human made of the question is being delivered.
    Answering,
    /// The session is over.
    Closed,
}

/// A shell session on an agent.
#[derive(Debug)]
pub struct Session {
    prefix: String,
    color: bool,
    last_ok: bool,
    last_columns: u16,
    cwd: Option<String>,
    phase: Phase,
}

/// What a [`Session`] holds.
pub struct SessionView {
    /// The leading segment of the prompt.
    pub prefix: Seq<char>,
    /// Whether the prompt is coloured.
    pub color: bool,
    /// Whether the last command succeeded.
    pub last_ok: bool,
    /// The width that the agent was last told.
    pub last_columns: u16,
    /// The working directory that the agent last reported.
    pub cwd: Option<Seq<char>>,
    pub phase: PhaseView,
}

impl View for Session {
    type V = SessionView;

    closed spec fn view(&self) -> SessionView {
        SessionView {
            prefix: self.prefix@,
            color: self.color,
            last_ok: self.last_ok,
            last_columns: self.last_columns,
            cwd: self.cwd.deep_view(),
            phase: match self.phase {
                Phase::Seeding => PhaseView::Seeding,
                Phase::Reading => PhaseView::Reading,
                Phase::Measuring { line } => PhaseView::Measuring { line: line@ },
                Phase::Resizing { line } => PhaseView::Resizing { line: line@ },
                Phase::Evaluating => PhaseView::Evaluating,
                Phase::Asking => PhaseView::Asking,
                Phase::Answering => PhaseView::Answering,
                Phase::Closed => PhaseView::Closed,
            },
        }
    }
}

/// The request to evaluate `line`.
pub open spec fn evaluation(line: Seq<char>) -> RequestView {
    RequestView::Invoke {
        method: EVAL@,
        argument: Some(line),
        progress: Progress::Ticker { is_ask: first_word_of(line) == "ask"@ },
    }
}

/// The request to tell the agent that the terminal is `columns` wide.
pub open spec fn width_notice(columns: u16, progress: Progress) -> RequestView {
    RequestView::Invoke {
        method: EVAL@,
        argument: Some(columns_command_text(columns)),
        progress,
    }
}

/// The request that delivers what the human made of a question.
pub open spec fn delivery(answer: Option<Seq<char>>) -> RequestView {
    match answer {
        Some(text) => RequestView::Invoke {
            method: ANSWER_PROMPT@,
            argument: Some(text),
            progress: Progress::Quiet,
        },
        None => RequestView::Invoke {
            method: ABORT_PROMPT@,
            argument: None,
            progress: Progress::Quiet,
        },
    }
}

impl SessionView {
    /// The session at its beginning, and its first step.
    pub open spec fn started(
        agent: Seq<char>,
        agent_type: Seq<char>,
        color: bool,
        columns: u16,
    ) -> (SessionView, StepView) {
        (
            SessionView {
                prefix: shown_label(label_of_kebab(kebab_case(agent_type)), color),
                color,
                last_ok: true,
                last_columns: columns,
                cwd: None,
                phase: PhaseView::Seeding,
            },
            StepView {
                outputs: seq![
                    OutputView::Connecting(
                        "to agent "@ + agent + " (Ctrl-D, Esc, or `exit` to leave)"@,
                    ),
                    OutputView::Line(""@),
                ],
                request: width_notice(columns, Progress::Loader),
            },
        )
    }

    /// Prints `outputs` and reads the next command line.
    pub open spec fn prompting(self, outputs: Seq<OutputView>) -> (SessionView, StepView) {
        (
            SessionView { phase: PhaseView::Reading, ..self },
            StepView {
                outputs,
                request: RequestView::ReadLine {
                    message: shown_message(self.cwd, self.last_ok, self.color),
                },
            },
        )
    }

    /// Moves to `phase` and serves `request`.
    pub open spec fn requesting(self, phase: PhaseView, request: RequestView) -> (
        SessionView,
        StepView,
    ) {
        (SessionView { phase, ..self }, StepView { outputs: Seq::empty(), request })
    }

    /// Ends a turn: a blank line after `outputs`, so that the next prompt does not sit flush
    /// against the result.
    pub open spec fn turn_over(self, ok: bool, outputs: Seq<OutputView>) -> (
        SessionView,
        StepView,
    ) {
        SessionView { last_ok: ok, ..self }.prompting(outputs.push(OutputView::Line(""@)))
    }

    /// The session with the working directory that `reply` reports, where it reports one.
    pub open spec fn in_directory_of(self, reply: ReplyView) -> SessionView {
        SessionView {
            cwd: if reply.cwd is Some {
                reply.cwd
            } else {
                self.cwd
            },
            ..self
        }
    }

    /// Renders a result, then asks its question or, without one, ends the turn.
    pub open spec fn resolving(self, reply: ReplyView) -> (SessionView, StepView) {
        let next = self.in_directory_of(reply);
        let output = rendered(reply.result);
        let outputs = if output.len() == 0 {
            Seq::empty()
        } else {
            seq![OutputView::Preformatted(output)]
        };
        match reply.result.pending_prompt {
            None => next.turn_over(reply.result.exit_code == 0, outputs),
            Some(prompt) => (
                SessionView { phase: PhaseView::Asking, ..next },
                StepView {
                    outputs: outputs.push(OutputView::Line(question_line(prompt))),
                    request: RequestView::Ask { prompt: answer_prompt_for(prompt) },
                },
            ),
        }
    }

    /// What a session does at the end of an invocation; nothing where none is out.
    pub open spec fn on_invoked(self, invoked: Result<ReplyView, Seq<char>>) -> Option<
        (SessionView, StepView),
    > {
        match (self.phase, invoked) {
            (PhaseView::Seeding, Ok(reply)) => Some(
                SessionView { cwd: reply.cwd, ..self }.prompting(Seq::empty()),
            ),
            (PhaseView::Seeding, Err(_)) => Some(
                SessionView { cwd: None, ..self }.prompting(Seq::empty()),
            ),
            (PhaseView::Resizing { line }, _) => Some(
                self.requesting(PhaseView::Evaluating, evaluation(line)),
            ),
            (PhaseView::Evaluating, Ok(reply)) => Some(self.resolving(reply)),
            (PhaseView::Evaluating, Err(reason)) => Some(
                SessionView { last_ok: false, ..self }.prompting(seq![OutputView::Error(reason)]),
            ),
            (PhaseView::Answering, Ok(reply)) => Some(self.resolving(reply)),
            (PhaseView::Answering, Err(reason)) => Some(
                self.turn_over(false, seq![OutputView::Error(reason)]),
            ),
            _ => None,
        }
    }

    /// What a session does once the terminal is measured; nothing where that was not asked.
    pub open spec fn on_width(self, columns: u16) -> Option<(SessionView, StepView)> {
        match self.phase {
            PhaseView::Measuring { line } => if columns == self.last_columns {
                Some(self.requesting(PhaseView::Evaluating, evaluation(line)))
            } else {
                Some(
                    SessionView { last_columns: columns, ..self }.requesting(
                        PhaseView::Resizing { line },
                        width_notice(columns, Progress::Quiet),
                    ),
                )
            },
            _ => None,
        }
    }

    /// What a session makes of what the human did at the command prompt. White space around a line
    /// does not matter to whether it is blank or leaves the shell; any other line is taken as typed.
    pub open spec fn on_line(self, input: UserInputView) -> (SessionView, StepView) {
        match input {
            UserInputView::Submitted(text) => if trimmed(text) == EXIT@ {
                self.requesting(PhaseView::Closed, RequestView::Leave)
            } else if trimmed(text).len() == 0 {
                self.prompting(Seq::empty())
            } else {
                self.requesting(
                    PhaseView::Measuring { line: text },
                    RequestView::MeasureWidth,
                )
            },
            UserInputView::Cancelled => self.requesting(PhaseView::Closed, RequestView::Leave),
            UserInputView::Interrupted => self.requesting(PhaseView::Closed, RequestView::Leave),
            UserInputView::Failed(reason) => self.requesting(
                PhaseView::Closed,
                RequestView::Fail { reason },
            ),
        }
    }

    /// What a session makes of what the human did at a question.
    pub open spec fn on_answer(self, input: UserInputView) -> (SessionView, StepView) {
        match answer_in(input) {
            Ok(answer) => self.requesting(PhaseView::Answering, delivery(answer)),
            Err(reason) => self.turn_over(false, seq![OutputView::Error(reason)]),
        }
    }

    /// What a session does on `event`; nothing where the event answers no request of it.
    pub open spec fn on(self, event: EventView) -> Option<(SessionView, StepView)> {
        match event {
            EventView::Invoked(invoked) => self.on_invoked(invoked),
            EventView::Width(columns) => self.on_width(columns),
            EventView::Input(input) => match self.phase {
                PhaseView::Reading => Some(self.on_line(input)),
                PhaseView::Asking => Some(self.on_answer(input)),
                _ => None,
            },
        }
    }
}

/// No output.
fn nothing() -> (r: Vec<Output>)
    ensures
        outputs_view(r@) == Seq::<OutputView>::empty(),
{
    let outputs: Vec<Output> = Vec::new();
    assert(outputs_view(outputs@) =~= Seq::empty());
    outputs
}

/// `output` alone.
fn only(output: Output) -> (r: Vec<Output>)
    ensures
        outputs_view(r@) == seq![output@],
{
    let mut outputs = nothing();
    push_output(&mut outputs, output);
    assert(outputs_view(outputs@) =~= seq![output@]);
    outputs
}

/// Adds `output` behind `outputs`.
fn push_output(outputs: &mut Vec<Output>, output: Output)
    ensures
        outputs_view(final(outputs)@) == outputs_view(old(outputs)@).push(output@),
{
    outputs.push(output);
    assert(outputs_view(outputs@) =~= outputs_view(old(outputs)@).push(output@));
}

impl Session {
    /// Starts a session on `agent`, an instance of the agent type called `agent_type`, in a
    /// terminal that is `columns` wide.
    ///
    /// The first request tells the agent the width. It also seeds the working directory, so that
    /// the first prompt shows it.
    pub fn start(agent: &str, agent_type: &str, color: bool, columns: u16) -> (r: (Session, Step))
        ensures
            (r.0@, r.1@) == SessionView::started(agent@, agent_type@, color, columns),
    {
        let label = shell_prompt_label(agent_type);
        let session = Session {
            prefix: label_prefix(label.as_str(), color),
            color,
            last_ok: true,
            last_columns: columns,
            cwd: None,
            phase: Phase::Seeding,
        };
        let mut connecting = "to agent ".to_owned();
        connecting.append(agent);
        connecting.append(" (Ctrl-D, Esc, or `exit` to leave)");
        let mut outputs: Vec<Output> = only(Output::Connecting(connecting));
        push_output(&mut outputs, Output::Line("".to_owned()));
        let request = Request::Invoke {
            method: EVAL,
            argument: Some(columns_command(columns)),
            progress: Progress::Loader,
        };
        assert(outputs_view(outputs@) =~= SessionView::started(
            agent@,
            agent_type@,
            color,
            columns,
        ).1.outputs);
        (session, Step { outputs, request })
    }

    /// The leading segment of the prompt.
    pub fn prefix(&self) -> (r: &str)
        ensures
            r@ == self@.prefix,
    {
        self.prefix.as_str()
    }

    /// Moves the session on. `None` where `event` does not answer the request that is out; the
    /// session is then as it was.
    pub fn step(&mut self, event: Event) -> (r: Option<Step>)
        ensures
            match old(self)@.on(event@) {
                Some((next, step)) => final(self)@ == next && r is Some && r->0@ == step,
                None => final(self)@ == old(self)@ && r is None,
            },
    {
        match event {
            Event::Invoked(invoked) => self.step_invoked(invoked),
            Event::Width(columns) => self.step_width(columns),
            Event::Input(input) => match &self.phase {
                Phase::Reading => Some(self.step_line(input)),
                Phase::Asking => Some(self.step_answer(input)),
                _ => None,
            },
        }
    }

    /// Moves on at the end of an invocation.
    fn step_invoked(&mut self, invoked: Result<Reply, String>) -> (r: Option<Step>)
        ensures
            match old(self)@.on(Event::Invoked(invoked)@) {
                Some((next, step)) => final(self)@ == next && r is Some && r->0@ == step,
                None => final(self)@ == old(self)@ && r is None,
            },
    {
        match &self.phase {
            Phase::Seeding => {
                self.cwd = match invoked {
                    Ok(reply) => reply.cwd,
                    Err(_) => None,
                };
                Some(self.prompt(nothing()))
            },
            Phase::Resizing { line } => {
                let line = line.clone();
                Some(self.evaluate(line))
            },
            Phase::Evaluating => match invoked {
                Ok(reply) => Some(self.render_and_resolve(reply)),
                Err(reason) => {
                    self.last_ok = false;
                    Some(self.prompt(only(Output::Error(reason))))
                },
            },
            Phase::Answering => match invoked {
                Ok(reply) => Some(self.render_and_resolve(reply)),
                Err(reason) => {
                    Some(self.end_turn(false, only(Output::Error(reason))))
                },
            },
            _ => None,
        }
    }

    /// Moves on once the terminal is measured: the agent is told the width when it has changed.
    fn step_width(&mut self, columns: u16) -> (r: Option<Step>)
        ensures
            match old(self)@.on_width(columns) {
                Some((next, step)) => final(self)@ == next && r is Some && r->0@ == step,
                None => final(self)@ == old(self)@ && r is None,
            },
    {
        match &self.phase {
            Phase::Measuring { line } => {
                let line = line.clone();
                if columns == self.last_columns {
                    Some(self.evaluate(line))
                } else {
                    self.last_columns = columns;
                    self.phase = Phase::Resizing { line };
                    let request = Request::Invoke {
                        method: EVAL,
                        argument: Some(columns_command(columns)),
                        progress: Progress::Quiet,
                    };
                    Some(Step::quiet(request))
                }
            },
            _ => None,
        }
    }

    /// Moves on from the command prompt.
    fn step_line(&mut self, input: UserInput) -> (r: Step)
        ensures
            (final(self)@, r@) == old(self)@.on_line(input@),
    {
        match input {
            UserInput::Submitted(text) => {
                let word = trim(text.as_str());
                if same_text(word, EXIT) {
                    self.phase = Phase::Closed;
                    Step::quiet(Request::Leave)
                } else if word.is_empty() {
                    self.prompt(nothing())
                } else {
                    self.phase = Phase::Measuring { line: text };
                    Step::quiet(Request::MeasureWidth)
                }
            },
            UserInput::Cancelled => {
                self.phase = Phase::Closed;
                Step::quiet(Request::Leave)
            },
            UserInput::Interrupted => {
                self.phase = Phase::Closed;
                Step::quiet(Request::Leave)
            },
            UserInput::Failed(reason) => {
                self.phase = Phase::Closed;
                Step::quiet(Request::Fail { reason })
            },
        }
    }

    /// Moves on from a question.
    fn step_answer(&mut self, input: UserInput) -> (r: Step)
        ensures
            (final(self)@, r@) == old(self)@.on_answer(input@),
            match input {
                UserInput::Submitted(text) => r.request matches Request::Invoke {
                    method,
                    argument,
                    ..
                } && if trimmed(text@) == ":abort"@ {
                    method@ == "abort_prompt"@ && argument is None
                } else {
                    method@ == "answer_prompt"@ && (argument matches Some(answer) && answer@
                        == text@)
                },
                UserInput::Failed(_) => r.request is ReadLine,
                _ => r.request matches Request::Invoke { method, argument, .. } && method@
                    == "abort_prompt"@ && argument is None,
            },
    {
        match take_answer(input) {
            Ok(Some(answer)) => {
                self.phase = Phase::Answering;
                Step::quiet(
                    Request::Invoke {
                        method: ANSWER_PROMPT,
                        argument: Some(answer),
                        progress: Progress::Quiet,
                    },
                )
            },
            Ok(None) => {
                self.phase = Phase::Answering;
                Step::quiet(
                    Request::Invoke {
                        method: ABORT_PROMPT,
                        argument: None,
                        progress: Progress::Quiet,
                    },
                )
            },
            Err(reason) => {
                self.end_turn(false, only(Output::Error(reason)))
            },
        }
    }

    /// Prints a result and, where it carries a pending question, asks the human; else the turn is
    /// over. The freshest reported working directory is kept.
    fn render_and_resolve(&mut self, reply: Reply) -> (r: Step)
        ensures
            (final(self)@, r@) == old(self)@.resolving(reply@),
    {
        let output = render(&reply.result);
        let mut outputs: Vec<Output> = if output.as_str().is_empty() {
            nothing()
        } else {
            only(Output::Preformatted(output))
        };
        if reply.cwd.is_some() {
            self.cwd = reply.cwd;
        }
        match &reply.result.pending_prompt {
            None => self.end_turn(reply.result.exit_code == 0, outputs),
            Some(pending) => {
                let (line, prompt) = ask_human(pending);
                push_output(&mut outputs, Output::Line(line));
                self.phase = Phase::Asking;
                Step { outputs, request: Request::Ask { prompt } }
            },
        }
    }

    /// Sends `line` to the agent.
    fn evaluate(&mut self, line: String) -> (r: Step)
        ensures
            (final(self)@, r@) == old(self)@.requesting(PhaseView::Evaluating, evaluation(line@)),
            r.request matches Request::Invoke { method, argument, progress } && method@ == "eval"@
                && (argument matches Some(text) && text@ == line@) && (
            progress matches Progress::Ticker { is_ask } && (is_ask <==> first_word_of(line@)
                == "ask"@)),
    {
        let is_ask = same_text(first_word(line.as_str()), "ask");
        self.phase = Phase::Evaluating;
        Step::quiet(
            Request::Invoke {
                method: EVAL,
                argument: Some(line),
                progress: Progress::Ticker { is_ask },
            },
        )
    }

    /// Ends the turn and reads the next command line.
    fn end_turn(&mut self, ok: bool, outputs: Vec<Output>) -> (r: Step)
        ensures
            (final(self)@, r@) == old(self)@.turn_over(ok, outputs_view(outputs@)),
    {
        let mut outputs = outputs;
        push_output(&mut outputs, Output::Line("".to_owned()));
        self.last_ok = ok;
        self.prompt(outputs)
    }

    /// Prints `outputs` and reads the next command line.
    fn prompt(&mut self, outputs: Vec<Output>) -> (r: Step)
        ensures
            (final(self)@, r@) == old(self)@.prompting(outputs_view(outputs@)),
    {
        let cwd: Option<&str> = match &self.cwd {
            Some(cwd) => Some(cwd.as_str()),
            None => None,
        };
        let message = prompt_message(cwd, self.last_ok, self.color);
        self.phase = Phase::Reading;
        Step { outputs, request: Request::ReadLine { message } }
    }
}

impl Step {
    /// A step that prints nothing.
    fn quiet(request: Request) -> (r: Step)
        ensures
            r@ == (StepView { outputs: Seq::empty(), request: request@ }),
    {
        Step { outputs: nothing(), request }
    }
}

/// What is read of a request is what it holds, field by field.
pub proof fn law_requests_are_read_as_they_are(
    method: &'static str,
    argument: Option<String>,
    progress: Progress,
    text: String,
    prompt: AnswerPrompt,
)
    ensures
        (Request::Invoke { method, argument, progress })@ matches RequestView::Invoke {
            method: invoked,
            argument: given,
            progress: shown,
        } && invoked == method@ && shown == progress && (given is Some <==> argument is Some) && (
        argument matches Some(text) ==> given == Some(text@)),
        (Request::ReadLine { message: text })@ == (RequestView::ReadLine { message: text@ }),
        Request::MeasureWidth@ is MeasureWidth,
        (Request::Ask { prompt })@ == (RequestView::Ask { prompt: prompt@ }),
        Request::Leave@ is Leave,
        (Request::Fail { reason: text })@ == (RequestView::Fail { reason: text@ }),
{
}

/// What is read of a step and of its outputs is what they hold, one by one.
pub proof fn law_steps_are_read_as_they_are(step: Step, text: String)
    ensures
        step@.request == step.request@,
        step@.outputs.len() == step.outputs@.len(),
        forall|i: int|
            0 <= i < step.outputs@.len() ==> #[trigger] step@.outputs[i] == step.outputs@[i]@,
        Output::Connecting(text)@ == OutputView::Connecting(text@),
        Output::Preformatted(text)@ == OutputView::Preformatted(text@),
        Output::Line(text)@ == OutputView::Line(text@),
        Output::Error(text)@ == OutputView::Error(text@),
{
}

/// What is read of an event is what it holds.
pub proof fn law_events_are_read_as_they_are(
    reply: Reply,
    reason: String,
    columns: u16,
    input: UserInput,
)
    ensures
        Event::Invoked(Ok(reply))@ == EventView::Invoked(Ok(reply@)),
        Event::Invoked(Err(reason))@ == EventView::Invoked(Err(reason@)),
        Event::Width(columns)@ == EventView::Width(columns),
        Event::Input(input)@ == EventView::Input(input@),
{
}

} // verus!
