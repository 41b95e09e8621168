//! What holds of every session.
#[allow(unused_imports)]
use vstd::prelude::*;

#[allow(unused_imports)]
use crate::invocation::{columns_command_text, ReplyView};
#[allow(unused_imports)]
use crate::prompt::{kebab_case, label_of_kebab, shown_label, shown_message};
#[allow(unused_imports)]
use crate::question::{
    answer_in, answer_prompt_for, law_answer_is_one_of_the_choices, question_line, AnswerPromptView,
    UserInputView,
};
#[allow(unused_imports)]
use crate::render::rendered;
#[allow(unused_imports)]
use crate::session::{
    delivery, evaluation, width_notice, EventView, OutputView, PhaseView, Progress, RequestView,
    SessionView, StepView, EXIT,
};
#[allow(unused_imports)]
use crate::schema::AgentTypeSchema;
#[allow(unused_imports)]
use crate::surface::{
    method_named, presents_surface, takes_one_string, ABORT_PROMPT, ANSWER_PROMPT, EVAL,
};
#[allow(unused_imports)]
use crate::text::{first_word_of, trimmed};

verus! {

/// Whether an event answers `request`. The end of a session is answered by none.
pub open spec fn answers(event: EventView, request: RequestView) -> bool {
    match request {
        RequestView::Invoke { .. } => event is Invoked,
        RequestView::ReadLine { .. } => event is Input,
        RequestView::MeasureWidth => event is Width,
        RequestView::Ask { .. } => event is Input,
        RequestView::Leave => false,
        RequestView::Fail { .. } => false,
    }
}

/// `session` after `event`, which it is waiting for.
pub open spec fn next_session(session: SessionView, event: EventView) -> SessionView
    recommends
        session.on(event) is Some,
{
    let (next, _) = session.on(event)->0;
    next
}

/// What `session` does on `event`, which it is waiting for.
pub open spec fn next_step(session: SessionView, event: EventView) -> StepView
    recommends
        session.on(event) is Some,
{
    let (_, step) = session.on(event)->0;
    step
}

/// A session waits for exactly the events that answer the request it handed out last, whatever they
/// hold, so it neither gets stuck nor moves unasked.
pub proof fn law_requests_are_answered(session: SessionView, event: EventView, reply: EventView)
    requires
        session.on(event) is Some,
    ensures
        next_session(session, event).on(reply) is Some <==> answers(reply, next_step(session, event).request),
{
}

/// The first request of a session waits for exactly the events that answer it.
pub proof fn law_first_request_is_answered(
    agent: Seq<char>,
    agent_type: Seq<char>,
    color: bool,
    columns: u16,
    reply: EventView,
)
    ensures
        ({
            let (session, step) = SessionView::started(agent, agent_type, color, columns);
            session.on(reply) is Some <==> answers(reply, step.request)
        }),
{
}

/// A session ends only at the command prompt: on `exit`, on being dismissed or interrupted, or on a
/// prompt that fails. No failed invocation and no aborted question ends it.
pub proof fn law_only_the_prompt_ends_a_session(session: SessionView, event: EventView)
    requires
        session.on(event) is Some,
    ensures
        next_session(session, event).phase is Closed <==> session.phase is Reading && match event {
            EventView::Input(UserInputView::Submitted(text)) => trimmed(text) == EXIT@,
            EventView::Input(_) => true,
            _ => false,
        },
        next_step(session, event).request is Fail <==> session.phase is Reading && event matches
            EventView::Input(UserInputView::Failed(_)),
{
}

/// A blank line sends nothing: the same prompt comes again.
pub proof fn law_blank_line_sends_nothing(session: SessionView, text: Seq<char>)
    requires
        session.phase is Reading,
        trimmed(text).len() == 0,
    ensures
        session.on(EventView::Input(UserInputView::Submitted(text))) == Some(
            session.prompting(Seq::empty()),
        ),
        session.prompting(Seq::empty()).0 == session,
{
    reveal_strlit("exit");
}

/// A command line reaches the agent exactly as it was typed, whatever the width of the terminal is by
/// then and however telling the agent that width went.
pub proof fn law_line_is_evaluated_verbatim(
    session: SessionView,
    text: Seq<char>,
    columns: u16,
    told: Result<ReplyView, Seq<char>>,
)
    requires
        session.phase is Reading,
        trimmed(text).len() > 0,
        trimmed(text) != EXIT@,
    ensures
        ({
            let read = session.on(EventView::Input(UserInputView::Submitted(text)))->0;
            let measured = read.0.on(EventView::Width(columns))->0;
            let told = measured.0.on(EventView::Invoked(told))->0;
            &&& read.1.request is MeasureWidth
            &&& if columns == session.last_columns {
                measured.1.request == evaluation(text)
            } else {
                measured.1.request == width_notice(columns, Progress::Quiet) && told.1.request
                    == evaluation(text)
            }
        }),
{
}

/// The agent is told a width exactly when it changes, so the width that a session remembers is the
/// one that the agent was told last.
pub proof fn law_width_is_told_when_it_changes(session: SessionView, event: EventView)
    requires
        session.on(event) is Some,
    ensures
        next_session(session, event).last_columns != session.last_columns ==> next_step(session, event).request
            == width_notice(next_session(session, event).last_columns, Progress::Quiet),
        next_session(session, event).phase is Resizing <==> next_session(session, event).last_columns
            != session.last_columns,
{
}

/// The prompt always shows the session as it stands, in the style that the session started with.
pub proof fn law_prompt_shows_the_session(session: SessionView, event: EventView)
    requires
        session.on(event) is Some,
    ensures
        ({
            let (next, step) = session.on(event)->0;
            &&& step.request matches RequestView::ReadLine { message } ==> message == shown_message(
                next.cwd,
                next.last_ok,
                next.color,
            )
            &&& next.color == session.color
            &&& next.prefix == session.prefix
        }),
{
}

/// Once the first prompt is up, a working directory that was reported stays until another one is.
pub proof fn law_reported_directory_is_kept(session: SessionView, event: EventView)
    requires
        session.on(event) is Some,
        !(session.phase is Seeding),
    ensures
        ({
            let (next, _) = session.on(event)->0;
            match event {
                EventView::Invoked(Ok(reply)) => if reply.cwd is Some && !(
                session.phase is Resizing) {
                    next.cwd == reply.cwd
                } else {
                    next.cwd == session.cwd
                },
                _ => next.cwd == session.cwd,
            }
        }),
{
}

/// A failed invocation of a command or of an answer is reported, marks the prompt as failed, and
/// leads back to it.
pub proof fn law_failed_invocation_is_reported(session: SessionView, reason: Seq<char>)
    requires
        session.phase is Evaluating || session.phase is Answering,
    ensures
        ({
            let (next, step) = session.on(EventView::Invoked(Err(reason)))->0;
            &&& step.outputs.len() > 0
            &&& step.outputs[0] == OutputView::Error(reason)
            &&& step.request is ReadLine
            &&& next == (SessionView { phase: PhaseView::Reading, last_ok: false, ..session })
        }),
{
}

/// While a question is outstanding no command is evaluated: what is invoked next delivers an answer
/// or aborts the question.
pub proof fn law_question_comes_before_commands(session: SessionView, event: EventView)
    requires
        session.phase is Asking || session.phase is Answering,
        session.on(event) is Some,
    ensures
        next_step(session, event).request matches RequestView::Invoke { method, argument, .. } ==> {
            ||| method == ANSWER_PROMPT@ && argument is Some
            ||| method == ABORT_PROMPT@ && argument is None
        },
        EVAL@ != ANSWER_PROMPT@ && EVAL@ != ABORT_PROMPT@,
{
    reveal_strlit("eval");
    reveal_strlit("answer_prompt");
    reveal_strlit("abort_prompt");
    assert(EVAL@.len() == 4 && ANSWER_PROMPT@.len() == 13 && ABORT_PROMPT@.len() == 12);
}

/// `session` after `events`, with the steps it took; nothing where it was not waiting for one of
/// them.
pub open spec fn run(session: SessionView, events: Seq<EventView>) -> Option<
    (SessionView, Seq<StepView>),
>
    decreases events.len(),
{
    if events.len() == 0 {
        Some((session, Seq::empty()))
    } else {
        match session.on(events[0]) {
            None => None,
            Some((next, step)) => match run(next, events.skip(1)) {
                None => None,
                Some((end, steps)) => Some((end, seq![step] + steps)),
            },
        }
    }
}

/// The events of a turn: a reply, then for each input of the human that input and another reply.
pub open spec fn turn_events(replies: Seq<ReplyView>, inputs: Seq<UserInputView>) -> Seq<EventView>
    decreases inputs.len(),
{
    if inputs.len() == 0 {
        seq![EventView::Invoked(Ok(replies[0]))]
    } else {
        seq![EventView::Invoked(Ok(replies[0])), EventView::Input(inputs[0])] + turn_events(
            replies.skip(1),
            inputs.skip(1),
        )
    }
}

/// What is printed of a result; nothing where it wrote nothing and succeeded.
pub open spec fn printed(reply: ReplyView) -> Seq<OutputView> {
    if rendered(reply.result).len() == 0 {
        Seq::empty()
    } else {
        seq![OutputView::Preformatted(rendered(reply.result))]
    }
}

/// The last working directory that one of `replies` reports, or `cwd` where none does.
pub open spec fn freshest(cwd: Option<Seq<char>>, replies: Seq<ReplyView>) -> Option<Seq<char>>
    decreases replies.len(),
{
    if replies.len() == 0 {
        cwd
    } else if replies.last().cwd is Some {
        replies.last().cwd
    } else {
        freshest(cwd, replies.drop_last())
    }
}

/// The steps of a turn: each result is printed; while it carries a question that is announced and
/// put to the human, and what the human made of it is delivered; a result without one ends the turn
/// with a blank line and `message`.
pub open spec fn turn_steps(
    replies: Seq<ReplyView>,
    inputs: Seq<UserInputView>,
    message: Seq<char>,
) -> Seq<StepView>
    decreases inputs.len(),
{
    if inputs.len() == 0 {
        seq![
            StepView {
                outputs: printed(replies[0]).push(OutputView::Line(""@)),
                request: RequestView::ReadLine { message },
            },
        ]
    } else {
        let prompt = replies[0].result.pending_prompt->0;
        seq![
            StepView {
                outputs: printed(replies[0]).push(OutputView::Line(question_line(prompt))),
                request: RequestView::Ask { prompt: answer_prompt_for(prompt) },
            },
            StepView { outputs: Seq::empty(), request: delivery(answer_in(inputs[0])->Ok_0) },
        ] + turn_steps(replies.skip(1), inputs.skip(1), message)
    }
}

/// A turn goes on for as long as results carry questions, and then the prompt shows the exit of the
/// last result and the last working directory that any of them reported.
pub proof fn law_turn_resolves_every_question(
    session: SessionView,
    replies: Seq<ReplyView>,
    inputs: Seq<UserInputView>,
)
    requires
        session.phase is Evaluating || session.phase is Answering,
        replies.len() == inputs.len() + 1,
        forall|i: int|
            0 <= i < inputs.len() ==> (#[trigger] replies[i]).result.pending_prompt is Some,
        forall|i: int| 0 <= i < inputs.len() ==> answer_in(#[trigger] inputs[i]) is Ok,
        replies.last().result.pending_prompt is None,
    ensures
        ({
            let end = SessionView {
                phase: PhaseView::Reading,
                last_ok: replies.last().result.exit_code == 0,
                cwd: freshest(session.cwd, replies),
                ..session
            };
            let message = shown_message(end.cwd, end.last_ok, end.color);
            run(session, turn_events(replies, inputs)) == Some(
                (end, turn_steps(replies, inputs, message)),
            )
        }),
    decreases inputs.len(),
{
    let events = turn_events(replies, inputs);
    let end = SessionView {
        phase: PhaseView::Reading,
        last_ok: replies.last().result.exit_code == 0,
        cwd: freshest(session.cwd, replies),
        ..session
    };
    let message = shown_message(end.cwd, end.last_ok, end.color);
    reveal_with_fuel(run, 3);
    if inputs.len() == 0 {
        reveal_with_fuel(freshest, 2);
        let steps = turn_steps(replies, inputs, message);
        assert(session.on(events[0]) == Some((end, steps[0])));
        assert(events.skip(1) =~= Seq::empty());
        assert(seq![steps[0]] + Seq::<StepView>::empty() =~= steps);
    } else {
        let asked = session.on(events[0])->0;
        let answered = asked.0.on(events[1])->0;
        let rest_replies = replies.skip(1);
        let rest_inputs = inputs.skip(1);
        let rest = turn_events(rest_replies, rest_inputs);
        assert(events.skip(1)[0] == events[1]);
        assert(events.skip(1).skip(1) =~= rest);
        assert forall|i: int| 0 <= i < rest_inputs.len() implies (
        #[trigger] rest_replies[i]).result.pending_prompt is Some by {
            assert(rest_replies[i] == replies[i + 1]);
        }
        assert forall|i: int| 0 <= i < rest_inputs.len() implies answer_in(
            #[trigger] rest_inputs[i],
        ) is Ok by {
            assert(rest_inputs[i] == inputs[i + 1]);
        }
        law_turn_resolves_every_question(answered.0, rest_replies, rest_inputs);
        lemma_freshest_first(session.cwd, replies);
        let rest_steps = turn_steps(rest_replies, rest_inputs, message);
        assert(seq![asked.1] + (seq![answered.1] + rest_steps) =~= seq![asked.1, answered.1]
            + rest_steps);
    }
}

/// Whether the first of `replies` is looked at first or last does not matter to the directory.
proof fn lemma_freshest_first(cwd: Option<Seq<char>>, replies: Seq<ReplyView>)
    requires
        replies.len() > 0,
    ensures
        freshest(cwd, replies) == freshest(
            if replies[0].cwd is Some {
                replies[0].cwd
            } else {
                cwd
            },
            replies.skip(1),
        ),
    decreases replies.len(),
{
    reveal_with_fuel(freshest, 2);
    let rest = replies.skip(1);
    if rest.len() > 0 {
        assert(rest.last() == replies.last());
        assert(rest.drop_last() =~= replies.drop_last().skip(1));
        lemma_freshest_first(cwd, replies.drop_last());
    }
}

/// Whether an agent type that presents the surface has the method that `request` invokes, with a
/// parameter for each argument that `request` gives.
pub open spec fn fits_surface(agent_type: AgentTypeSchema, request: RequestView) -> bool {
    request matches RequestView::Invoke { method, argument, .. } ==> match method_named(
        agent_type.methods@,
        method,
    ) {
        Some(found) => if argument is Some {
            takes_one_string(found)
        } else {
            found.parameters().len() == 0
        },
        None => false,
    }
}

/// On an agent type that presents the surface, a session invokes nothing but methods of it, each
/// with the parameters that it takes.
pub proof fn law_invocations_fit_the_surface(
    agent_type: AgentTypeSchema,
    agent: Seq<char>,
    color: bool,
    columns: u16,
    session: SessionView,
    event: EventView,
)
    requires
        presents_surface(agent_type),
    ensures
        ({
            let (_, first) = SessionView::started(agent, agent_type.name.0@, color, columns);
            fits_surface(agent_type, first.request)
        }),
        session.on(event) is Some ==> fits_surface(
            agent_type,
            next_step(session, event).request,
        ),
{
}

/// Whether the line that `session` is about to evaluate, if any, is a command: neither blank nor one
/// that leaves the shell.
pub open spec fn holds_a_command(session: SessionView) -> bool {
    match session.phase {
        PhaseView::Measuring { line } => trimmed(line).len() > 0 && trimmed(line) != EXIT@,
        PhaseView::Resizing { line } => trimmed(line).len() > 0 && trimmed(line) != EXIT@,
        _ => true,
    }
}

/// No event makes a session evaluate anything but a command.
pub proof fn law_only_commands_are_evaluated(session: SessionView, event: EventView)
    requires
        holds_a_command(session),
        session.on(event) is Some,
    ensures
        holds_a_command(next_session(session, event)),
{
}

proof fn lemma_run_keeps(session: SessionView, events: Seq<EventView>)
    requires
        holds_a_command(session),
        run(session, events) is Some,
    ensures
        ({
            let (end, steps) = run(session, events)->0;
            &&& holds_a_command(end)
            &&& end.prefix == session.prefix
            &&& end.color == session.color
            &&& steps.len() == events.len()
        }),
    decreases events.len(),
{
    if events.len() > 0 {
        let next = next_session(session, events[0]);
        law_only_commands_are_evaluated(session, events[0]);
        law_prompt_shows_the_session(session, events[0]);
        lemma_run_keeps(next, events.skip(1));
    }
}

/// Whatever happens to a session, it takes one step for each event, its prompt keeps the style that
/// it started with, and it never holds anything but a command to evaluate.
pub proof fn law_every_session(
    agent: Seq<char>,
    agent_type: Seq<char>,
    color: bool,
    columns: u16,
    events: Seq<EventView>,
)
    ensures
        ({
            let (session, first) = SessionView::started(agent, agent_type, color, columns);
            &&& first.request == width_notice(session.last_columns, Progress::Loader)
            &&& run(session, events) matches Some((end, steps)) ==> holds_a_command(end)
                && end.prefix == session.prefix && end.color == color && steps.len()
                == events.len()
        }),
{
    let (session, _) = SessionView::started(agent, agent_type, color, columns);
    if run(session, events) is Some {
        lemma_run_keeps(session, events);
    }
}

/// The working directory that a reply may report shows in the prompt and nowhere else: a session
/// does the same on a reply that omits it.
pub proof fn law_directory_shows_in_the_prompt_only(
    session: SessionView,
    a: ReplyView,
    b: ReplyView,
)
    requires
        a.result == b.result,
        session.on(EventView::Invoked(Ok(a))) is Some,
    ensures
        ({
            let (next_a, step_a) = session.on(EventView::Invoked(Ok(a)))->0;
            let (next_b, step_b) = session.on(EventView::Invoked(Ok(b)))->0;
            &&& session.on(EventView::Invoked(Ok(b))) is Some
            &&& next_a == (SessionView { cwd: next_a.cwd, ..next_b })
            &&& step_a.outputs == step_b.outputs
            &&& step_a.request == step_b.request || (step_a.request is ReadLine
                && step_b.request is ReadLine)
        }),
{
}

/// Where a result carries a question with choices, a pick of one of the options delivers one of the
/// choices or aborts the question.
pub proof fn law_delivered_answer_is_a_choice(
    session: SessionView,
    reply: ReplyView,
    text: Seq<char>,
)
    requires
        session.phase is Evaluating || session.phase is Answering,
        reply.result.pending_prompt is Some,
        reply.result.pending_prompt->0.choices is Some,
        next_step(session, EventView::Invoked(Ok(reply))).request matches RequestView::Ask {
            prompt: AnswerPromptView::Select { options, .. },
        } && options.contains(text),
    ensures
        ({
            let asking = next_session(session, EventView::Invoked(Ok(reply)));
            let picked = EventView::Input(UserInputView::Submitted(text));
            let choices = reply.result.pending_prompt->0.choices->0;
            &&& asking.on(picked) is Some
            &&& next_step(asking, picked).request == delivery(None) || exists|answer: Seq<char>|
                choices.contains(answer) && next_step(asking, picked).request == #[trigger] delivery(
                    Some(answer),
                )
        }),
{
    let prompt = reply.result.pending_prompt->0;
    match answer_in(UserInputView::Submitted(text)) {
        Ok(Some(answer)) => {
            law_answer_is_one_of_the_choices(prompt, text, answer);
            let asking = next_session(session, EventView::Invoked(Ok(reply)));
            let picked = EventView::Input(UserInputView::Submitted(text));
            assert(next_step(asking, picked).request == delivery(Some(answer)));
        },
        _ => {},
    }
}

/// What happens from the first request of a session to the reply to its first command: the seed comes
/// back, a line is typed, the terminal is measured and, where it is no longer `columns` wide, the
/// agent is told so.
pub open spec fn first_turn_events(
    columns: u16,
    seed: Result<ReplyView, Seq<char>>,
    text: Seq<char>,
    measured: u16,
    told: Result<ReplyView, Seq<char>>,
    reply: ReplyView,
) -> Seq<EventView> {
    let typed = seq![
        EventView::Invoked(seed),
        EventView::Input(UserInputView::Submitted(text)),
        EventView::Width(measured),
    ];
    if measured == columns {
        typed + seq![EventView::Invoked(Ok(reply))]
    } else {
        typed + seq![EventView::Invoked(told), EventView::Invoked(Ok(reply))]
    }
}

/// A question that an earlier session left dangling is picked up: whatever the seed came back with,
/// and whether or not the terminal has changed its width since, a question in the reply to the first
/// command is announced and put to the human.
pub proof fn law_dangling_question_is_picked_up(
    agent: Seq<char>,
    agent_type: Seq<char>,
    color: bool,
    columns: u16,
    seed: Result<ReplyView, Seq<char>>,
    text: Seq<char>,
    measured: u16,
    told: Result<ReplyView, Seq<char>>,
    reply: ReplyView,
)
    requires
        trimmed(text).len() > 0,
        trimmed(text) != EXIT@,
        reply.result.pending_prompt is Some,
    ensures
        ({
            let (session, _) = SessionView::started(agent, agent_type, color, columns);
            let prompt = reply.result.pending_prompt->0;
            let events = first_turn_events(columns, seed, text, measured, told, reply);
            &&& run(session, events) matches Some((end, steps)) && end.phase is Asking
                && end.last_columns == measured && steps.len() == events.len() && steps[steps.len()
                - 2].request == evaluation(text) && steps.last().outputs.last() == OutputView::Line(
                question_line(prompt),
            ) && steps.last().request == (RequestView::Ask { prompt: answer_prompt_for(prompt) })
            &&& measured != columns ==> {
                let (_, steps) = run(session, events)->0;
                steps[2].request == width_notice(measured, Progress::Quiet)
            }
        }),
{
    reveal_with_fuel(run, 6);
    let (session, _) = SessionView::started(agent, agent_type, color, columns);
    let events = first_turn_events(columns, seed, text, measured, told, reply);
    assert(events.skip(1)[0] == events[1]);
    assert(events.skip(1).skip(1)[0] == events[2]);
    assert(events.skip(1).skip(1).skip(1)[0] == events[3]);
    if measured != columns {
        assert(events.skip(1).skip(1).skip(1).skip(1)[0] == events[4]);
    }
}

/// A line that is neither blank nor `exit` is what `eval` is invoked with, character for character,
/// once the terminal is measured. Where its width is no longer the one that the agent was told, `eval`
/// is first invoked with the command that tells it, and then with the line, however that went. The
/// ticker says that a model is asked exactly where the first word of the line is `ask`. Nothing is
/// printed meanwhile.
pub proof fn law_typed_line_is_the_argument(
    session: SessionView,
    text: Seq<char>,
    columns: u16,
    told: Result<ReplyView, Seq<char>>,
)
    requires
        session.phase is Reading,
        trimmed(text).len() > 0,
        trimmed(text) != "exit"@,
    ensures
        ({
            let (reading, read) = session.on(EventView::Input(UserInputView::Submitted(text)))->0;
            let (measuring, measured) = reading.on(EventView::Width(columns))->0;
            let (telling, after) = measuring.on(EventView::Invoked(told))->0;
            let is_ask = first_word_of(text) == "ask"@;
            &&& session.on(EventView::Input(UserInputView::Submitted(text))) is Some
            &&& reading.on(EventView::Width(columns)) is Some
            &&& read.request is MeasureWidth && read.outputs.len() == 0
            &&& measured.outputs.len() == 0
            &&& if columns == session.last_columns {
                &&& measured.request matches RequestView::Invoke { method, argument, progress }
                &&& method == "eval"@
                &&& argument == Some(text)
                &&& progress == Progress::Ticker { is_ask }
                &&& measuring == (SessionView { phase: PhaseView::Evaluating, ..session })
            } else {
                &&& measured.request matches RequestView::Invoke { method, argument, progress }
                &&& method == "eval"@
                &&& argument == Some(columns_command_text(columns))
                &&& progress is Quiet
                &&& measuring.on(EventView::Invoked(told)) is Some
                &&& after.outputs.len() == 0
                &&& after.request matches RequestView::Invoke {
                    method: then_method,
                    argument: then_argument,
                    progress: then_progress,
                }
                &&& then_method == "eval"@
                &&& then_argument == Some(text)
                &&& then_progress == Progress::Ticker { is_ask }
                &&& telling == (SessionView {
                    phase: PhaseView::Evaluating,
                    last_columns: columns,
                    ..session
                })
            }
        }),
{
}

/// What a human submits at a question is what `answer_prompt` is invoked with, character for
/// character, unless it reads `:abort` once the white space around it is gone. That text, and leaving
/// the prompt, invokes `abort_prompt` with nothing. A prompt that fails is reported and ends the turn.
pub proof fn law_submitted_answer_is_the_argument(session: SessionView, text: Seq<char>)
    requires
        session.phase is Asking,
    ensures
        trimmed(text) != ":abort"@ ==> (session.on(
            EventView::Input(UserInputView::Submitted(text)),
        ) matches Some((next, step)) && {
            &&& step.request matches RequestView::Invoke { method, argument, progress }
            &&& method == "answer_prompt"@
            &&& argument == Some(text)
            &&& progress is Quiet
            &&& step.outputs.len() == 0
            &&& next == (SessionView { phase: PhaseView::Answering, ..session })
        }),
        forall|input: UserInputView|
            (input is Cancelled || input is Interrupted || (input == UserInputView::Submitted(text)
                && trimmed(text) == ":abort"@)) ==> (#[trigger] session.on(EventView::Input(input))
                matches Some((next, step)) && {
                &&& step.request matches RequestView::Invoke { method, argument, progress }
                &&& method == "abort_prompt"@
                &&& argument is None
                &&& progress is Quiet
                &&& step.outputs.len() == 0
                &&& next == (SessionView { phase: PhaseView::Answering, ..session })
            }),
        session.on(EventView::Input(UserInputView::Failed(text))) matches Some((next, step)) && {
            &&& step.outputs == seq![OutputView::Error(text), OutputView::Line(""@)]
            &&& step.request is ReadLine
            &&& next == (SessionView { phase: PhaseView::Reading, last_ok: false, ..session })
        },
{
}

/// Where a question has choices, every one of them is among the options, with the abort behind them,
/// and an option that is picked is what `answer_prompt` is invoked with, itself one of the choices,
/// unless it reads `:abort`, which invokes `abort_prompt` with nothing.
pub proof fn law_picked_option_is_the_argument(
    session: SessionView,
    reply: ReplyView,
    choices: Seq<Seq<char>>,
    text: Seq<char>,
)
    requires
        session.phase is Evaluating || session.phase is Answering,
        reply.result.pending_prompt matches Some(prompt) && prompt.choices == Some(choices),
        choices.contains(text) || text == ":abort"@,
    ensures
        ({
            let (asking, asked) = session.on(EventView::Invoked(Ok(reply)))->0;
            let picked = EventView::Input(UserInputView::Submitted(text));
            let (_, answered) = asking.on(picked)->0;
            &&& asked.request matches RequestView::Ask {
                prompt: AnswerPromptView::Select { options, .. },
            }
            &&& options == choices.push(":abort"@)
            &&& asking.on(picked) is Some
            &&& answered.request matches RequestView::Invoke { method, argument, .. }
            &&& if trimmed(text) == ":abort"@ {
                method == "abort_prompt"@ && argument is None
            } else {
                method == "answer_prompt"@ && argument == Some(text) && choices.contains(
                    argument->0,
                )
            }
        }),
{
    reveal_strlit(":abort");
}

/// A result is printed whole before anything else, unless there is nothing to print. One without a
/// question ends the turn: a blank line, then the prompt, which is told whether the command succeeded.
/// One with a question announces it and puts it to the human.
pub proof fn law_result_is_printed_and_resolved(session: SessionView, reply: ReplyView)
    requires
        session.phase is Evaluating || session.phase is Answering,
    ensures
        session.on(EventView::Invoked(Ok(reply))) is Some,
        ({
            let (next, step) = session.on(EventView::Invoked(Ok(reply)))->0;
            let output = rendered(reply.result);
            let cwd = if reply.cwd is Some {
                reply.cwd
            } else {
                session.cwd
            };
            let last = step.outputs.last();
            &&& output.len() > 0 ==> step.outputs.len() == 2 && step.outputs[0]
                == OutputView::Preformatted(output)
            &&& output.len() == 0 ==> step.outputs.len() == 1
            &&& match reply.result.pending_prompt {
                None => {
                    &&& last == OutputView::Line(""@)
                    &&& step.request is ReadLine
                    &&& next == (SessionView {
                        phase: PhaseView::Reading,
                        last_ok: reply.result.exit_code == 0,
                        cwd,
                        ..session
                    })
                },
                Some(prompt) => {
                    &&& last == OutputView::Line(question_line(prompt))
                    &&& step.request == (RequestView::Ask { prompt: answer_prompt_for(prompt) })
                    &&& next == (SessionView { phase: PhaseView::Asking, cwd, ..session })
                },
            }
        }),
{
}

/// A session starts by saying what it connects to, by name, and by telling the agent the width of the
/// terminal under the loader. Nothing has failed yet, no directory is known, and the label is that of
/// the agent type.
pub proof fn law_session_starts_afresh(
    agent: Seq<char>,
    agent_type: Seq<char>,
    color: bool,
    columns: u16,
)
    ensures
        ({
            let (session, step) = SessionView::started(agent, agent_type, color, columns);
            &&& step.outputs == seq![
                OutputView::Connecting(
                    "to agent "@ + agent + " (Ctrl-D, Esc, or `exit` to leave)"@,
                ),
                OutputView::Line(""@),
            ]
            &&& step.request matches RequestView::Invoke { method, argument, progress }
            &&& method == "eval"@
            &&& argument == Some(columns_command_text(columns))
            &&& progress is Loader
            &&& session.prefix == shown_label(label_of_kebab(kebab_case(agent_type)), color)
            &&& session.color == color
            &&& session.last_ok
            &&& session.last_columns == columns
            &&& session.cwd is None
            &&& session.phase is Seeding
        }),
{
}

/// The first prompt comes up whatever came of the first invocation, prints nothing, and shows the
/// working directory that the reply reported.
pub proof fn law_first_prompt_comes_up(session: SessionView, reply: ReplyView, reason: Seq<char>)
    requires
        session.phase is Seeding,
    ensures
        session.on(EventView::Invoked(Ok(reply))) matches Some((next, step)) && {
            &&& step.outputs.len() == 0
            &&& step.request is ReadLine
            &&& next == (SessionView { phase: PhaseView::Reading, cwd: reply.cwd, ..session })
        },
        session.on(EventView::Invoked(Err(reason))) matches Some((next, step)) && {
            &&& step.outputs.len() == 0
            &&& step.request is ReadLine
            &&& next == (SessionView { phase: PhaseView::Reading, cwd: None, ..session })
        },
{
}

/// A failed invocation of a command prints its reason and nothing else; one of an answer ends the turn
/// with a blank line behind it.
pub proof fn law_failure_is_printed(session: SessionView, reason: Seq<char>)
    ensures
        session.phase is Evaluating ==> (session.on(EventView::Invoked(Err(reason))) matches Some(
            (next, step),
        ) && step.outputs == seq![OutputView::Error(reason)]),
        session.phase is Answering ==> (session.on(EventView::Invoked(Err(reason))) matches Some(
            (next, step),
        ) && step.outputs == seq![OutputView::Error(reason), OutputView::Line(""@)]),
{
}

/// At the command prompt, `exit` with any white space around it, and leaving the prompt, leaves the
/// shell; a prompt that fails ends it with that reason; a blank line brings the prompt again. None of
/// these prints or invokes anything.
pub proof fn law_prompt_is_left(session: SessionView, text: Seq<char>)
    requires
        session.phase is Reading,
    ensures
        forall|input: UserInputView|
            (input is Cancelled || input is Interrupted || (input == UserInputView::Submitted(text)
                && trimmed(text) == "exit"@)) ==> (#[trigger] session.on(EventView::Input(input))
                matches Some((next, step)) && {
                &&& step.request is Leave
                &&& step.outputs.len() == 0
                &&& next == (SessionView { phase: PhaseView::Closed, ..session })
            }),
        session.on(EventView::Input(UserInputView::Failed(text))) matches Some((next, step)) && {
            &&& step.request == (RequestView::Fail { reason: text })
            &&& step.outputs.len() == 0
            &&& next == (SessionView { phase: PhaseView::Closed, ..session })
        },
        trimmed(text).len() == 0 ==> (session.on(
            EventView::Input(UserInputView::Submitted(text)),
        ) matches Some((next, step)) && {
            &&& step.request is ReadLine
            &&& step.outputs.len() == 0
            &&& next == session
        }),
{
    reveal_strlit("exit");
}

/// A session moves on at the end of an invocation only while one is out, on a width only while the
/// terminal is being measured, and on an input only at one of its two prompts.
pub proof fn law_events_come_in_turn(session: SessionView, event: EventView)
    ensures
        session.on(event) is Some <==> match event {
            EventView::Invoked(_) => session.phase is Seeding || session.phase is Resizing
                || session.phase is Evaluating || session.phase is Answering,
            EventView::Width(_) => session.phase is Measuring,
            EventView::Input(_) => session.phase is Reading || session.phase is Asking,
        },
{
}

/// Once the agent is told a new width, the line that waited for it is evaluated and nothing of what
/// came back is shown or kept.
pub proof fn law_waiting_line_is_the_argument(
    session: SessionView,
    line: Seq<char>,
    told: Result<ReplyView, Seq<char>>,
)
    requires
        session.phase == (PhaseView::Resizing { line }),
    ensures
        session.on(EventView::Invoked(told)) matches Some((next, step)) && {
            &&& step.request matches RequestView::Invoke { method, argument, .. }
            &&& method == "eval"@
            &&& argument == Some(line)
            &&& step.outputs.len() == 0
            &&& next == (SessionView { phase: PhaseView::Evaluating, ..session })
        },
{
}

} // verus!
