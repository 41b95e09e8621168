use agent_shell::eval_result::{EvalResult, PendingPrompt};
use agent_shell::invocation::Reply;
use agent_shell::question::{AnswerPrompt, UserInput};
use agent_shell::schema::SchemaValue;
use agent_shell::session::{shown_progress, Event, Output, Progress, Request, Session, Step};

fn reply(stdout: &str, exit_code: u8, cwd: Option<&str>, pending: Option<&str>) -> Event {
    Event::Invoked(Ok(Reply {
        result: EvalResult {
            stdout: stdout.to_string(),
            stderr: String::new(),
            exit_code,
            pending_prompt: pending.map(|question| PendingPrompt {
                question: question.to_string(),
                choices: None,
            }),
        },
        cwd: cwd.map(|cwd| cwd.to_string()),
    }))
}

fn failed(reason: &str) -> Event {
    Event::Invoked(Err(reason.to_string()))
}

fn typed(line: &str) -> Event {
    Event::Input(UserInput::Submitted(line.to_string()))
}

/// The output of a step, one word per piece.
fn outputs(step: &Step) -> Vec<String> {
    step.outputs
        .iter()
        .map(|output| match output {
            Output::Connecting(text) => format!("connecting {text}"),
            Output::Preformatted(text) => format!("output {text}"),
            Output::Line(text) => format!("line {text}"),
            Output::Error(text) => format!("error {text}"),
        })
        .collect()
}

/// The request of a step, in words.
fn request(step: &Step) -> String {
    match &step.request {
        Request::Invoke {
            method,
            argument,
            progress,
        } => {
            let progress = match progress {
                Progress::Loader => "loader",
                Progress::Ticker { is_ask: true } => "thinking",
                Progress::Ticker { is_ask: false } => "working",
                Progress::Quiet => "quiet",
            };
            match argument {
                Some(argument) => format!("{method}({argument}) {progress}"),
                None => format!("{method}() {progress}"),
            }
        }
        Request::ReadLine { message } => format!("read {message}"),
        Request::MeasureWidth => "measure".to_string(),
        Request::Ask {
            prompt: AnswerPrompt::Select { options, .. },
        } => format!("pick {}", options.join("|")),
        Request::Ask {
            prompt: AnswerPrompt::Text { message },
        } => format!("ask {message}"),
        Request::Leave => "leave".to_string(),
        Request::Fail { reason } => format!("fail {reason}"),
    }
}

/// A session at its first prompt.
fn prompted() -> Session {
    let (mut session, _) = Session::start("clank-1", "ClankAgent", false, 80);
    let step = session.step(reply("", 0, Some("/home"), None)).unwrap();
    assert_eq!(request(&step), "read [/home] ❯");
    session
}

fn next(session: &mut Session, event: Event) -> (Vec<String>, String) {
    let step = session.step(event).expect("an expected event");
    (outputs(&step), request(&step))
}

#[test]
fn a_session_starts_by_telling_the_width() {
    let (session, step) = Session::start("clank-1", "ClankAgent", false, 132);
    assert_eq!(
        outputs(&step),
        vec![
            "connecting to agent clank-1 (Ctrl-D, Esc, or `exit` to leave)",
            "line "
        ]
    );
    assert_eq!(request(&step), "eval(export COLUMNS=132) loader");
    assert_eq!(session.prefix(), "clank");
    let (session, _) = Session::start("clank-1", "ClankAgent", true, 132);
    assert_eq!(session.prefix(), "\x1b[1;96mclank\x1b[0m");
}

#[test]
fn a_failed_seed_gives_the_bare_prompt() {
    let (mut session, _) = Session::start("clank-1", "ClankAgent", false, 80);
    assert_eq!(
        next(&mut session, failed("boom")),
        (Vec::new(), "read ❯".to_string())
    );
}

#[test]
fn a_question_that_the_seed_surfaces_is_left_to_the_first_command() {
    let (mut session, _) = Session::start("clank-1", "ClankAgent", false, 80);
    assert_eq!(
        next(&mut session, reply("x", 1, None, Some("sure?"))),
        (Vec::new(), "read ❯".to_string())
    );
}

#[test]
fn a_command_runs_and_its_output_is_shown() {
    let mut session = prompted();
    assert_eq!(
        next(&mut session, typed("  ls -l \n")),
        (Vec::new(), "measure".to_string())
    );
    assert_eq!(
        next(&mut session, Event::Width(80)),
        (Vec::new(), "eval(  ls -l \n) working".to_string())
    );
    assert_eq!(
        next(&mut session, reply("a b", 0, Some("/app"), None)),
        (
            vec!["output a b\n".to_string(), "line ".to_string()],
            "read [/app] ❯".to_string()
        )
    );
}

#[test]
fn a_silent_command_prints_a_blank_line_alone() {
    let mut session = prompted();
    next(&mut session, typed("true"));
    next(&mut session, Event::Width(80));
    assert_eq!(
        next(&mut session, reply("", 0, None, None)),
        (vec!["line ".to_string()], "read [/home] ❯".to_string())
    );
}

#[test]
fn only_the_word_ask_thinks() {
    for (line, expected) in [
        ("ask why", "eval(ask why) thinking"),
        (" ask  why", "eval( ask  why) thinking"),
        ("ask", "eval(ask) thinking"),
        ("asks why", "eval(asks why) working"),
        ("please ask", "eval(please ask) working"),
    ] {
        let mut session = prompted();
        next(&mut session, typed(line));
        assert_eq!(next(&mut session, Event::Width(80)).1, expected);
    }
}

#[test]
fn a_new_width_is_told_once_before_the_command() {
    let mut session = prompted();
    next(&mut session, typed("ls"));
    assert_eq!(
        next(&mut session, Event::Width(100)),
        (Vec::new(), "eval(export COLUMNS=100) quiet".to_string())
    );
    // However that went, the command follows, and what it reported is not shown.
    assert_eq!(
        next(&mut session, failed("boom")),
        (Vec::new(), "eval(ls) working".to_string())
    );
    next(&mut session, reply("", 0, None, None));
    next(&mut session, typed("ls"));
    assert_eq!(next(&mut session, Event::Width(100)).1, "eval(ls) working");
}

#[test]
fn a_report_while_resizing_changes_nothing() {
    let mut session = prompted();
    next(&mut session, typed("ls"));
    next(&mut session, Event::Width(100));
    assert_eq!(
        next(&mut session, reply("x", 1, Some("/other"), None)).1,
        "eval(ls) working"
    );
    assert_eq!(
        next(&mut session, reply("", 0, None, None)).1,
        "read [/home] ❯"
    );
}

#[test]
fn blank_lines_prompt_again() {
    let mut session = prompted();
    for line in ["", "   ", "\t\u{3000}\n"] {
        assert_eq!(
            next(&mut session, typed(line)),
            (Vec::new(), "read [/home] ❯".to_string())
        );
    }
}

#[test]
fn a_session_is_left_at_the_prompt() {
    for event in [
        typed("exit"),
        typed("  exit\n"),
        Event::Input(UserInput::Cancelled),
        Event::Input(UserInput::Interrupted),
    ] {
        let mut session = prompted();
        assert_eq!(
            next(&mut session, event),
            (Vec::new(), "leave".to_string())
        );
        assert!(session.step(typed("ls")).is_none());
        assert!(session.step(Event::Width(80)).is_none());
        assert!(session.step(failed("late")).is_none());
    }
}

#[test]
fn a_prompt_that_fails_ends_the_session_with_its_error() {
    let mut session = prompted();
    assert_eq!(
        next(&mut session, Event::Input(UserInput::Failed("no tty".to_string()))),
        (Vec::new(), "fail no tty".to_string())
    );
}

#[test]
fn a_failed_command_is_reported_and_marks_the_prompt() {
    let (mut session, _) = Session::start("clank-1", "ClankAgent", true, 80);
    next(&mut session, reply("", 0, None, None));
    next(&mut session, typed("ls"));
    next(&mut session, Event::Width(80));
    assert_eq!(
        next(&mut session, failed("boom")),
        (
            vec!["error boom".to_string()],
            "read \x1b[91m❯\x1b[0m".to_string()
        )
    );
    next(&mut session, typed("false"));
    next(&mut session, Event::Width(80));
    assert_eq!(
        next(&mut session, reply("", 2, None, None)),
        (
            vec!["output exit 2\n".to_string(), "line ".to_string()],
            "read \x1b[91m❯\x1b[0m".to_string()
        )
    );
    next(&mut session, typed("true"));
    next(&mut session, Event::Width(80));
    assert_eq!(
        next(&mut session, reply("", 0, None, None)).1,
        "read \x1b[92m❯\x1b[0m"
    );
}

#[test]
fn questions_are_resolved_until_none_is_left() {
    let mut session = prompted();
    next(&mut session, typed("deploy"));
    next(&mut session, Event::Width(80));
    assert_eq!(
        next(&mut session, reply("working\n", 0, Some("/one"), Some("sure?"))),
        (
            vec!["output working\n".to_string(), "line ⏸  sure?".to_string()],
            "ask answer (`:abort` to cancel):".to_string()
        )
    );
    assert_eq!(
        next(&mut session, typed(" yes ")),
        (Vec::new(), "answer_prompt( yes ) quiet".to_string())
    );
    assert_eq!(
        next(&mut session, reply("", 0, None, Some("really?"))),
        (
            vec!["line ⏸  really?".to_string()],
            "ask answer (`:abort` to cancel):".to_string()
        )
    );
    assert_eq!(
        next(&mut session, Event::Input(UserInput::Interrupted)),
        (Vec::new(), "abort_prompt() quiet".to_string())
    );
    assert_eq!(
        next(&mut session, reply("aborted", 3, None, None)),
        (
            vec!["output aborted\nexit 3\n".to_string(), "line ".to_string()],
            "read [/one] ❯".to_string()
        )
    );
}

#[test]
fn a_pick_is_offered_where_a_question_has_choices() {
    let mut session = prompted();
    next(&mut session, typed("deploy"));
    next(&mut session, Event::Width(80));
    let event = Event::Invoked(Ok(Reply {
        result: EvalResult {
            stdout: String::new(),
            stderr: String::new(),
            exit_code: 0,
            pending_prompt: Some(PendingPrompt {
                question: "where?".to_string(),
                choices: Some(vec!["eu".to_string(), "us".to_string()]),
            }),
        },
        cwd: None,
    }));
    assert_eq!(next(&mut session, event).1, "pick eu|us|:abort");
    assert_eq!(next(&mut session, typed(":abort")).1, "abort_prompt() quiet");
}

#[test]
fn a_pick_among_no_choices_offers_the_abort_alone() {
    let mut session = prompted();
    next(&mut session, typed("deploy"));
    next(&mut session, Event::Width(80));
    let event = Event::Invoked(Ok(Reply {
        result: EvalResult {
            stdout: String::new(),
            stderr: String::new(),
            exit_code: 0,
            pending_prompt: Some(PendingPrompt {
                question: "where?".to_string(),
                choices: Some(Vec::new()),
            }),
        },
        cwd: None,
    }));
    assert_eq!(
        next(&mut session, event),
        (vec!["line ⏸  where?".to_string()], "pick :abort".to_string())
    );
    assert_eq!(next(&mut session, typed(":abort")).1, "abort_prompt() quiet");
}

#[test]
fn a_dangling_question_is_picked_up_by_the_first_command() {
    let (mut session, _) = Session::start("clank-1", "ClankAgent", false, 80);
    next(&mut session, reply("", 0, None, Some("sure?")));
    next(&mut session, typed("ls"));
    next(&mut session, Event::Width(80));
    assert_eq!(
        next(&mut session, reply("", 0, None, Some("sure?"))),
        (
            vec!["line ⏸  sure?".to_string()],
            "ask answer (`:abort` to cancel):".to_string()
        )
    );
}

#[test]
fn an_answer_that_cannot_be_read_or_delivered_ends_the_turn() {
    for deliver in [false, true] {
        let (mut session, _) = Session::start("clank-1", "ClankAgent", true, 80);
        next(&mut session, reply("", 0, None, None));
        next(&mut session, typed("deploy"));
        next(&mut session, Event::Width(80));
        next(&mut session, reply("", 0, Some("/one"), Some("sure?")));
        let end = if deliver {
            next(&mut session, typed("yes"));
            next(&mut session, failed("boom"))
        } else {
            next(&mut session, Event::Input(UserInput::Failed("boom".to_string())))
        };
        assert_eq!(
            end,
            (
                vec!["error boom".to_string(), "line ".to_string()],
                "read \x1b[34m[/one]\x1b[0m \x1b[91m❯\x1b[0m".to_string()
            )
        );
    }
}

#[test]
fn an_event_that_answers_nothing_is_refused() {
    let mut session = prompted();
    assert!(session.step(Event::Width(80)).is_none());
    assert!(session.step(failed("late")).is_none());
    // The session is where it was.
    assert_eq!(next(&mut session, typed("ls")).1, "measure");
}

#[test]
fn a_returned_value_becomes_an_event() {
    let value = Some(SchemaValue::Record {
        fields: vec![
            SchemaValue::String("hi\n".to_string()),
            SchemaValue::String(String::new()),
            SchemaValue::U8(0),
            SchemaValue::Option { inner: None },
            SchemaValue::String("/app".to_string()),
        ],
    });
    let mut session = prompted();
    next(&mut session, typed("ls"));
    next(&mut session, Event::Width(80));
    assert_eq!(
        next(&mut session, Event::returned("ClankAgent", "eval", &value)),
        (
            vec!["output hi\n".to_string(), "line ".to_string()],
            "read [/app] ❯".to_string()
        )
    );
    next(&mut session, typed("ls"));
    next(&mut session, Event::Width(80));
    assert_eq!(
        next(&mut session, Event::returned("ClankAgent", "eval", &None)).0,
        vec![
            "error Agent type ClankAgent returned no value from `eval`; `agent shell` requires it \
             to return an eval-result record."
        ]
    );
}

#[test]
fn the_directory_shows_in_the_prompt_only() {
    let turn = |cwd: Option<&str>| {
        let mut session = prompted();
        next(&mut session, typed("ls"));
        next(&mut session, Event::Width(80));
        next(&mut session, reply("a", 4, cwd, None))
    };
    let (with, without) = (turn(Some("/app")), turn(None));
    assert_eq!(with.0, without.0);
    assert_eq!(with.1, "read [/app] ❯");
    assert_eq!(without.1, "read [/home] ❯");
}

#[test]
fn every_invocation_is_one_of_the_surface() {
    let (mut session, first) = Session::start("clank-1", "ClankAgent", false, 80);
    let mut requests = vec![request(&first)];
    for event in [
        reply("", 0, None, None),
        typed("ls"),
        Event::Width(90),
        reply("", 0, None, None),
        reply("", 0, None, Some("sure?")),
        typed("yes"),
        reply("", 0, None, Some("really?")),
        typed(":abort"),
        reply("", 0, None, None),
    ] {
        requests.push(next(&mut session, event).1);
    }
    let invoked: Vec<&String> = requests.iter().filter(|r| r.contains('(')).collect();
    assert_eq!(
        invoked,
        vec![
            "eval(export COLUMNS=80) loader",
            "eval(export COLUMNS=90) quiet",
            "eval(ls) working",
            "ask answer (`:abort` to cancel):",
            "answer_prompt(yes) quiet",
            "ask answer (`:abort` to cancel):",
            "abort_prompt() quiet",
        ]
    );
}

#[test]
fn progress_is_drawn_on_a_terminal_only() {
    for progress in [
        Progress::Loader,
        Progress::Ticker { is_ask: true },
        Progress::Quiet,
    ] {
        assert_eq!(shown_progress(progress, true), progress);
        assert_eq!(shown_progress(progress, false), Progress::Quiet);
    }
}

#[test]
fn a_dangling_question_is_picked_up_in_a_resized_terminal() {
    let (mut session, _) = Session::start("clank-1", "ClankAgent", false, 80);
    next(&mut session, failed("boom"));
    next(&mut session, typed("ls"));
    assert_eq!(
        next(&mut session, Event::Width(90)).1,
        "eval(export COLUMNS=90) quiet"
    );
    assert_eq!(next(&mut session, failed("boom")).1, "eval(ls) working");
    assert_eq!(
        next(&mut session, reply("", 0, None, Some("sure?"))),
        (
            vec!["line ⏸  sure?".to_string()],
            "ask answer (`:abort` to cancel):".to_string()
        )
    );
}
