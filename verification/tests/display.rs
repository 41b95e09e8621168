use agent_shell::eval_result::{EvalResult, PendingPrompt};
use agent_shell::loader::{
    draw_clank_loader, Loader, Ticker, LOADER_FRAME_MILLIS, TICKER_FRAME_MILLIS,
};
use agent_shell::prompt::{
    answer_render_config, kebab_prompt_label, label_prefix, prompt_message, shell_prompt_label,
    shell_render_config, Color,
};
use agent_shell::question::{ask_human, format_question, take_answer, AnswerPrompt, UserInput};
use agent_shell::render::render;
use agent_shell::text::{decimal_text, drop_suffix, first_word, is_whitespace, join, same_text, trim};
use agent_shell::typeahead::{drain_events, Drain, Probe};

#[test]
fn prompt_message_brackets_the_cwd_before_the_marker() {
    // Colour off → deterministic plain text: `[cwd]` then the `❯` marker, in that order.
    assert_eq!(prompt_message(Some("/app"), true, false), "[/app] ❯");
}

#[test]
fn prompt_message_is_just_the_marker_without_a_cwd() {
    assert_eq!(prompt_message(None, true, false), "❯");
    assert_eq!(prompt_message(Some(""), true, false), "❯");
}

#[test]
fn prompt_message_honours_no_colour() {
    // color=false emits zero escape bytes, with or without a cwd.
    assert!(!prompt_message(Some("/app"), true, false).contains('\x1b'));
    assert!(!prompt_message(None, false, false).contains('\x1b'));
}

#[test]
fn label_prefix_colours_only_when_enabled() {
    assert_eq!(label_prefix("clank", false), "clank");
    assert!(label_prefix("clank", true).contains("\x1b[1;96mclank"));
}

#[test]
fn render_emits_stdout_then_stderr_and_notes_a_failure() {
    let result = EvalResult {
        stdout: "out\n".to_string(),
        stderr: "err\n".to_string(),
        exit_code: 1,
        pending_prompt: None,
    };
    assert_eq!(render(&result), "out\nerr\nexit 1\n");
}

#[test]
fn render_of_a_clean_result_is_just_its_stdout() {
    let result = EvalResult {
        stdout: "hi\n".to_string(),
        stderr: String::new(),
        exit_code: 0,
        pending_prompt: None,
    };
    assert_eq!(render(&result), "hi\n");
}

#[test]
fn render_terminates_unterminated_output() {
    let result = EvalResult {
        stdout: "no newline".to_string(),
        stderr: String::new(),
        exit_code: 0,
        pending_prompt: None,
    };
    assert_eq!(render(&result), "no newline\n");
}

#[test]
fn render_of_an_empty_success_is_empty() {
    let result = EvalResult {
        stdout: String::new(),
        stderr: String::new(),
        exit_code: 0,
        pending_prompt: None,
    };
    assert_eq!(render(&result), "");
}

#[test]
fn render_terminates_stderr_and_writes_the_whole_exit_code() {
    let result = EvalResult {
        stdout: "a".to_string(),
        stderr: "b".to_string(),
        exit_code: 255,
        pending_prompt: None,
    };
    assert_eq!(render(&result), "a\nb\nexit 255\n");
}

#[test]
fn a_question_shows_its_choices() {
    let prompt = PendingPrompt {
        question: "Deploy?".to_string(),
        choices: Some(vec!["yes".to_string(), "no".to_string()]),
    };
    assert_eq!(format_question(&prompt), "Deploy? [yes, no]");
}

#[test]
fn a_free_form_question_shows_no_brackets() {
    let prompt = PendingPrompt {
        question: "your name?".to_string(),
        choices: None,
    };
    assert_eq!(format_question(&prompt), "your name?");
}

#[test]
fn a_question_with_no_choices_left_shows_no_brackets() {
    let prompt = PendingPrompt {
        question: "your name?".to_string(),
        choices: Some(Vec::new()),
    };
    assert_eq!(format_question(&prompt), "your name?");
    // There is no choice to pick, so the abort is all that is on offer.
    assert!(matches!(
        ask_human(&prompt).1,
        AnswerPrompt::Select { options, .. } if options == vec![":abort"]
    ));
}

#[test]
fn a_pick_offers_the_choices_and_the_abort() {
    let prompt = PendingPrompt {
        question: "Deploy?".to_string(),
        choices: Some(vec!["yes".to_string(), "no".to_string()]),
    };
    let (line, ask) = ask_human(&prompt);
    assert_eq!(line, "⏸  Deploy? [yes, no]");
    let AnswerPrompt::Select { message, options } = ask else {
        panic!("not a pick")
    };
    assert_eq!(message, "answer:");
    assert_eq!(options, vec!["yes", "no", ":abort"]);
}

#[test]
fn a_free_form_answer_is_asked_for_as_text() {
    let prompt = PendingPrompt {
        question: "your name?".to_string(),
        choices: None,
    };
    let (line, ask) = ask_human(&prompt);
    assert_eq!(line, "⏸  your name?");
    assert!(
        matches!(ask, AnswerPrompt::Text { message } if message == "answer (`:abort` to cancel):")
    );
}

#[test]
fn answers_are_delivered_verbatim_or_abort() {
    let submitted = |s: &str| take_answer(UserInput::Submitted(s.to_string()));
    assert_eq!(submitted(" yes "), Ok(Some(" yes ".to_string())));
    assert_eq!(submitted(""), Ok(Some(String::new())));
    assert_eq!(submitted(":abort"), Ok(None));
    assert_eq!(submitted("\t:abort \n"), Ok(None));
    assert_eq!(submitted(":abort now"), Ok(Some(":abort now".to_string())));
    assert_eq!(take_answer(UserInput::Cancelled), Ok(None));
    assert_eq!(take_answer(UserInput::Interrupted), Ok(None));
    assert_eq!(
        take_answer(UserInput::Failed("no tty".to_string())),
        Err("no tty".to_string())
    );
}

#[test]
fn prompt_label_drops_the_agent_suffix() {
    assert_eq!(shell_prompt_label("ClankAgent"), "clank");
    assert_eq!(shell_prompt_label("GreeterAgent"), "greeter");
}

#[test]
fn prompt_label_kebab_cases_multiword_names() {
    assert_eq!(shell_prompt_label("RpcCounter"), "rpc-counter");
    assert_eq!(shell_prompt_label("RevisionEnvAgent"), "revision-env");
}

#[test]
fn prompt_label_never_goes_empty() {
    // A type named literally `Agent` must not strip down to nothing.
    assert_eq!(shell_prompt_label("Agent"), "agent");
    assert_eq!(shell_prompt_label(""), "agent");
}

#[test]
fn a_kebab_label_keeps_what_is_not_the_suffix() {
    assert_eq!(kebab_prompt_label("clank-agent"), "clank");
    assert_eq!(kebab_prompt_label("agent-clank"), "agent-clank");
    assert_eq!(kebab_prompt_label("-agent"), "agent");
    assert_eq!(kebab_prompt_label("ünder-agent"), "ünder");
    assert_eq!(shell_prompt_label("--__--"), "agent");
    assert_eq!(shell_prompt_label("Cash$Agent$"), "cash");
    assert_eq!(shell_prompt_label("$"), "agent");
}

#[test]
fn prompt_message_marker_colour_tracks_the_last_exit() {
    // With colour on, the `❯` marker is bright-green after a success and bright-red after a
    // failure; the cwd stays blue regardless.
    let ok = prompt_message(Some("/app"), true, true);
    let fail = prompt_message(Some("/app"), false, true);
    assert!(
        ok.contains("\x1b[92m❯"),
        "ok marker should be green: {ok:?}"
    );
    assert!(
        fail.contains("\x1b[91m❯"),
        "fail marker should be red: {fail:?}"
    );
    assert!(ok.contains("\x1b[34m[/app]"), "cwd should be blue: {ok:?}");
}

#[test]
fn coloured_segments_are_exact() {
    assert_eq!(label_prefix("clank", true), "\x1b[1;96mclank\x1b[0m");
    assert_eq!(
        prompt_message(Some("/app"), true, true),
        "\x1b[34m[/app]\x1b[0m \x1b[92m❯\x1b[0m"
    );
    assert_eq!(prompt_message(None, false, true), "\x1b[91m❯\x1b[0m");
}

/// Drops the colour sequences of `s`.
fn stripped(s: &str) -> String {
    let mut out = String::new();
    let mut escaped = false;
    for c in s.chars() {
        if escaped {
            escaped = c != 'm';
        } else if c == '\x1b' {
            escaped = true;
        } else {
            out.push(c);
        }
    }
    out
}

#[test]
fn colour_is_invisible() {
    for ok in [true, false] {
        for cwd in [None, Some("/app")] {
            assert_eq!(
                stripped(&prompt_message(cwd, ok, true)),
                prompt_message(cwd, ok, false)
            );
        }
    }
}

#[test]
fn the_command_prompt_is_led_by_the_label() {
    let style = shell_render_config("clank");
    assert_eq!(style.prompt_prefix.content, "clank");
    assert!(style.prompt_prefix.foreground.is_none());
    let answered = style.answered_prompt_prefix.unwrap();
    assert_eq!(answered.content, "clank");
    assert!(answered.foreground.is_none());
}

#[test]
fn the_answer_prompt_is_led_by_a_neutral_marker() {
    let style = answer_render_config();
    assert_eq!(style.prompt_prefix.content, "❯");
    assert_eq!(style.prompt_prefix.foreground, Some(Color::DarkYellow));
    assert!(style.answered_prompt_prefix.is_none());
}

#[test]
fn drain_consumes_every_pending_event() {
    let queued = std::cell::Cell::new(3usize);
    let discarded = drain_events(
        || queued.get() > 0,
        || {
            queued.set(queued.get() - 1);
            true
        },
    );
    assert_eq!(discarded, 3);
    assert_eq!(queued.get(), 0);
}

#[test]
fn drain_with_nothing_pending_is_a_noop() {
    assert_eq!(drain_events(|| false, || panic!("must not read")), 0);
}

#[test]
fn drain_stops_on_a_failed_read() {
    // `pending` forever true, but the first read fails: the drain must bail, not spin.
    assert_eq!(drain_events(|| true, || false), 0);
}

#[test]
fn a_drain_counts_the_reads_before_its_end() {
    let mut drain = Drain::new();
    assert!(drain.record(Probe::Read));
    assert!(drain.record(Probe::Read));
    assert!(!drain.record(Probe::Unreadable));
    assert_eq!(drain.discarded, 2);
    assert!(!drain.record(Probe::Idle));
    assert_eq!(drain.discarded, 2);
    let mut full = Drain {
        discarded: usize::MAX,
    };
    assert!(!full.record(Probe::Read));
    assert_eq!(full.discarded, usize::MAX);
}

#[test]
fn the_loader_draws_its_frames() {
    assert_eq!(
        draw_clank_loader(0, false),
        "\r⣾ initializing clank [███···········]\x1b[K"
    );
    assert_eq!(
        draw_clank_loader(17, false),
        "\r⣽ clanking the parts together [·····███······]\x1b[K"
    );
    assert_eq!(
        draw_clank_loader(11, true),
        "\r\x1b[96m⢿\x1b[0m \x1b[1minitializing clank\x1b[0m \x1b[90m▕···········███▏\x1b[0m\x1b[K"
    );
    // The statuses start over after the last one.
    assert!(draw_clank_loader(111, false).contains("almost there"));
    assert!(draw_clank_loader(112, false).contains("initializing clank"));
    assert!(draw_clank_loader(u64::MAX, false).starts_with("\r⣷ "));
}

#[test]
fn the_loader_goes_from_frame_to_frame_and_is_cleared() {
    let mut loader = Loader::new();
    for tick in 0..40u64 {
        assert_eq!(loader.next(true), draw_clank_loader(tick, true));
    }
    assert_eq!(loader.tick, 40);
    assert_eq!((LOADER_FRAME_MILLIS, TICKER_FRAME_MILLIS), (90, 110));
    assert_eq!(loader.finish(), "\r\x1b[2K");
    let mut last = Loader { tick: u64::MAX };
    assert_eq!(last.next(false), draw_clank_loader(u64::MAX, false));
    assert_eq!(last.tick, u64::MAX);
}

#[test]
fn the_lit_window_moves_cell_by_cell() {
    let lit = |tick: u64| {
        let frame = draw_clank_loader(tick, false);
        let bar: Vec<char> = frame
            .chars()
            .filter(|c| *c == '█' || *c == '·')
            .collect();
        assert_eq!(bar.len(), 14);
        assert_eq!(bar.iter().filter(|c| **c == '█').count(), 3);
        bar.iter().position(|c| *c == '█').unwrap()
    };
    for tick in 0..100u64 {
        assert_eq!(lit(tick).abs_diff(lit(tick + 1)), 1);
        assert_eq!(lit(tick), lit(tick + 22));
        if lit(tick) == lit(tick + 2) {
            assert!(lit(tick + 1) == 0 || lit(tick + 1) == 11);
        }
    }
    assert_eq!(lit(0), 0);
}

#[test]
fn the_ticker_waits_before_it_shows() {
    let mut ticker = Ticker::new(true);
    assert_eq!(ticker.tick(0, 110), None);
    assert_eq!(ticker.tick(0, 349), None);
    assert_eq!(ticker.finish(), None);
    assert_eq!(
        ticker.tick(0, 350).as_deref(),
        Some("\r\x1b[96m⣾\x1b[0m thinking… 0s\x1b[K")
    );
    assert_eq!(
        ticker.tick(12, 5).as_deref(),
        Some("\r\x1b[96m⣽\x1b[0m thinking… 12s\x1b[K")
    );
    assert_eq!(ticker.finish(), Some("\r\x1b[2K"));
}

#[test]
fn the_ticker_spins_around() {
    let mut ticker = Ticker::new(false);
    let mut frames: Vec<String> = Vec::new();
    for _ in 0..9 {
        frames.push(ticker.tick(1, 0).unwrap());
    }
    assert_eq!(frames[0], frames[8]);
    assert_eq!(frames[7], "\r\x1b[96m⣷\x1b[0m working… 1s\x1b[K");
}

#[test]
fn white_space_is_that_of_the_standard_library() {
    for c in '\0'..=char::MAX {
        assert_eq!(is_whitespace(c), c.is_whitespace(), "{c:?}");
    }
}

#[test]
fn trimming_and_words_are_those_of_the_standard_library() {
    for s in [
        "",
        " ",
        "exit",
        "  ask me \u{3000}",
        "\u{a0}ls -l\n",
        "ask",
        "\t é\u{2003}ñ ",
        "a b",
    ] {
        assert_eq!(trim(s), s.trim());
        assert_eq!(trim(trim(s)), s.trim());
        assert_eq!(first_word(s), s.split_whitespace().next().unwrap_or(""));
    }
}

#[test]
fn numbers_are_written_in_decimal() {
    for n in [0u64, 7, 10, 99, 100, 255, 65_535, 1_000_000, u64::MAX] {
        assert_eq!(decimal_text(n), n.to_string());
    }
}

#[test]
fn joining_puts_the_separator_between() {
    let texts = |parts: &[&str]| parts.iter().map(|p| p.to_string()).collect::<Vec<String>>();
    for parts in [&[][..], &["a"][..], &["a", "b"][..], &["", "x", ""][..]] {
        assert_eq!(join(&texts(parts), ", "), parts.join(", "));
    }
}

#[test]
fn suffixes_are_dropped_whole() {
    assert_eq!(drop_suffix("a-agent", "-agent"), "a");
    assert_eq!(drop_suffix("agent", "-agent"), "agent");
    assert_eq!(drop_suffix("a-agents", "-agent"), "a-agents");
    assert!(same_text("é", "é"));
    assert!(!same_text("e", "é"));
}
