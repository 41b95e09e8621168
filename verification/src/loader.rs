//! What is shown while an invocation runs: the loader over the cold start of a fresh instance, and
//! the ticker over a slow command.
use vstd::prelude::*;

#[allow(unused_imports)]
use crate::text::{decimal, decimal_text};

verus! {

/// The frames of the spinner.
pub const SPINNER: &'static str = "⣾⣽⣻⢿⡿⣟⣯⣷";

/// The states of the loader, in the order in which they are shown.
pub const STATUSES: [&'static str; 7] = [
    "initializing clank",
    "clanking the parts together",
    "greasing the gears",
    "warming up the shell",
    "tightening the bolts",
    "spinning up the agent",
    "almost there",
];

/// How many frames each status is shown for.
pub const FRAMES_PER_STATUS: u64 = 16;

/// How many cells the pulse bar has.
pub const BAR_WIDTH: u64 = 14;

/// How many cells of the pulse bar are lit.
pub const BAR_WINDOW: u64 = 3;

/// Moves the cursor to the start of the line and erases it.
pub const CLEAR_LINE: &'static str = "\r\x1b[2K";

/// How long a frame of the loader is shown, in milliseconds.
pub const LOADER_FRAME_MILLIS: u64 = 90;

/// How long a frame of the ticker is shown, in milliseconds.
pub const TICKER_FRAME_MILLIS: u64 = 110;

/// How long a command runs, in milliseconds, before the ticker is shown over it.
pub const TICKER_DELAY_MILLIS: u32 = 350;

/// The spinner at frame `frame`.
pub open spec fn spinner_at(frame: nat) -> Seq<char> {
    let i = (frame % 8) as int;
    SPINNER@.subrange(i, i + 1)
}

/// The status at frame `frame`.
pub open spec fn status_at(frame: nat) -> Seq<char> {
    STATUSES@[(frame / FRAMES_PER_STATUS as nat % 7) as int]@
}

/// The first lit cell of the pulse bar at frame `frame`: it runs to the right until the lit window
/// touches the end of the bar, then back.
pub open spec fn window_at(frame: nat) -> int {
    let reach = BAR_WIDTH - BAR_WINDOW;
    let phase = (frame as int) % (2 * reach);
    if phase <= reach {
        phase
    } else {
        2 * reach - phase
    }
}

/// The pulse bar at frame `frame`.
pub open spec fn bar_at(frame: nat) -> Seq<char> {
    let lit = window_at(frame);
    Seq::new(
        BAR_WIDTH as nat,
        |i: int|
            if lit <= i < lit + BAR_WINDOW {
                '█'
            } else {
                '·'
            },
    )
}

/// The loader at frame `frame`.
pub open spec fn loader_text(frame: nat, color: bool) -> Seq<char> {
    if color {
        "\r\x1b[96m"@ + spinner_at(frame) + "\x1b[0m \x1b[1m"@ + status_at(frame)
            + "\x1b[0m \x1b[90m▕"@ + bar_at(frame) + "▏\x1b[0m\x1b[K"@
    } else {
        "\r"@ + spinner_at(frame) + " "@ + status_at(frame) + " ["@ + bar_at(frame) + "]\x1b[K"@
    }
}

/// The spinner at frame `frame`.
fn spinner(frame: u64) -> (r: &'static str)
    ensures
        r@ == spinner_at(frame as nat),
{
    proof {
        reveal_strlit("⣾⣽⣻⢿⡿⣟⣯⣷");
    }
    let i: usize = (frame % 8) as usize;
    SPINNER.substring_char(i, i + 1)
}

/// The pulse bar at frame `frame`.
fn pulse_bar(frame: u64) -> (r: String)
    ensures
        r@ == bar_at(frame as nat),
{
    let reach: u64 = BAR_WIDTH - BAR_WINDOW;
    let phase: u64 = frame % (2 * reach);
    let lit: u64 = if phase <= reach {
        phase
    } else {
        2 * reach - phase
    };
    let mut bar = String::new();
    let mut i: u64 = 0;
    while i < BAR_WIDTH
        invariant
            i <= BAR_WIDTH,
            lit == window_at(frame as nat),
            lit <= BAR_WIDTH - BAR_WINDOW,
            bar@ =~= bar_at(frame as nat).take(i as int),
        decreases BAR_WIDTH - i,
    {
        proof {
            reveal_strlit("█");
            reveal_strlit("·");
        }
        if lit <= i && i < lit + BAR_WINDOW {
            bar.append("█");
        } else {
            bar.append("·");
        }
        i += 1;
    }
    bar
}

/// One frame of the loader: a spinner, a status that changes every few frames, and an
/// indeterminate pulse bar whose lit window bounces back and forth. It redraws its line in place.
pub fn draw_clank_loader(tick: u64, color: bool) -> (r: String)
    ensures
        r@ == loader_text(tick as nat, color),
{
    let spin = spinner(tick);
    let status = STATUSES[(tick / FRAMES_PER_STATUS % 7) as usize];
    let bar = pulse_bar(tick);
    let mut out = String::new();
    if color {
        out.append("\r\x1b[96m");
        out.append(spin);
        out.append("\x1b[0m \x1b[1m");
        out.append(status);
        out.append("\x1b[0m \x1b[90m▕");
        out.append(bar.as_str());
        out.append("▏\x1b[0m\x1b[K");
    } else {
        out.append("\r");
        out.append(spin);
        out.append(" ");
        out.append(status);
        out.append(" [");
        out.append(bar.as_str());
        out.append("]\x1b[K");
    }
    assert(out@ =~= loader_text(tick as nat, color));
    out
}

/// The loader over one invocation.
#[derive(Debug, Clone, Copy)]
pub struct Loader {
    /// The frame to show next.
    pub tick: u64,
}

impl Loader {
    /// The loader over an invocation that has just started.
    pub fn new() -> (r: Loader)
        ensures
            r.tick == 0,
    {
        Loader { tick: 0 }
    }

    /// The frame to show next. The last frame that can be counted is shown again and again.
    pub fn next(&mut self, color: bool) -> (r: String)
        ensures
            r@ == loader_text(old(self).tick as nat, color),
            final(self).tick == (if old(self).tick < u64::MAX {
                (old(self).tick + 1) as u64
            } else {
                old(self).tick
            }),
    {
        let frame = draw_clank_loader(self.tick, color);
        if self.tick < u64::MAX {
            self.tick += 1;
        }
        frame
    }

    /// What to write once the invocation has finished: the loader is cleared, so that the prompt
    /// starts on a clean line.
    pub fn finish(&self) -> (r: &'static str)
        ensures
            r@ == CLEAR_LINE@,
            r@ == "\r\x1b[2K"@,
    {
        CLEAR_LINE
    }
}

/// The ticker over one command.
#[derive(Debug, Clone, Copy)]
pub struct Ticker {
    /// Whether the command asks a model, which is called thinking and not working.
    pub is_ask: bool,
    /// The spinner frame to show next.
    pub frame: u64,
    /// Whether a frame has been shown.
    pub shown: bool,
}

/// Whether it is too early, `secs` seconds and `millis` milliseconds into a command, to show the
/// ticker.
pub open spec fn too_early(secs: u64, millis: u32) -> bool {
    secs == 0 && millis < TICKER_DELAY_MILLIS
}

/// What the ticker calls the command.
pub open spec fn ticker_label(is_ask: bool) -> Seq<char> {
    if is_ask {
        "thinking"@
    } else {
        "working"@
    }
}

/// A frame of the ticker.
pub open spec fn ticker_text(is_ask: bool, frame: nat, secs: u64) -> Seq<char> {
    "\r\x1b[96m"@ + spinner_at(frame) + "\x1b[0m "@ + ticker_label(is_ask) + "… "@ + decimal(
        secs as nat,
    ) + "s\x1b[K"@
}

/// `ticker` once it was told that the command has run for `elapsed` seconds and milliseconds.
pub open spec fn ticked(ticker: Ticker, elapsed: (u64, u32)) -> Ticker {
    if too_early(elapsed.0, elapsed.1) {
        ticker
    } else {
        Ticker { frame: ((ticker.frame % 8 + 1) % 8) as u64, shown: true, ..ticker }
    }
}

impl Ticker {
    /// The ticker over a command that has just started.
    pub fn new(is_ask: bool) -> (r: Ticker)
        ensures
            r == (Ticker { is_ask, frame: 0, shown: false }),
    {
        Ticker { is_ask, frame: 0, shown: false }
    }

    /// The frame to show `secs` seconds and `millis` milliseconds into the command; none while it
    /// is too early, so that quick commands never flash it.
    pub fn tick(&mut self, secs: u64, millis: u32) -> (r: Option<String>)
        ensures
            *final(self) == ticked(*old(self), (secs, millis)),
            r.deep_view() == if too_early(secs, millis) {
                None::<Seq<char>>
            } else {
                Some(ticker_text(old(self).is_ask, old(self).frame as nat, secs))
            },
            r is None <==> secs == 0 && millis < 350,
            r is None ==> *final(self) == *old(self),
            r is Some ==> final(self).shown && final(self).is_ask == old(self).is_ask
                && final(self).frame == (old(self).frame % 8 + 1) % 8,
    {
        if secs == 0 && millis < TICKER_DELAY_MILLIS {
            return None;
        }
        let mut out = "\r\x1b[96m".to_owned();
        out.append(spinner(self.frame));
        out.append("\x1b[0m ");
        out.append(if self.is_ask { "thinking" } else { "working" });
        out.append("… ");
        out.append(decimal_text(secs).as_str());
        out.append("s\x1b[K");
        self.shown = true;
        self.frame = (self.frame % 8 + 1) % 8;
        Some(out)
    }

    /// What to write once the command has finished: the ticker is cleared where it was shown.
    pub fn finish(&self) -> (r: Option<&'static str>)
        ensures
            r.deep_view() == if self.shown {
                Some(CLEAR_LINE@)
            } else {
                None::<Seq<char>>
            },
            r is Some <==> self.shown,
            r matches Some(text) ==> text@ == "\r\x1b[2K"@,
    {
        if self.shown {
            Some(CLEAR_LINE)
        } else {
            None
        }
    }
}

/// The lit window starts at the left end of the pulse bar, never leaves the bar, moves by exactly
/// one cell from each frame to the next, turns only at the two ends, and is back where it was after
/// a full bounce.
#[verifier::spinoff_prover]
pub proof fn law_window_bounces(frame: nat)
    ensures
        window_at(0) == 0,
        0 <= window_at(frame) <= BAR_WIDTH - BAR_WINDOW,
        window_at(frame + 2) - window_at(frame + 1) != window_at(frame + 1) - window_at(frame)
            ==> window_at(frame + 1) == 0 || window_at(frame + 1) == BAR_WIDTH - BAR_WINDOW,
        window_at(frame + 1) == window_at(frame) + 1 || window_at(frame + 1) == window_at(frame)
            - 1,
        window_at(frame + 2 * (BAR_WIDTH - BAR_WINDOW) as nat) == window_at(frame),
{
    let phase = frame as int % 22;
    let turn = |p: int| if p == 21 {
        0int
    } else {
        p + 1
    };
    assert((frame + 1) as int % 22 == turn(phase));
    assert((frame + 2) as int % 22 == turn(turn(phase)));
    assert((frame + 22) as int % 22 == phase);
    if phase < 10 {
        assert(window_at(frame + 2) - window_at(frame + 1) == 1);
    } else if phase == 10 {
        assert(window_at(frame + 1) == BAR_WIDTH - BAR_WINDOW);
    } else if phase < 21 {
        assert(window_at(frame + 1) == window_at(frame) - 1);
    } else {
        assert(window_at(frame + 1) == 0);
    }
}

/// The pulse bar always has the same number of cells, exactly `BAR_WINDOW` of which are lit, side
/// by side.
pub proof fn law_bar_has_one_window(frame: nat)
    ensures
        bar_at(frame).len() == BAR_WIDTH,
        forall|i: int|
            0 <= i < BAR_WIDTH ==> (#[trigger] bar_at(frame)[i] == '█' <==> window_at(frame) <= i
                < window_at(frame) + BAR_WINDOW),
        0 <= window_at(frame) && window_at(frame) + BAR_WINDOW <= BAR_WIDTH,
{
    law_window_bounces(frame);
}

/// `ticker` after it was told all of `elapsed`, in order.
pub open spec fn ticked_all(ticker: Ticker, elapsed: Seq<(u64, u32)>) -> Ticker
    decreases elapsed.len(),
{
    if elapsed.len() == 0 {
        ticker
    } else {
        ticked(ticked_all(ticker, elapsed.drop_last()), elapsed.last())
    }
}

/// The ticker was shown, and is cleared, exactly where the command was seen running for long
/// enough: a quick command leaves no trace of it.
pub proof fn law_quick_commands_show_no_ticker(ticker: Ticker, elapsed: Seq<(u64, u32)>)
    requires
        !ticker.shown,
    ensures
        ticked_all(ticker, elapsed).shown <==> exists|i: int|
            0 <= i < elapsed.len() && !too_early((#[trigger] elapsed[i]).0, elapsed[i].1),
    decreases elapsed.len(),
{
    if elapsed.len() > 0 {
        let before = elapsed.drop_last();
        law_quick_commands_show_no_ticker(ticker, before);
        if exists|i: int| 0 <= i < before.len() && !too_early((#[trigger] before[i]).0, before[i].1) {
            let i = choose|i: int|
                0 <= i < before.len() && !too_early((#[trigger] before[i]).0, before[i].1);
            assert(elapsed[i] == before[i]);
        }
        if exists|i: int|
            0 <= i < elapsed.len() && !too_early((#[trigger] elapsed[i]).0, elapsed[i].1) {
            let i = choose|i: int|
                0 <= i < elapsed.len() && !too_early((#[trigger] elapsed[i]).0, elapsed[i].1);
            assert(i < before.len() ==> elapsed[i] == before[i]);
        }
        assert(elapsed.last() == elapsed[elapsed.len() - 1]);
    }
}

/// The spinner goes through its eight frames in order and starts over.
pub proof fn law_spinner_turns(frame: nat)
    ensures
        spinner_at(frame) == seq![
            seq!['⣾', '⣽', '⣻', '⢿', '⡿', '⣟', '⣯', '⣷'][(frame % 8) as int],
        ],
{
    reveal_strlit("⣾⣽⣻⢿⡿⣟⣯⣷");
    assert(spinner_at(frame) =~= seq![SPINNER@[(frame % 8) as int]]);
}

/// Each status is shown for sixteen frames, they come in order, and start over after the last.
pub proof fn law_statuses_take_turns(round: nat, turn: nat, within: nat)
    requires
        turn < 7,
        within < 16,
    ensures
        status_at(112 * round + 16 * turn + within) == seq![
            "initializing clank"@,
            "clanking the parts together"@,
            "greasing the gears"@,
            "warming up the shell"@,
            "tightening the bolts"@,
            "spinning up the agent"@,
            "almost there"@,
        ][turn as int],
{
    let frame = 112 * round + 16 * turn + within;
    assert(frame / 16 == 7 * round + turn);
    assert((7 * round + turn) % 7 == turn);
}

/// The pulse bar has fourteen cells. Three of them, side by side, are lit, and all the others are not;
/// the lit ones run from one end of the bar to the other in eleven frames, and back in as many.
pub proof fn law_pulse_runs_to_and_fro(round: nat, step: nat, i: int)
    requires
        step <= 11,
        0 <= i < 14,
    ensures
        bar_at(22 * round + step).len() == 14,
        bar_at(22 * round + step)[i] == if step <= i < step + 3 {
            '█'
        } else {
            '·'
        },
        bar_at((22 * round + 22 - step) as nat) == bar_at(22 * round + step),
{
    let there = 22 * round + step;
    let back = (22 * round + 22 - step) as nat;
    assert(there as int % 22 == step);
    assert(back as int % 22 == if step == 0 {
        0int
    } else {
        22 - step
    });
    assert(window_at(there) == step);
    assert(window_at(back) == step);
    assert(bar_at(back) =~= bar_at(there));
}

/// A frame of the loader shows the spinner, the status and the pulse bar, whole and in this order, on
/// a line that it starts over and erases behind itself; with colour the escapes around them change
/// nothing else.
pub proof fn law_loader_shows_all_of_it(frame: nat)
    ensures
        loader_text(frame, false) == "\r"@ + spinner_at(frame) + " "@ + status_at(frame) + " ["@
            + bar_at(frame) + "]\x1b[K"@,
        loader_text(frame, true) == "\r\x1b[96m"@ + spinner_at(frame) + "\x1b[0m \x1b[1m"@
            + status_at(frame) + "\x1b[0m \x1b[90m▕"@ + bar_at(frame) + "▏\x1b[0m\x1b[K"@,
{
}

/// A frame of the ticker shows the spinner, what the command is doing, and for how many seconds.
pub proof fn law_ticker_shows_all_of_it(frame: nat, secs: u64)
    ensures
        ticker_text(true, frame, secs) == "\r\x1b[96m"@ + spinner_at(frame) + "\x1b[0m "@
            + "thinking"@ + "… "@ + decimal(secs as nat) + "s\x1b[K"@,
        ticker_text(false, frame, secs) == "\r\x1b[96m"@ + spinner_at(frame) + "\x1b[0m "@
            + "working"@ + "… "@ + decimal(secs as nat) + "s\x1b[K"@,
{
}

/// It is too early for the ticker in the first 350 milliseconds of a command, and never after. Until
/// then nothing changes; each time after it, the ticker is shown and its spinner moves on by one.
pub proof fn law_ticker_waits(ticker: Ticker, secs: u64, millis: u32)
    ensures
        too_early(secs, millis) <==> secs == 0 && millis < 350,
        secs == 0 && millis < 350 ==> ticked(ticker, (secs, millis)) == ticker,
        secs > 0 || millis >= 350 ==> {
            let next = ticked(ticker, (secs, millis));
            &&& next.shown
            &&& next.is_ask == ticker.is_ask
            &&& next.frame < 8
            &&& spinner_at(next.frame as nat) == spinner_at(ticker.frame as nat + 1)
        },
{
    let next = ticked(ticker, (secs, millis));
    if secs > 0 || millis >= 350 {
        assert(next.frame as nat % 8 == (ticker.frame as nat + 1) % 8);
    }
}

} // verus!
