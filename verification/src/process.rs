//! The decisions of a plugin process's life cycle on the simulator side:
//! which of its output streams are turned into log records, and how the
//! process is shut down when the simulator lets go of it.
//!
//! Shutting a plugin process down alternates between work outside the
//! library (asking the process whether it still runs, sending it an abort
//! request, polling for its reply, killing it, waiting for its exit status)
//! and decisions. The decisions are the state machine `Shutdown`: the caller
//! performs each `ShutdownAction` it returns and reports what came of it as
//! the next `ShutdownEvent`.

use vstd::prelude::*;
use crate::log::Loglevel;
use crate::types::StreamCaptureMode;

verus! {

/// A standard output stream of a process.
#[derive(Clone, Copy, Debug, PartialEq, Eq, Structural)]
pub enum StdStream {
    /// The standard error stream.
    Stderr,
    /// The standard output stream.
    Stdout,
}

/// A stream of a plugin process whose lines become log records of `level`,
/// logged under the name `logger`.
#[derive(Clone, Debug, PartialEq, Eq)]
pub struct StreamProxy {
    /// The stream.
    pub stream: StdStream,
    /// The name the records are logged under.
    pub logger: String,
    /// The level of the records.
    pub level: Loglevel,
}

/// The proxy for one stream, if its mode captures it: logged under the
/// plugin's name followed by `::stderr` or `::stdout`.
pub open spec fn spec_proxy(name: Seq<char>, stream: StdStream, mode: StreamCaptureMode) -> Option<
    (StdStream, Seq<char>, Loglevel),
> {
    match mode {
        StreamCaptureMode::Capture(level) => Some(
            (
                stream,
                name + match stream {
                    StdStream::Stderr => "::stderr"@,
                    StdStream::Stdout => "::stdout"@,
                },
                level,
            ),
        ),
        _ => None,
    }
}

/// The view of a proxy: its stream, logger name and level.
pub open spec fn proxy_view(p: StreamProxy) -> (StdStream, Seq<char>, Loglevel) {
    (p.stream, p.logger@, p.level)
}

/// The proxy for one stream, if its mode captures it.
fn proxy_for(name: &str, stream: StdStream, mode: StreamCaptureMode) -> (r: Option<StreamProxy>)
    ensures
        r matches Some(p) ==> spec_proxy(name@, stream, mode) == Some(proxy_view(p)),
        r is None ==> spec_proxy(name@, stream, mode) is None,
{
    match mode {
        StreamCaptureMode::Capture(level) => {
            let mut logger = String::from_str(name);
            match stream {
                StdStream::Stderr => logger.append("::stderr"),
                StdStream::Stdout => logger.append("::stdout"),
            }
            Some(StreamProxy { stream, logger, level })
        },
        _ => None,
    }
}

/// The proxies of both streams, stderr first, each only if its mode
/// captures it.
pub open spec fn spec_proxies(name: Seq<char>, stderr_mode: StreamCaptureMode, stdout_mode: StreamCaptureMode) -> Seq<
    (StdStream, Seq<char>, Loglevel),
> {
    let e = spec_proxy(name, StdStream::Stderr, stderr_mode);
    let o = spec_proxy(name, StdStream::Stdout, stdout_mode);
    (if e is Some {
        seq![e->Some_0]
    } else {
        Seq::empty()
    }) + (if o is Some {
        seq![o->Some_0]
    } else {
        Seq::empty()
    })
}

/// The streams of the plugin named `name` that are turned into log records:
/// stderr first, then stdout, each only if its mode captures it.
pub fn stream_proxies(name: &str, stderr_mode: StreamCaptureMode, stdout_mode: StreamCaptureMode) -> (r:
    Vec<StreamProxy>)
    ensures
        r@.len() == spec_proxies(name@, stderr_mode, stdout_mode).len(),
        forall|i: int|
            0 <= i < r@.len() ==> proxy_view(#[trigger] r@[i]) == spec_proxies(
                name@,
                stderr_mode,
                stdout_mode,
            )[i],
{
    let mut r: Vec<StreamProxy> = Vec::new();
    if let Some(p) = proxy_for(name, StdStream::Stderr, stderr_mode) {
        r.push(p);
    }
    if let Some(p) = proxy_for(name, StdStream::Stdout, stdout_mode) {
        r.push(p);
    }
    r
}

} // verus!

verus! {

/// Where a shutdown stands.
#[derive(Clone, Copy, Debug, PartialEq, Eq, Structural)]
pub enum ShutdownPhase {
    /// Waiting to learn whether the process still runs.
    Querying,
    /// Waiting for the abort request to be sent.
    Aborting,
    /// Waiting for the process to acknowledge the abort.
    Awaiting,
    /// Waiting for the process to be killed.
    Killing,
    /// Waiting for the exit status of the process.
    Reaping,
    /// The exit status has been reported.
    Done,
}

/// What one poll for the process's reply found.
#[derive(Clone, Copy, Debug, PartialEq, Eq, Structural)]
pub enum PollOutcome {
    /// The shutdown timeout had expired; nothing was received.
    DeadlinePassed,
    /// The process acknowledged the abort with a success response.
    Success,
    /// Nothing, or some other response, was received.
    NotYet,
}

/// What came of the last action.
#[derive(Clone, Copy, Debug, PartialEq, Eq, Structural)]
pub enum ShutdownEvent {
    /// Whether the process is still running.
    ChildRunning(bool),
    /// The abort request was sent.
    AbortSent,
    /// A poll for the reply was made.
    Polled(PollOutcome),
    /// The process was killed.
    Killed,
    /// The process exited, with the given status code, or by a signal.
    Exited(Option<i32>),
}

/// What the caller is to do next.
#[derive(Clone, Copy, Debug, PartialEq, Eq, Structural)]
pub enum ShutdownAction {
    /// Send the process an abort request.
    SendAbort,
    /// Poll for the reply to the abort request (or find that the timeout
    /// expired).
    Poll,
    /// Sleep for the given number of milliseconds, then poll again.
    SleepThenPoll(u64),
    /// Kill the process.
    Kill,
    /// Wait for the process to exit.
    Wait,
    /// Report how the process exited (see `exit_report`); the shutdown is
    /// over.
    Report(Option<i32>),
    /// The event does not belong to the phase; nothing is to be done.
    Ignore,
}

/// The state of a shutdown: its phase, and whether the shutdown timeout is
/// a finite duration (`timed`) or infinite.
pub struct Shutdown {
    /// The phase.
    pub phase: ShutdownPhase,
    /// Whether the process is given a finite time to acknowledge the abort.
    pub timed: bool,
}

/// The next phase and the action, given the phase, the kind of timeout and
/// the event.
pub open spec fn spec_step(phase: ShutdownPhase, timed: bool, event: ShutdownEvent) -> (
    ShutdownPhase,
    ShutdownAction,
) {
    match (phase, event) {
        (ShutdownPhase::Querying, ShutdownEvent::ChildRunning(running)) => if running {
            (ShutdownPhase::Aborting, ShutdownAction::SendAbort)
        } else {
            (ShutdownPhase::Reaping, ShutdownAction::Wait)
        },
        (ShutdownPhase::Aborting, ShutdownEvent::AbortSent) => if timed {
            (ShutdownPhase::Awaiting, ShutdownAction::Poll)
        } else {
            (ShutdownPhase::Reaping, ShutdownAction::Wait)
        },
        (ShutdownPhase::Awaiting, ShutdownEvent::Polled(outcome)) => match outcome {
            PollOutcome::DeadlinePassed => (ShutdownPhase::Killing, ShutdownAction::Kill),
            PollOutcome::Success => (ShutdownPhase::Reaping, ShutdownAction::Wait),
            PollOutcome::NotYet => (ShutdownPhase::Awaiting, ShutdownAction::SleepThenPoll(10)),
        },
        (ShutdownPhase::Killing, ShutdownEvent::Killed) => (
            ShutdownPhase::Reaping,
            ShutdownAction::Wait,
        ),
        (ShutdownPhase::Reaping, ShutdownEvent::Exited(code)) => (
            ShutdownPhase::Done,
            ShutdownAction::Report(code),
        ),
        _ => (phase, ShutdownAction::Ignore),
    }
}

impl Shutdown {
    /// A shutdown that starts by asking whether the process still runs.
    pub fn new(timed: bool) -> (r: Shutdown)
        ensures
            r.phase == ShutdownPhase::Querying,
            r.timed == timed,
    {
        Shutdown { phase: ShutdownPhase::Querying, timed }
    }

    /// Takes in what came of the last action and decides the next one: a
    /// running process is sent an abort request; with a finite timeout the
    /// reply is polled for every 10 ms until it is a success response or the
    /// timeout expires, in which case the process is killed; then its exit
    /// status is awaited and reported.
    pub fn step(&mut self, event: ShutdownEvent) -> (action: ShutdownAction)
        ensures
            (final(self).phase, action) == spec_step(old(self).phase, old(self).timed, event),
            final(self).timed == old(self).timed,
    {
        let (phase, action) = match (self.phase, event) {
            (ShutdownPhase::Querying, ShutdownEvent::ChildRunning(running)) => if running {
                (ShutdownPhase::Aborting, ShutdownAction::SendAbort)
            } else {
                (ShutdownPhase::Reaping, ShutdownAction::Wait)
            },
            (ShutdownPhase::Aborting, ShutdownEvent::AbortSent) => if self.timed {
                (ShutdownPhase::Awaiting, ShutdownAction::Poll)
            } else {
                (ShutdownPhase::Reaping, ShutdownAction::Wait)
            },
            (ShutdownPhase::Awaiting, ShutdownEvent::Polled(outcome)) => match outcome {
                PollOutcome::DeadlinePassed => (ShutdownPhase::Killing, ShutdownAction::Kill),
                PollOutcome::Success => (ShutdownPhase::Reaping, ShutdownAction::Wait),
                PollOutcome::NotYet => (ShutdownPhase::Awaiting, ShutdownAction::SleepThenPoll(10)),
            },
            (ShutdownPhase::Killing, ShutdownEvent::Killed) => (
                ShutdownPhase::Reaping,
                ShutdownAction::Wait,
            ),
            (ShutdownPhase::Reaping, ShutdownEvent::Exited(code)) => (
                ShutdownPhase::Done,
                ShutdownAction::Report(code),
            ),
            _ => (self.phase, ShutdownAction::Ignore),
        };
        self.phase = phase;
        action
    }
}

/// The decimal digit of a number below ten.
pub open spec fn digit(d: int) -> char {
    ('0' as int + d) as char
}

/// The decimal digits of a natural number, without leading zeros.
pub open spec fn digits(n: nat) -> Seq<char>
    decreases n,
{
    if n < 10 {
        seq![digit(n as int)]
    } else {
        digits(n / 10).push(digit((n % 10) as int))
    }
}

/// The decimal text of an integer, as `Display` writes it: a minus sign for
/// a negative number, then the digits of its magnitude.
pub open spec fn decimal(x: i32) -> Seq<char> {
    if x < 0 {
        seq!['-'] + digits((-x) as nat)
    } else {
        digits(x as nat)
    }
}

/// The text of one decimal digit.
fn digit_str(d: u32) -> (r: &'static str)
    requires
        d < 10,
    ensures
        r@ == seq![digit(d as int)],
{
    match d {
        0 => {
            proof {
                reveal_strlit("0");
            }
            "0"
        },
        1 => {
            proof {
                reveal_strlit("1");
            }
            "1"
        },
        2 => {
            proof {
                reveal_strlit("2");
            }
            "2"
        },
        3 => {
            proof {
                reveal_strlit("3");
            }
            "3"
        },
        4 => {
            proof {
                reveal_strlit("4");
            }
            "4"
        },
        5 => {
            proof {
                reveal_strlit("5");
            }
            "5"
        },
        6 => {
            proof {
                reveal_strlit("6");
            }
            "6"
        },
        7 => {
            proof {
                reveal_strlit("7");
            }
            "7"
        },
        8 => {
            proof {
                reveal_strlit("8");
            }
            "8"
        },
        _ => {
            proof {
                reveal_strlit("9");
            }
            "9"
        },
    }
}

/// Appends the decimal digits of a natural number to the text.
fn append_digits(s: &mut String, n: u32)
    ensures
        final(s)@ == old(s)@ + digits(n as nat),
    decreases n,
{
    if n < 10 {
        s.append(digit_str(n));
    } else {
        append_digits(s, n / 10);
        s.append(digit_str(n % 10));
        assert(s@ =~= old(s)@ + digits(n as nat));
    }
}

/// Writes an integer in decimal, as `Display` writes it: a minus sign for a
/// negative number, then the digits of its magnitude without leading zeros.
fn i32_to_string(x: i32) -> (r: String)
    ensures
        r@ == decimal(x),
{
    let mut s = String::new();
    if x < 0 {
        proof {
            reveal_strlit("-");
        }
        s.append("-");
        let magnitude: u32 = (-(x as i64)) as u32;
        append_digits(&mut s, magnitude);
    } else {
        append_digits(&mut s, x as u32);
    }
    s
}

/// The level and text of the report on how the process exited.
pub open spec fn spec_exit_report(code: Option<i32>) -> (Loglevel, Seq<char>) {
    match code {
        Some(c) => (
            if c > 0 {
                Loglevel::Warn
            } else {
                Loglevel::Info
            },
            "PluginProcess exited with status code: "@ + decimal(c),
        ),
        None => (Loglevel::Warn, "PluginProcess terminated by signal"@),
    }
}

/// The level and text of the report on how the process exited: a warning
/// for a positive status code or a signal, a note of level `Info` for a
/// status code of zero or below.
pub fn exit_report(code: Option<i32>) -> (r: (Loglevel, String))
    ensures
        (r.0, r.1@) == spec_exit_report(code),
        code matches Some(c) ==> (r.0 == Loglevel::Warn <==> c > 0),
        code matches Some(c) ==> (r.0 == Loglevel::Info <==> c <= 0),
        code matches Some(c) ==> r.1@ == "PluginProcess exited with status code: "@ + decimal(c),
        code is None ==> r.0 == Loglevel::Warn,
{
    match code {
        Some(c) => {
            let mut msg = String::from_str("PluginProcess exited with status code: ");
            msg.append(i32_to_string(c).as_str());
            if c > 0 {
                (Loglevel::Warn, msg)
            } else {
                (Loglevel::Info, msg)
            }
        },
        None => (Loglevel::Warn, String::from_str("PluginProcess terminated by signal")),
    }
}

/// A positive status code, or a signal, is reported as a warning; a status
/// code of zero or below as a note of level `Info`. The text names the
/// status code in decimal.
pub proof fn law_exit_report_levels(code: Option<i32>)
    ensures
        code matches Some(c) ==> (spec_exit_report(code).0 == Loglevel::Warn <==> c > 0),
        code matches Some(c) ==> (spec_exit_report(code).0 == Loglevel::Info <==> c <= 0),
        code matches Some(c) ==> spec_exit_report(code).1 == "PluginProcess exited with status code: "@
            + decimal(c),
        code is None ==> spec_exit_report(code).0 == Loglevel::Warn,
{
}

/// The decimal digits of a number spell it: read back as a decimal
/// number, they give the number.
pub proof fn law_digits_read_back(n: nat)
    ensures
        crate::cli::all_digits(digits(n)),
        crate::cli::digits_value(digits(n)) == n,
        digits(n).len() > 0,
    decreases n,
{
    if n < 10 {
        let d = digits(n);
        assert(d.drop_last() =~= Seq::<char>::empty());
        assert(crate::cli::digits_value(d.drop_last()) == 0);
        assert(d.last() as int - '0' as int == n);
        assert(crate::cli::digits_value(d) == crate::cli::digits_value(d.drop_last()) * 10 + (d.last() as int - '0' as int));
    } else {
        law_digits_read_back(n / 10);
        let d = digits(n);
        assert(d.drop_last() =~= digits(n / 10));
        assert(d.last() as int - '0' as int == n % 10);
        assert((n / 10) * 10 + n % 10 == n) by (nonlinear_arith);
        assert(crate::cli::digits_value(d) == crate::cli::digits_value(d.drop_last()) * 10 + (d.last() as int - '0' as int));
        assert(crate::cli::all_digits(d)) by {
            assert forall|i: int| 0 <= i < d.len() implies '0' <= #[trigger] d[i] <= '9' by {
                if i < d.len() - 1 {
                    assert(d[i] == digits(n / 10)[i]);
                }
            }
        }
    }
}

/// The decimal text of an integer reads back as the integer: a minus sign
/// exactly for a negative number, followed by digits whose value is the
/// magnitude.
pub proof fn law_decimal_read_back(x: i32)
    ensures
        x < 0 ==> decimal(x)[0] == '-' && crate::cli::all_digits(decimal(x).drop_first())
            && crate::cli::digits_value(decimal(x).drop_first()) == -x,
        x >= 0 ==> crate::cli::all_digits(decimal(x)) && crate::cli::digits_value(decimal(x)) == x,
{
    if x < 0 {
        law_digits_read_back((-x) as nat);
        assert(decimal(x).drop_first() =~= digits((-x) as nat));
    } else {
        law_digits_read_back(x as nat);
    }
}

/// The process is killed only after the timeout expired while its
/// acknowledgement was awaited, which happens only with a finite timeout;
/// a process found not running is neither sent an abort nor killed.
pub proof fn law_kill_only_after_deadline(phase: ShutdownPhase, timed: bool, event: ShutdownEvent)
    ensures
        spec_step(phase, timed, event).1 == ShutdownAction::Kill ==> phase == ShutdownPhase::Awaiting
            && event == ShutdownEvent::Polled(PollOutcome::DeadlinePassed),
        phase != ShutdownPhase::Awaiting && spec_step(phase, timed, event).0
            == ShutdownPhase::Awaiting ==> timed,
        phase == ShutdownPhase::Querying && event == ShutdownEvent::ChildRunning(false) ==> spec_step(
            phase,
            timed,
            event,
        ) == (ShutdownPhase::Reaping, ShutdownAction::Wait),
{
}

/// Every phase but the end moves on: each has an event that leaves it, and
/// the end is reached only by reporting the exit status.
pub proof fn law_shutdown_progress(phase: ShutdownPhase, timed: bool, event: ShutdownEvent)
    ensures
        phase != ShutdownPhase::Done ==> exists|e: ShutdownEvent| #[trigger]
            spec_step(phase, timed, e).0 != phase,
        spec_step(phase, timed, event).0 == ShutdownPhase::Done && phase != ShutdownPhase::Done
            ==> spec_step(phase, timed, event).1 is Report,
        phase == ShutdownPhase::Done ==> spec_step(phase, timed, event) == (phase, ShutdownAction::Ignore),
{
    match phase {
        ShutdownPhase::Querying => {
            assert(spec_step(phase, timed, ShutdownEvent::ChildRunning(true)).0 != phase);
        },
        ShutdownPhase::Aborting => {
            assert(spec_step(phase, timed, ShutdownEvent::AbortSent).0 != phase);
        },
        ShutdownPhase::Awaiting => {
            assert(spec_step(phase, timed, ShutdownEvent::Polled(PollOutcome::Success)).0 != phase);
        },
        ShutdownPhase::Killing => {
            assert(spec_step(phase, timed, ShutdownEvent::Killed).0 != phase);
        },
        ShutdownPhase::Reaping => {
            assert(spec_step(phase, timed, ShutdownEvent::Exited(None)).0 != phase);
        },
        ShutdownPhase::Done => {},
    }
}

/// What each action of a shutdown answers: an abort goes only to a process
/// found running; the process is polled at once after the abort when the
/// timeout is finite, and again every 10 ms while no reply came; the exit is
/// awaited once the process is known not to run, acknowledged the abort,
/// was killed, or was sent the abort with an infinite timeout; and the
/// report carries the exit status that was observed.
pub proof fn law_shutdown_actions(phase: ShutdownPhase, timed: bool, event: ShutdownEvent)
    ensures
        spec_step(phase, timed, event).1 == ShutdownAction::SendAbort <==> phase
            == ShutdownPhase::Querying && event == ShutdownEvent::ChildRunning(true),
        spec_step(phase, timed, event).1 == ShutdownAction::Poll <==> phase == ShutdownPhase::Aborting
            && event == ShutdownEvent::AbortSent && timed,
        spec_step(phase, timed, event).1 matches ShutdownAction::SleepThenPoll(ms) ==> ms == 10
            && phase == ShutdownPhase::Awaiting && event == ShutdownEvent::Polled(
            PollOutcome::NotYet,
        ),
        phase == ShutdownPhase::Awaiting && event == ShutdownEvent::Polled(PollOutcome::NotYet)
            ==> spec_step(phase, timed, event) == (phase, ShutdownAction::SleepThenPoll(10)),
        spec_step(phase, timed, event).1 == ShutdownAction::Wait <==> (phase == ShutdownPhase::Querying
            && event == ShutdownEvent::ChildRunning(false)) || (phase == ShutdownPhase::Aborting
            && event == ShutdownEvent::AbortSent && !timed) || (phase == ShutdownPhase::Awaiting
            && event == ShutdownEvent::Polled(PollOutcome::Success)) || (phase
            == ShutdownPhase::Killing && event == ShutdownEvent::Killed),
        spec_step(phase, timed, event).1 matches ShutdownAction::Report(code) ==> phase
            == ShutdownPhase::Reaping && event == ShutdownEvent::Exited(code),
        phase == ShutdownPhase::Reaping ==> (event matches ShutdownEvent::Exited(code)
            ==> spec_step(phase, timed, event).1 == ShutdownAction::Report(code)),
{
}

/// A plugin gets one log proxy for each of its captured streams, stderr
/// first: it logs under the plugin's name followed by `::stderr` or
/// `::stdout`, at the level the stream is captured at; a stream that is
/// discarded or passed through gets none.
pub proof fn law_stream_proxies(name: Seq<char>, stderr_mode: StreamCaptureMode, stdout_mode: StreamCaptureMode)
    ensures
        spec_proxies(name, stderr_mode, stdout_mode).len() == (if stderr_mode is Capture {
            1int
        } else {
            0int
        }) + (if stdout_mode is Capture {
            1int
        } else {
            0int
        }),
        stderr_mode matches StreamCaptureMode::Capture(l) ==> spec_proxies(
            name,
            stderr_mode,
            stdout_mode,
        )[0] == (StdStream::Stderr, name + "::stderr"@, l),
        stdout_mode matches StreamCaptureMode::Capture(l) ==> spec_proxies(
            name,
            stderr_mode,
            stdout_mode,
        ).last() == (StdStream::Stdout, name + "::stdout"@, l),
{
}

} // verus!
