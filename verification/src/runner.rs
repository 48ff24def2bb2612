//! The round-driven execution engine.
//!
//! A [`Runner`] owns one commander, one printer, one test port and one local
//! abstract state, and advances through a fixed cycle of phases: once through
//! `Init`, then `Command` and `Check` forever alternating.  Each call to
//! [`Runner::step`] performs exactly one phase.

use vstd::prelude::*;

verus! {

use crate::command::Command;
use crate::error::Error;
use crate::state::AbstractState;

/// How a divergence between the locally computed and the observed outcome is
/// handled; chosen per `step` call, independently for return codes and for
/// states.
#[derive(Debug, PartialEq, Eq)]
pub enum CheckLevel {
    /// Never compare, never report, never fail.
    Off,
    /// Compare; report a mismatch through the printer, but keep going.
    Relaxed,
    /// Compare; report a mismatch, then fail the step.
    Strict,
}

/// Generates the commands driven through both the model and the system under
/// test; the generation strategy is entirely the implementor's.
pub trait Commander<S: AbstractState> {
    /// The concrete command type this commander produces.
    type Cmd: Command<S>;

    /// Yields the next command to execute, or `CommandNotFound` when no
    /// valid command can be produced.
    fn command(&mut self) -> (r: Result<Self::Cmd, Error>)
        ensures
            r is Err ==> r->Err_0 == Error::CommandNotFound,
    ;
}

/// Write-only sink for the human-readable trace.
pub trait Printer {
    /// The lines printed so far, oldest first: the trace the runner's
    /// contracts speak of.  The default leaves it unspecified; a printer
    /// implementation that is itself verified overrides it, since `print`'s
    /// contract ties every call to it either way.
    open spec fn log(&self) -> Seq<Seq<char>> {
        vstd::pervasive::arbitrary()
    }

    /// Prints one line of trace output, appending it to the log.
    fn print(&mut self, s: &str)
        ensures
            final(self).log() == old(self).log().push(s@),
    ;
}

/// The channel to the system under test.
pub trait TestPort<S: AbstractState> {
    /// The state the port currently observes on the system under test: the
    /// value a successful `get_state` hands back.  The runner's contracts
    /// state resynchronization through it.  The default leaves it
    /// unspecified; a port implementation that is itself verified overrides
    /// it, since `get_state`'s contract ties the result to it either way.
    open spec fn observed(&self) -> S {
        vstd::pervasive::arbitrary()
    }

    /// Forwards a command to the system under test; fails only with a
    /// transport error.
    fn send_command<C: Command<S>>(&mut self, command: &C) -> (r: Result<(), Error>)
        ensures
            r is Err ==> r->Err_0 == Error::Transport,
    ;

    /// The return code the port currently observes on the system under
    /// test: the value `get_retv` hands back.  Unspecified by default, like
    /// `observed`.
    open spec fn observed_retv(&self) -> isize {
        vstd::pervasive::arbitrary()
    }

    /// Retrieves the return code of the last forwarded command; always
    /// yields some value, even a stale one.
    fn get_retv(&mut self) -> (r: isize)
        ensures
            r == final(self).observed_retv(),
    ;

    /// Retrieves the currently observed state, or `StateParseError` when the
    /// retrieved representation cannot be decoded; it does not disturb the
    /// observed return code.
    fn get_state(&mut self) -> (r: Result<S, Error>)
        ensures
            r is Err ==> r->Err_0 == Error::StateParseError,
            r is Ok ==> r->Ok_0 == final(self).observed(),
            final(self).observed_retv() == old(self).observed_retv(),
    ;
}

/// The phase a runner will execute on its next `step` call.
#[derive(Debug, Clone, Copy, PartialEq, Eq, Structural)]
pub enum ExecutionStep {
    /// Adopt the system under test's state as the starting ground truth.
    Init,
    /// Issue the next command to both sides.
    Command,
    /// Compare both sides' outcomes and resynchronize.
    Check,
}

/// The phase that follows `p`: `Init` is left once, and `Command` and
/// `Check` alternate from then on.
pub open spec fn next_phase(p: ExecutionStep) -> ExecutionStep {
    match p {
        ExecutionStep::Init => ExecutionStep::Command,
        ExecutionStep::Command => ExecutionStep::Check,
        ExecutionStep::Check => ExecutionStep::Command,
    }
}

/// The check-level protocol: whether a comparison outcome is reported and
/// whether it is fatal.  Only an actual mismatch is ever reported, `Off`
/// never reports and never fails, and only `Strict` fails.
pub fn divergence_outcome(level: &CheckLevel, matched: bool) -> (r: (bool, bool))
    ensures
        r.0 == (!matched && *level != CheckLevel::Off),
        r.1 == (!matched && *level == CheckLevel::Strict),
{
    match level {
        CheckLevel::Off => (false, false),
        CheckLevel::Relaxed => (!matched, false),
        CheckLevel::Strict => (!matched, !matched),
    }
}

/// The text of the banner announcing a round: what `round_banner` renders.
pub uninterp spec fn banner_of(round: usize) -> Seq<char>;

/// The text of an expected/actual return-code report: what `retv_report`
/// renders.
pub uninterp spec fn report_of(expected: isize, actual: isize) -> Seq<char>;

/// Relies on the standard `format!` machinery to render the round banner;
/// the result depends on the round number alone.
#[verifier::external_body]
fn round_banner(round: usize) -> (r: String)
    ensures
        r@ == banner_of(round),
{
    format!("[ Round {} ]", round)
}

/// Relies on the standard `format!` machinery to render an expected/actual
/// return-code pair; the result depends on the two codes alone.
#[verifier::external_body]
fn retv_report(expected: isize, actual: isize) -> (r: String)
    ensures
        r@ == report_of(expected, actual),
{
    format!("Expected: {}, Got: {}", expected, actual)
}

/// Relies on the standard `format!` machinery to render a state's `Debug`
/// form.
#[verifier::external_body]
fn debug_report<V: core::fmt::Debug>(v: &V) -> String {
    format!("{:?}", v)
}

/// The lines the `Check` phase prints about the return-code comparison:
/// nothing unless the level compares and the codes diverge, else the
/// mismatch header and the expected/actual report.
pub open spec fn retv_trace(level: CheckLevel, expected: isize, actual: isize) -> Seq<Seq<char>> {
    if level != CheckLevel::Off && actual != expected {
        seq!["Return value mismatch"@, report_of(expected, actual)]
    } else {
        Seq::empty()
    }
}

/// The shape of the lines the `Check` phase prints about a state
/// divergence: the mismatch header, then a labeled expected rendering, then
/// a labeled actual rendering.
pub open spec fn state_trace_shape(t: Seq<Seq<char>>) -> bool {
    t.len() == 5 && t[0] == "State mismatch"@ && t[1] == "Expected:"@ && t[3] == "Got:"@
}

/// The orchestrator: drives the reference model and the system under test in
/// lockstep, one phase per `step` call.
pub struct Runner<C, P, T, S> where
    C: Commander<S>,
    P: Printer,
    T: TestPort<S>,
    S: AbstractState + core::fmt::Debug,
 {
    commander: C,
    printer: P,
    test_port: T,
    state: S,
    round: usize,
    phase: ExecutionStep,
    retv: isize,
}

impl<C, P, T, S> Runner<C, P, T, S> where
    C: Commander<S>,
    P: Printer,
    T: TestPort<S>,
    S: AbstractState + core::fmt::Debug,
 {
    /// The number of rounds started so far.
    pub closed spec fn spec_round(&self) -> usize {
        self.round
    }

    /// The phase the next `step` call will execute.
    pub closed spec fn spec_phase(&self) -> ExecutionStep {
        self.phase
    }

    /// The return code the model computed for the last issued command.
    pub closed spec fn spec_retv(&self) -> isize {
        self.retv
    }

    /// The local abstract state.
    pub closed spec fn spec_state(&self) -> S {
        self.state
    }

    /// The owned test port, through whose `observed` views the contracts
    /// state resynchronization and return-code comparison.
    pub closed spec fn spec_port(&self) -> T {
        self.test_port
    }

    /// The owned commander.
    pub closed spec fn spec_commander(&self) -> C {
        self.commander
    }

    /// The owned printer, through whose `log` view the contracts state the
    /// trace.
    pub closed spec fn spec_printer(&self) -> P {
        self.printer
    }

    /// Constructs a runner that will first adopt the system under test's
    /// state, then start issuing commands.  It owns exactly the given
    /// collaborators, untouched: no method of any of them is invoked.
    pub fn new(commander: C, printer: P, test_port: T, state: S) -> (r: Self)
        ensures
            r.spec_round() == 0,
            r.spec_phase() == ExecutionStep::Init,
            r.spec_retv() == 0,
            r.spec_state() == state,
            r.spec_commander() == commander,
            r.spec_printer() == printer,
            r.spec_port() == test_port,
    {
        Runner { commander, printer, test_port, state, round: 0, phase: ExecutionStep::Init, retv: 0 }
    }

    /// The `Init` phase: adopt the observed state wholesale as ground truth
    /// and announce it — the initial-state banner, then a rendering of the
    /// adopted state.  On failure nothing is printed.
    fn init(&mut self) -> (r: Result<(), Error>)
        ensures
            final(self).round == old(self).round,
            final(self).phase == old(self).phase,
            final(self).retv == old(self).retv,
            r is Ok ==> final(self).state == final(self).test_port.observed(),
            r is Ok ==> exists|rendering: Seq<char>|
                final(self).printer.log() == old(self).printer.log().push(
                    "[ Initial State ]"@,
                ).push(rendering),
            r is Err ==> r->Err_0 == Error::StateParseError && final(self).state == old(self).state
                && final(self).printer.log() == old(self).printer.log(),
    {
        let new_state = match self.test_port.get_state() {
            Ok(s) => s,
            Err(e) => {
                return Err(e);
            },
        };
        self.state = new_state;
        self.printer.print("[ Initial State ]");
        let line = debug_report(&self.state);
        self.printer.print(line.as_str());
        proof {
            assert(self.printer.log() == old(self).printer.log().push("[ Initial State ]"@).push(
                line@,
            ));
        }
        Ok(())
    }

    /// The `Command` phase: announce the round, obtain the next command,
    /// print its description, apply it locally — recording its return code —
    /// and forward the same command to the system under test.  On transport
    /// failure the partial effects stand.
    fn command(&mut self) -> (r: Result<(), Error>)
        requires
            old(self).round < usize::MAX,
        ensures
            final(self).round == old(self).round + 1,
            final(self).phase == old(self).phase,
            r is Err ==> (r->Err_0 == Error::CommandNotFound || r->Err_0 == Error::Transport),
            r == Err::<(), Error>(Error::CommandNotFound) ==> final(self).retv == old(self).retv
                && final(self).state == old(self).state && final(self).printer.log() == old(self).printer.log().push(banner_of(old(self).round)),
            r is Ok || r == Err::<(), Error>(Error::Transport) ==> exists|c: C::Cmd|
                (
                #[trigger] c.spec_execute(old(self).state)) == (
                    final(self).retv,
                    final(self).state,
                ) && final(self).printer.log() == old(self).printer.log().push(
                    banner_of(old(self).round),
                ).push(c.spec_describe()),
    {
        let banner = round_banner(self.round);
        self.printer.print(banner.as_str());
        self.round = self.round + 1;
        let cmd = match self.commander.command() {
            Ok(c) => c,
            Err(e) => {
                return Err(e);
            },
        };
        let desc = cmd.describe();
        self.printer.print(desc.as_str());
        self.retv = cmd.execute(&mut self.state);
        let sent = self.test_port.send_command(&cmd);
        proof {
            assert(cmd.spec_execute(old(self).state) == (self.retv, self.state));
            assert(self.printer.log() == old(self).printer.log().push(
                banner_of(old(self).round),
            ).push(cmd.spec_describe()));
        }
        sent
    }

    /// The `Check` phase: compare the observed return code and state against
    /// the locally computed ones under the given check levels, report any
    /// configured divergence through the printer, and — when no error cuts
    /// the phase short — adopt the observed state wholesale as the new
    /// ground truth.
    fn check(&mut self, retv_level: CheckLevel, state_level: CheckLevel) -> (r: Result<(), Error>)
        ensures
            final(self).round == old(self).round,
            final(self).phase == old(self).phase,
            final(self).retv == old(self).retv,
            r is Ok ==> final(self).state == final(self).test_port.observed(),
            r is Err ==> final(self).state == old(self).state,
            r is Err ==> (r->Err_0 == Error::StateParseError || r->Err_0
                == Error::ReturnValueMismatch || r->Err_0 == Error::StateMismatch),
            (r == Err::<(), Error>(Error::ReturnValueMismatch)) <==> (retv_level
                == CheckLevel::Strict && final(self).test_port.observed_retv() != old(self).retv),
            r is Ok && retv_level == CheckLevel::Strict ==> final(self).test_port.observed_retv()
                == old(self).retv,
            r == Err::<(), Error>(Error::StateMismatch) ==> state_level == CheckLevel::Strict
                && !final(self).test_port.observed().spec_matches(&old(self).state),
            r is Ok && state_level == CheckLevel::Strict ==> final(self).state.spec_matches(
                &old(self).state,
            ),
            r == Err::<(), Error>(Error::ReturnValueMismatch) || r == Err::<(), Error>(
                Error::StateParseError,
            ) ==> final(self).printer.log() == old(self).printer.log() + retv_trace(
                retv_level,
                old(self).retv,
                final(self).test_port.observed_retv(),
            ),
            r == Err::<(), Error>(Error::StateMismatch) || (r is Ok && state_level
                != CheckLevel::Off && !final(self).test_port.observed().spec_matches(
                &old(self).state,
            )) ==> exists|t: Seq<Seq<char>>|
                #[trigger] state_trace_shape(t) && final(self).printer.log() == old(self).printer.log() + retv_trace(
                    retv_level,
                    old(self).retv,
                    final(self).test_port.observed_retv(),
                ) + t,
            r is Ok && (state_level == CheckLevel::Off || final(self).test_port.observed(
            ).spec_matches(&old(self).state)) ==> final(self).printer.log() == old(self).printer.log() + retv_trace(
                retv_level,
                old(self).retv,
                final(self).test_port.observed_retv(),
            ),
    {
        let test_retv = self.test_port.get_retv();
        let (report, fatal) = divergence_outcome(&retv_level, test_retv == self.retv);
        if report {
            self.printer.print("Return value mismatch");
            let line = retv_report(self.retv, test_retv);
            self.printer.print(line.as_str());
            proof {
                assert(self.printer.log() =~= old(self).printer.log() + retv_trace(
                    retv_level,
                    old(self).retv,
                    test_retv,
                ));
            }
        } else {
            proof {
                assert(self.printer.log() =~= old(self).printer.log() + retv_trace(
                    retv_level,
                    old(self).retv,
                    test_retv,
                ));
            }
        }
        if fatal {
            return Err(Error::ReturnValueMismatch);
        }
        let test_state = match self.test_port.get_state() {
            Ok(s) => s,
            Err(e) => {
                return Err(e);
            },
        };
        let matched = test_state.matches(&self.state);
        let (report, fatal) = divergence_outcome(&state_level, matched);
        if report {
            self.printer.print("State mismatch");
            self.printer.print("Expected:");
            let expected = debug_report(&self.state);
            self.printer.print(expected.as_str());
            self.printer.print("Got:");
            let got = debug_report(&test_state);
            self.printer.print(got.as_str());
            proof {
                let t = seq![
                    "State mismatch"@,
                    "Expected:"@,
                    expected@,
                    "Got:"@,
                    got@,
                ];
                assert(state_trace_shape(t));
                assert(self.printer.log() =~= old(self).printer.log() + retv_trace(
                    retv_level,
                    old(self).retv,
                    test_retv,
                ) + t);
            }
        }
        if fatal {
            return Err(Error::StateMismatch);
        }
        self.state = test_state;
        Ok(())
    }

    /// Performs exactly one phase transition.
    ///
    /// On success the runner advances to the next phase of the cycle; on
    /// failure it stays in the phase that failed, and the caller decides
    /// whether to retry or to abort the run.  A successful `Init` or `Check`
    /// phase ends with the local state replaced wholesale by the state the
    /// port reported (resynchronization to ground truth).  A mismatch error
    /// can only arise from a `Check` phase run at `Strict` level — a state
    /// mismatch exactly when the reported state did not match the model's —
    /// and leaves the local state unreplaced; and when a `Check` phase run
    /// at `Strict` state level succeeds, the freshly adopted state matched
    /// the model's previous one.
    pub fn step(&mut self, retv_level: CheckLevel, state_level: CheckLevel) -> (r: Result<
        (),
        Error,
    >)
        requires
            old(self).spec_phase() == ExecutionStep::Command ==> old(self).spec_round()
                < usize::MAX,
        ensures
            r is Ok ==> final(self).spec_phase() == next_phase(old(self).spec_phase()),
            r is Err ==> final(self).spec_phase() == old(self).spec_phase(),
            old(self).spec_phase() == ExecutionStep::Command ==> final(self).spec_round() == old(self).spec_round() + 1,
            old(self).spec_phase() != ExecutionStep::Command ==> final(self).spec_round() == old(self).spec_round() && final(self).spec_retv() == old(self).spec_retv(),
            (r == Err::<(), Error>(Error::ReturnValueMismatch)) <==> (old(self).spec_phase()
                == ExecutionStep::Check && retv_level == CheckLevel::Strict && final(self).spec_port().observed_retv() != old(self).spec_retv()),
            r == Err::<(), Error>(Error::StateMismatch) ==> old(self).spec_phase()
                == ExecutionStep::Check && state_level == CheckLevel::Strict && !final(self).spec_port().observed().spec_matches(&old(self).spec_state())
                && exists|t: Seq<Seq<char>>|
                #[trigger] state_trace_shape(t) && final(self).spec_printer().log() == old(self).spec_printer().log() + retv_trace(
                    retv_level,
                    old(self).spec_retv(),
                    final(self).spec_port().observed_retv(),
                ) + t,
            r == Err::<(), Error>(Error::CommandNotFound) ==> old(self).spec_phase()
                == ExecutionStep::Command && final(self).spec_retv() == old(self).spec_retv()
                && final(self).spec_state() == old(self).spec_state(),
            r == Err::<(), Error>(Error::Transport) ==> old(self).spec_phase()
                == ExecutionStep::Command,
            r == Err::<(), Error>(Error::StateParseError) ==> old(self).spec_phase()
                != ExecutionStep::Command,
            old(self).spec_phase() != ExecutionStep::Command && r is Ok ==> final(self).spec_state() == final(self).spec_port().observed(),
            old(self).spec_phase() == ExecutionStep::Check && r is Ok && state_level
                == CheckLevel::Strict ==> final(self).spec_state().spec_matches(
                &old(self).spec_state(),
            ),
            old(self).spec_phase() != ExecutionStep::Command && r is Err ==> final(self).spec_state() == old(self).spec_state(),
            old(self).spec_phase() == ExecutionStep::Command && (r is Ok || r == Err::<(), Error>(
                Error::Transport,
            )) ==> exists|c: C::Cmd|
                (#[trigger] c.spec_execute(old(self).spec_state())) == (
                    final(self).spec_retv(),
                    final(self).spec_state(),
                ),
    {
        match self.phase {
            ExecutionStep::Init => {
                match self.init() {
                    Ok(_) => {
                        self.phase = ExecutionStep::Command;
                        Ok(())
                    },
                    Err(e) => Err(e),
                }
            },
            ExecutionStep::Command => {
                let r = self.command();
                proof {
                    if r is Ok || r == Err::<(), Error>(Error::Transport) {
                        let c = choose|c: C::Cmd|
                            (#[trigger] c.spec_execute(old(self).state)) == (
                                self.retv,
                                self.state,
                            ) && self.printer.log() == old(self).printer.log().push(
                                banner_of(old(self).round),
                            ).push(c.spec_describe());
                        assert(c.spec_execute(old(self).spec_state()) == (
                            self.spec_retv(),
                            self.spec_state(),
                        ));
                    }
                }
                match r {
                    Ok(_) => {
                        self.phase = ExecutionStep::Check;
                        Ok(())
                    },
                    Err(e) => Err(e),
                }
            },
            ExecutionStep::Check => {
                match self.check(retv_level, state_level) {
                    Ok(_) => {
                        self.phase = ExecutionStep::Command;
                        Ok(())
                    },
                    Err(e) => Err(e),
                }
            },
        }
    }
}

} // verus!
