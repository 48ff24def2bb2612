use lockstep::{
    AbstractState, CheckLevel, Command, Commander, Error, Ident, IdentList, Printer, Runner,
    TestPort, Unmatched, Value,
};
use std::cell::RefCell;
use std::rc::Rc;

#[derive(Debug)]
struct EasyState {
    tasks: IdentList,
    control: Unmatched<usize>,
}

impl AbstractState for EasyState {
    // ghost trait item; nothing calls it at run time
    fn spec_matches(&self, other: &Self) -> bool {
        self.matches(other)
    }

    fn matches(&self, other: &Self) -> bool {
        self.tasks.matches(&other.tasks) && self.control.matches(&other.control)
    }
}

#[derive(Debug)]
enum Op {
    Spawn,
    Sched,
    Exit,
}

impl Command<EasyState> for Op {
    // ghost trait item; nothing calls it at run time
    fn spec_execute(&self, mut pre: EasyState) -> (isize, EasyState) {
        let r = self.execute(&mut pre);
        (r, pre)
    }

    fn execute(&self, state: &mut EasyState) -> isize {
        match self {
            Op::Spawn => {
                let next = state.control.0;
                state.tasks.0.push(Ident(next));
                state.control.0 = next + 1;
            }
            Op::Sched => {
                let head = state.tasks.0[0];
                state.tasks.0.remove(0);
                state.tasks.0.push(head);
            }
            Op::Exit => {
                state.tasks.0.pop();
            }
        }
        0
    }

    fn describe(&self) -> String {
        match self {
            Op::Spawn => "spawn".to_string(),
            Op::Sched => "sched".to_string(),
            Op::Exit => "exit".to_string(),
        }
    }
}

struct RoundIn(usize);

impl Commander<EasyState> for RoundIn {
    type Cmd = Op;

    fn command(&mut self) -> Result<Op, Error> {
        let ops = vec![
            "spawn", "sched", "sched", "spawn", "sched", "exit", "sched", "spawn", "exit", "exit",
        ];
        let res = ops[(self.0) % ops.len()].to_string();
        self.0 += 1;
        match res.as_str() {
            "spawn" => Ok(Op::Spawn),
            "sched" => Ok(Op::Sched),
            "exit" => Ok(Op::Exit),
            _ => Err(Error::CommandNotFound),
        }
    }
}

struct Stdout;

impl Printer for Stdout {
    fn print(&mut self, s: &str) {
        println!("{}", s);
    }
}

struct RecPrinter(Rc<RefCell<Vec<String>>>);

impl Printer for RecPrinter {
    fn print(&mut self, s: &str) {
        self.0.borrow_mut().push(s.to_string());
    }
}

fn has_line(lines: &Rc<RefCell<Vec<String>>>, pat: &str) -> bool {
    lines.borrow().iter().any(|l| l.contains(pat))
}

/// Mirrors the wire behavior of `Unmatched` fields: the tasks round-trip
/// structurally while the ignored control field reads back as its default.
struct FakeTestPort {
    state: EasyState,
    retv: isize,
}

impl TestPort<EasyState> for FakeTestPort {
    fn send_command<C: Command<EasyState>>(&mut self, command: &C) -> Result<(), Error> {
        self.retv = command.execute(&mut self.state);
        Ok(())
    }

    fn get_retv(&mut self) -> isize {
        self.retv
    }

    fn get_state(&mut self) -> Result<EasyState, Error> {
        Ok(EasyState { tasks: self.tasks_copy(), control: Unmatched(0) })
    }
}

impl FakeTestPort {
    fn tasks_copy(&self) -> IdentList {
        IdentList(self.state.tasks.0.clone())
    }
}

#[test]
fn test_runner() {
    let state0 = EasyState { tasks: IdentList(vec![Ident(0)]), control: Unmatched(1) };
    let state1 = EasyState { tasks: IdentList(vec![Ident(100)]), control: Unmatched(101) };
    let mut runner = Runner::new(RoundIn(0), Stdout, FakeTestPort { state: state1, retv: 0 }, state0);
    for _ in 0..1000 {
        println!("=====================================");
        runner
            .step(CheckLevel::Strict, CheckLevel::Strict)
            .expect("Runner Exited");
    }
}

/// A port that diverges at a chosen round by reporting an extra task.
struct DivergingPort {
    inner: FakeTestPort,
    state_reads: usize,
    diverge_at_read: usize,
}

impl TestPort<EasyState> for DivergingPort {
    fn send_command<C: Command<EasyState>>(&mut self, command: &C) -> Result<(), Error> {
        self.inner.send_command(command)
    }

    fn get_retv(&mut self) -> isize {
        self.inner.get_retv()
    }

    fn get_state(&mut self) -> Result<EasyState, Error> {
        self.state_reads += 1;
        let mut state = self.inner.get_state()?;
        if self.state_reads == self.diverge_at_read {
            state.tasks.0.push(Ident(9999));
        }
        Ok(state)
    }
}

#[test]
fn regression_diverging_state_fails_strict_step() {
    let lines = Rc::new(RefCell::new(Vec::new()));
    let state0 = EasyState { tasks: IdentList(vec![Ident(0)]), control: Unmatched(1) };
    let state1 = EasyState { tasks: IdentList(vec![Ident(100)]), control: Unmatched(101) };
    let port = DivergingPort {
        inner: FakeTestPort { state: state1, retv: 0 },
        state_reads: 0,
        // one read at Init, then one per round: the fourth read is round 3's
        diverge_at_read: 4,
    };
    let mut runner = Runner::new(RoundIn(0), RecPrinter(lines.clone()), port, state0);
    // Init
    runner.step(CheckLevel::Strict, CheckLevel::Strict).expect("init");
    // rounds 1 and 2 stay equivalent
    for _ in 0..2 {
        runner.step(CheckLevel::Strict, CheckLevel::Strict).expect("command");
        runner.step(CheckLevel::Strict, CheckLevel::Strict).expect("check");
    }
    assert!(!has_line(&lines, "State mismatch"));
    // round 3: the port reports an extra element
    runner.step(CheckLevel::Strict, CheckLevel::Strict).expect("command");
    let r = runner.step(CheckLevel::Strict, CheckLevel::Strict);
    assert_eq!(r, Err(Error::StateMismatch));
    assert!(has_line(&lines, "State mismatch"));
    assert!(has_line(&lines, "Expected:"));
    assert!(has_line(&lines, "Got:"));
}

#[derive(Debug)]
struct NumState {
    n: Value,
}

impl AbstractState for NumState {
    // ghost trait item; nothing calls it at run time
    fn spec_matches(&self, other: &Self) -> bool {
        self.matches(other)
    }

    fn matches(&self, other: &Self) -> bool {
        self.n.matches(&other.n)
    }
}

#[derive(Debug)]
enum NumOp {
    Noop,
    Bump,
}

impl Command<NumState> for NumOp {
    // ghost trait item; nothing calls it at run time
    fn spec_execute(&self, mut pre: NumState) -> (isize, NumState) {
        let r = self.execute(&mut pre);
        (r, pre)
    }

    fn execute(&self, state: &mut NumState) -> isize {
        match self {
            NumOp::Noop => {}
            NumOp::Bump => {
                state.n.0 += 1;
            }
        }
        0
    }

    fn describe(&self) -> String {
        match self {
            NumOp::Noop => "noop".to_string(),
            NumOp::Bump => "bump".to_string(),
        }
    }
}

struct Always(NumOp);

impl Commander<NumState> for Always {
    type Cmd = NumOp;

    fn command(&mut self) -> Result<NumOp, Error> {
        match self.0 {
            NumOp::Noop => Ok(NumOp::Noop),
            NumOp::Bump => Ok(NumOp::Bump),
        }
    }
}

/// A port that never changes its reported state and reports a fixed return
/// code, whatever was sent.
struct StuckPort {
    value: usize,
    retv: isize,
}

impl TestPort<NumState> for StuckPort {
    fn send_command<C: Command<NumState>>(&mut self, _command: &C) -> Result<(), Error> {
        Ok(())
    }

    fn get_retv(&mut self) -> isize {
        self.retv
    }

    fn get_state(&mut self) -> Result<NumState, Error> {
        Ok(NumState { n: Value(self.value) })
    }
}

fn run_one_round(
    commander_op: NumOp,
    port: StuckPort,
    retv_level_for_check: CheckLevel,
    state_level_for_check: CheckLevel,
    lines: Rc<RefCell<Vec<String>>>,
) -> Result<(), Error> {
    let state = NumState { n: Value(0) };
    let mut runner = Runner::new(Always(commander_op), RecPrinter(lines), port, state);
    runner.step(CheckLevel::Strict, CheckLevel::Strict).expect("init");
    runner.step(CheckLevel::Strict, CheckLevel::Strict).expect("command");
    runner.step(retv_level_for_check, state_level_for_check)
}

#[test]
fn retv_mismatch_ignored_when_off() {
    let lines = Rc::new(RefCell::new(Vec::new()));
    // locally every command returns 0; the port insists on 7
    let r = run_one_round(
        NumOp::Noop,
        StuckPort { value: 5, retv: 7 },
        CheckLevel::Off,
        CheckLevel::Off,
        lines.clone(),
    );
    assert_eq!(r, Ok(()));
    assert!(!has_line(&lines, "Return value mismatch"));
}

#[test]
fn retv_mismatch_reported_when_relaxed() {
    let lines = Rc::new(RefCell::new(Vec::new()));
    let r = run_one_round(
        NumOp::Noop,
        StuckPort { value: 5, retv: 7 },
        CheckLevel::Relaxed,
        CheckLevel::Off,
        lines.clone(),
    );
    assert_eq!(r, Ok(()));
    assert!(has_line(&lines, "Return value mismatch"));
    assert!(has_line(&lines, "Expected: 0, Got: 7"));
}

#[test]
fn retv_mismatch_fails_when_strict() {
    let lines = Rc::new(RefCell::new(Vec::new()));
    let r = run_one_round(
        NumOp::Noop,
        StuckPort { value: 5, retv: 7 },
        CheckLevel::Strict,
        CheckLevel::Off,
        lines.clone(),
    );
    assert_eq!(r, Err(Error::ReturnValueMismatch));
    assert!(has_line(&lines, "Return value mismatch"));
}

#[test]
fn state_mismatch_ignored_when_off() {
    let lines = Rc::new(RefCell::new(Vec::new()));
    // the local Bump moves the model to 6 while the port stays at 5
    let r = run_one_round(
        NumOp::Bump,
        StuckPort { value: 5, retv: 0 },
        CheckLevel::Off,
        CheckLevel::Off,
        lines.clone(),
    );
    assert_eq!(r, Ok(()));
    assert!(!has_line(&lines, "State mismatch"));
}

#[test]
fn state_mismatch_reported_when_relaxed() {
    let lines = Rc::new(RefCell::new(Vec::new()));
    let r = run_one_round(
        NumOp::Bump,
        StuckPort { value: 5, retv: 0 },
        CheckLevel::Off,
        CheckLevel::Relaxed,
        lines.clone(),
    );
    assert_eq!(r, Ok(()));
    assert!(has_line(&lines, "State mismatch"));
    assert!(has_line(&lines, "Expected:"));
    assert!(has_line(&lines, "Got:"));
}

#[test]
fn state_mismatch_fails_when_strict() {
    let lines = Rc::new(RefCell::new(Vec::new()));
    let r = run_one_round(
        NumOp::Bump,
        StuckPort { value: 5, retv: 0 },
        CheckLevel::Off,
        CheckLevel::Strict,
        lines.clone(),
    );
    assert_eq!(r, Err(Error::StateMismatch));
    assert!(has_line(&lines, "State mismatch"));
}

/// An exhausted commander surfaces `CommandNotFound` from the command phase.
struct Exhausted;

impl Commander<NumState> for Exhausted {
    type Cmd = NumOp;

    fn command(&mut self) -> Result<NumOp, Error> {
        Err(Error::CommandNotFound)
    }
}

#[test]
fn exhausted_commander_fails_command_phase() {
    let lines = Rc::new(RefCell::new(Vec::new()));
    let state = NumState { n: Value(0) };
    let port = StuckPort { value: 0, retv: 0 };
    let mut runner = Runner::new(Exhausted, RecPrinter(lines), port, state);
    runner.step(CheckLevel::Strict, CheckLevel::Strict).expect("init");
    let r = runner.step(CheckLevel::Strict, CheckLevel::Strict);
    assert_eq!(r, Err(Error::CommandNotFound));
}
