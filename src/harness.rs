use vstd::prelude::*;
use vstd::string::StringSliceAdditionalSpecFns;

use crate::values::QemuExitCode;
use crate::vga_buffer::{ConsoleView, Writer};

verus! {

/// Where a test run stands.
#[derive(Clone, Copy, PartialEq, Eq, Structural, Debug)]
pub enum RunState {
    Idle,
    Running(usize),
    AllPassed,
    Halted,
}

/// What the environment tells a test run: start, or the current test returned or faulted.
#[derive(Clone, Copy, PartialEq, Eq, Structural, Debug)]
pub enum RunEvent {
    Start,
    Returned,
    Faulted,
}

/// What a test run asks of the environment, in order.
#[derive(Clone, Copy, PartialEq, Eq, Structural, Debug)]
pub enum Report {
    /// Announce how many tests there are.
    Count(usize),
    /// Print the name of the test with this index, then invoke it.
    Begin(usize),
    /// Print the pass marker.
    Pass,
    /// Print the failure marker.
    Fail,
    /// Signal this exit code to the hosting machine.
    Exit(QemuExitCode),
}

/// The next state and the reports of a run of `total` tests in state `s` on event `e`.
pub open spec fn run_step(total: nat, s: RunState, e: RunEvent) -> (RunState, Seq<Report>) {
    match (s, e) {
        (RunState::Idle, RunEvent::Start) => {
            if total == 0 {
                (
                    RunState::AllPassed,
                    seq![Report::Count(0), Report::Exit(QemuExitCode::Success)],
                )
            } else {
                (RunState::Running(0), seq![Report::Count(total as usize), Report::Begin(0)])
            }
        },
        (RunState::Running(i), RunEvent::Returned) => {
            if i + 1 < total {
                (RunState::Running((i + 1) as usize), seq![Report::Pass, Report::Begin((i + 1) as usize)])
            } else {
                (RunState::AllPassed, seq![Report::Pass, Report::Exit(QemuExitCode::Success)])
            }
        },
        (RunState::Running(i), RunEvent::Faulted) => {
            (RunState::Halted, seq![Report::Fail, Report::Exit(QemuExitCode::Failed)])
        },
        _ => (s, seq![]),
    }
}

/// A run over a fixed number of tests, taken one after another; the first
/// fault ends it.
pub struct TestRun {
    total: usize,
    state: RunState,
}

impl TestRun {
    pub open spec fn wf(self) -> bool {
        match self.spec_state() {
            RunState::Running(i) => i < self.spec_total(),
            _ => true,
        }
    }

    pub closed spec fn spec_total(self) -> nat {
        self.total as nat
    }

    pub closed spec fn spec_state(self) -> RunState {
        self.state
    }

    pub fn new(total: usize) -> (r: TestRun)
        ensures
            r.wf(),
            r.spec_total() == total,
            r.spec_state() == RunState::Idle,
    {
        TestRun { total, state: RunState::Idle }
    }

    pub fn state(&self) -> (r: RunState)
        ensures
            r == self.spec_state(),
    {
        self.state
    }

    pub fn total(&self) -> (r: usize)
        ensures
            r == self.spec_total(),
    {
        self.total
    }

    /// Takes event `e`, moves to the next state and returns what to do.
    pub fn step(&mut self, e: RunEvent) -> (out: Vec<Report>)
        requires
            old(self).wf(),
        ensures
            final(self).wf(),
            final(self).spec_total() == old(self).spec_total(),
            (final(self).spec_state(), out@) == run_step(
                old(self).spec_total(),
                old(self).spec_state(),
                e,
            ),
    {
        match (self.state, e) {
            (RunState::Idle, RunEvent::Start) => {
                if self.total == 0 {
                    self.state = RunState::AllPassed;
                    let out = vec![Report::Count(0), Report::Exit(QemuExitCode::Success)];
                    assert(out@ =~= seq![Report::Count(0), Report::Exit(QemuExitCode::Success)]);
                    out
                } else {
                    self.state = RunState::Running(0);
                    let out = vec![Report::Count(self.total), Report::Begin(0)];
                    assert(out@ =~= seq![Report::Count(self.total), Report::Begin(0)]);
                    out
                }
            },
            (RunState::Running(i), RunEvent::Returned) => {
                if i + 1 < self.total {
                    self.state = RunState::Running(i + 1);
                    let out = vec![Report::Pass, Report::Begin(i + 1)];
                    assert(out@ =~= seq![Report::Pass, Report::Begin((i + 1) as usize)]);
                    out
                } else {
                    self.state = RunState::AllPassed;
                    let out = vec![Report::Pass, Report::Exit(QemuExitCode::Success)];
                    assert(out@ =~= seq![Report::Pass, Report::Exit(QemuExitCode::Success)]);
                    out
                }
            },
            (RunState::Running(_), RunEvent::Faulted) => {
                self.state = RunState::Halted;
                let out = vec![Report::Fail, Report::Exit(QemuExitCode::Failed)];
                assert(out@ =~= seq![Report::Fail, Report::Exit(QemuExitCode::Failed)]);
                out
            },
            _ => {
                let out: Vec<Report> = Vec::new();
                assert(out@ =~= seq![]);
                out
            },
        }
    }
}

/// A fault ends the run: the failure marker and the failed exit code are
/// reported, and once halted no event begins another test or reports anything.
pub proof fn lemma_fault_is_final(total: nat, i: usize, e: RunEvent)
    requires
        i < total,
    ensures
        run_step(total, RunState::Running(i), RunEvent::Faulted) == (
        RunState::Halted,
        seq![Report::Fail, Report::Exit(QemuExitCode::Failed)],
        ),
        run_step(total, RunState::Halted, e) == (RunState::Halted, Seq::<Report>::empty()),
{
    assert(seq![] =~= Seq::<Report>::empty());
}

/// The decimal digits of `n`, most significant first, as ASCII bytes.
pub open spec fn decimal(n: nat) -> Seq<u8>
    decreases n,
{
    if n < 10 {
        seq![(48 + n) as u8]
    } else {
        decimal(n / 10).push((48 + n % 10) as u8)
    }
}

/// What the console shows for report `rep`; `name` is the name of the test it begins, if any.
pub open spec fn report_bytes(rep: Report, name: Seq<u8>) -> Seq<u8> {
    match rep {
        Report::Count(n) => "Running ".spec_bytes() + decimal(n as nat) + " tests\n".spec_bytes(),
        Report::Begin(_) => name + "...\t\n".spec_bytes(),
        Report::Pass => "[ok]\n".spec_bytes(),
        Report::Fail => "[failed]\n\n".spec_bytes(),
        Report::Exit(_) => seq![],
    }
}

/// The exit code of the last `Exit` report in `reps`, if there is one.
pub open spec fn exit_of(reps: Seq<Report>) -> Option<QemuExitCode>
    decreases reps.len(),
{
    if reps.len() == 0 {
        None
    } else {
        match reps.last() {
            Report::Exit(c) => Some(c),
            _ => exit_of(reps.drop_last()),
        }
    }
}

/// Writes the decimal digits of `n`.
pub fn write_decimal(console: &mut Writer, n: usize)
    requires
        old(console)@.wf(),
    ensures
        final(console)@ == old(console)@.write_bytes(decimal(n as nat)),
        final(console)@.wf(),
    decreases n,
{
    let ghost v0 = console@;
    if n >= 10 {
        write_decimal(console, n / 10);
    }
    console.write_byte(48 + (n % 10) as u8);
    proof {
        let d = decimal(n as nat);
        assert(d.len() > 0);
        assert(d.last() == 48 + (n % 10) as u8);
        if n >= 10 {
            assert(d.drop_last() =~= decimal((n / 10) as nat));
        } else {
            assert(d.drop_last() =~= Seq::<u8>::empty());
            assert(v0.write_bytes(d.drop_last()) == v0);
        }
        assert(v0.write_bytes(d) == v0.write_bytes(d.drop_last()).write_byte(d.last()));
    }
}

/// Shows report `rep` on the console; `name` is used by `Begin` alone.
pub fn show_report(console: &mut Writer, rep: Report, name: &str)
    requires
        old(console)@.wf(),
    ensures
        final(console)@ == old(console)@.write_bytes(report_bytes(rep, name.spec_bytes())),
        final(console)@.wf(),
{
    match rep {
        Report::Count(n) => {
            let ghost v0 = console@;
            console.write_string("Running ");
            write_decimal(console, n);
            console.write_string(" tests\n");
            proof {
                crate::console_laws::lemma_write_bytes_concat(v0, "Running ".spec_bytes(), decimal(n as nat));
                crate::console_laws::lemma_write_bytes_concat(
                    v0,
                    "Running ".spec_bytes() + decimal(n as nat),
                    " tests\n".spec_bytes(),
                );
            }
        },
        Report::Begin(_) => {
            let ghost v0 = console@;
            console.write_string(name);
            console.write_string("...\t\n");
            proof {
                crate::console_laws::lemma_write_bytes_concat(v0, name.spec_bytes(), "...\t\n".spec_bytes());
            }
        },
        Report::Pass => {
            console.write_string("[ok]\n");
        },
        Report::Fail => {
            console.write_string("[failed]\n\n");
        },
        Report::Exit(_) => {
            assert(console@.write_bytes(seq![]) == console@);
        },
    }
}

/// Writes the failure marker and `message` after `Error: `, and gives the
/// exit code that ends a run with a fault.
pub fn report_failure(console: &mut Writer, message: &str) -> (r: QemuExitCode)
    requires
        old(console)@.wf(),
    ensures
        r == QemuExitCode::Failed,
        final(console)@ == old(console)@.write_bytes(
            report_bytes(Report::Fail, seq![]) + "Error: ".spec_bytes() + message.spec_bytes()
                + "\n\n".spec_bytes(),
        ),
        final(console)@.wf(),
{
    let ghost v0 = console@;
    show_report(console, Report::Fail, "");
    console.write_string("Error: ");
    console.write_string(message);
    console.write_string("\n\n");
    proof {
        let f = report_bytes(Report::Fail, seq![]);
        crate::console_laws::lemma_write_bytes_concat(v0, f, "Error: ".spec_bytes());
        crate::console_laws::lemma_write_bytes_concat(v0, f + "Error: ".spec_bytes(), message.spec_bytes());
        crate::console_laws::lemma_write_bytes_concat(
            v0,
            f + "Error: ".spec_bytes() + message.spec_bytes(),
            "\n\n".spec_bytes(),
        );
    }
    QemuExitCode::Failed
}

/// A test procedure with a name to report it by.
pub trait Testable {
    fn name(&self) -> String;

    /// Runs the procedure; a failing one does not return here.
    fn run(&self);
}

/// The text of `reps`, the `j`-th shown with name `names[j]`.
pub open spec fn reports_text(reps: Seq<Report>, names: Seq<Seq<u8>>) -> Seq<u8>
    decreases reps.len(),
{
    if reps.len() == 0 || names.len() == 0 {
        seq![]
    } else {
        reports_text(reps.drop_last(), names.drop_last()) + report_bytes(reps.last(), names.last())
    }
}

/// For each test that passed, in order: its name, the begin suffix, the pass marker.
pub open spec fn passed_text(names: Seq<Seq<u8>>) -> Seq<u8>
    decreases names.len(),
{
    if names.len() == 0 {
        seq![]
    } else {
        passed_text(names.drop_last()) + report_bytes(Report::Begin(0), names.last())
            + report_bytes(Report::Pass, seq![])
    }
}

/// What the console shows after a run of `total` tests whose names were
/// `names` returned, one after another.
pub open spec fn run_text(total: nat, names: Seq<Seq<u8>>) -> Seq<u8> {
    report_bytes(Report::Count(total as usize), seq![]) + passed_text(names)
}

proof fn lemma_reports_text_pair(a: Report, b: Report, names: Seq<Seq<u8>>)
    requires
        names.len() == 2,
    ensures
        reports_text(seq![a, b], names) == report_bytes(a, names[0]) + report_bytes(b, names[1]),
{
    let reps = seq![a, b];
    assert(reps.drop_last() =~= seq![a]);
    assert(reps.drop_last().drop_last() =~= Seq::<Report>::empty());
    assert(names.drop_last().drop_last() =~= Seq::<Seq<u8>>::empty());
    let one = seq![a];
    assert(one.drop_last() =~= Seq::<Report>::empty());
    assert(one.last() == a);
    assert(names.drop_last().last() == names[0]);
    assert(reports_text(one.drop_last(), names.drop_last().drop_last()) =~= Seq::<u8>::empty());
    assert(reports_text(one, names.drop_last()) =~= report_bytes(a, names[0]));
    assert(reps.last() == b);
}

/// Shows each of `reports` in order, naming tests from `tests`, and gives the
/// exit code the reports ask for, if any, with the name each report was shown with.
fn show_reports<T: Testable>(console: &mut Writer, reports: &Vec<Report>, tests: &[T]) -> (r: (
    Option<QemuExitCode>,
    Ghost<Seq<Seq<u8>>>,
))
    requires
        old(console)@.wf(),
    ensures
        final(console)@.wf(),
        r.0 == exit_of(reports@),
        r.1@.len() == reports@.len(),
        final(console)@ == old(console)@.write_bytes(reports_text(reports@, r.1@)),
{
    let mut j: usize = 0;
    let mut exit: Option<QemuExitCode> = None;
    let ghost mut names: Seq<Seq<u8>> = seq![];
    while j < reports.len()
        invariant
            j <= reports@.len(),
            console@.wf(),
            exit == exit_of(reports@.subrange(0, j as int)),
            names.len() == j,
            console@ == old(console)@.write_bytes(reports_text(reports@.subrange(0, j as int), names)),
        decreases reports@.len() - j,
    {
        let rep = reports[j];
        let ghost before = console@;
        let ghost mut shown: Seq<u8> = seq![];
        proof {
            assert(reports@.subrange(0, j + 1).drop_last() =~= reports@.subrange(0, j as int));
        }
        match rep {
            Report::Begin(i) => {
                if i < tests.len() {
                    let name = tests[i].name();
                    let nm: &str = name.as_str();
                    show_report(console, rep, nm);
                    proof {
                        shown = nm.spec_bytes();
                    }
                } else {
                    show_report(console, rep, "");
                    proof {
                        shown = "".spec_bytes();
                    }
                }
            },
            Report::Exit(c) => {
                exit = Some(c);
                assert(before.write_bytes(report_bytes(rep, shown)) == before);
            },
            _ => {
                show_report(console, rep, "");
                proof {
                    shown = "".spec_bytes();
                }
            },
        }
        proof {
            let prev = reports_text(reports@.subrange(0, j as int), names);
            let next = names.push(shown);
            assert(next.drop_last() =~= names);
            crate::console_laws::lemma_write_bytes_concat(old(console)@, prev, report_bytes(rep, shown));
            names = next;
        }
        j += 1;
    }
    assert(reports@.subrange(0, j as int) =~= reports@);
    (exit, Ghost(names))
}

/// Runs `tests` in order, announcing their number, each one's name before it
/// runs and the pass marker after it returns, and gives the exit code that
/// ends the run. A test that faults does not return, and the fault path
/// finishes the run; so when every test returns the run has passed, and the
/// console shows the count and, for each test, the name it gave and the pass
/// marker.
pub fn test_runner<T: Testable>(tests: &[T], console: &mut Writer) -> (r: QemuExitCode)
    requires
        old(console)@.wf(),
    ensures
        r == QemuExitCode::Success,
        final(console)@.wf(),
        exists|names: Seq<Seq<u8>>|
            names.len() == tests@.len() && final(console)@ == old(console)@.write_bytes(
                #[trigger] run_text(tests@.len() as nat, names),
            ),
{
    let ghost c0 = console@;
    let n = tests.len();
    let mut run = TestRun::new(n);
    let reports = run.step(RunEvent::Start);
    let (first_exit, Ghost(shown)) = show_reports(console, &reports, tests);
    let mut exit = first_exit;
    let ghost mut names: Seq<Seq<u8>> = seq![];
    proof {
        reveal_with_fuel(exit_of, 3);
        let count = report_bytes(Report::Count(n), seq![]);
        lemma_reports_text_pair(reports@[0], reports@[1], shown);
        if n == 0 {
            assert(reports_text(reports@, shown) =~= run_text(0, names));
        } else {
            names = seq![shown[1]];
            assert(names.drop_last() =~= Seq::<Seq<u8>>::empty());
            assert(reports_text(reports@, shown) =~= run_text(n as nat, Seq::empty()) + report_bytes(
                Report::Begin(0),
                shown[1],
            ));
        }
    }
    let mut i: usize = 0;
    while i < n
        invariant
            n == tests@.len(),
            run.wf(),
            run.spec_total() == n,
            i <= n,
            i < n ==> run.spec_state() == RunState::Running(i),
            i < n ==> names.len() == i + 1,
            i < n ==> console@ == c0.write_bytes(
                run_text(n as nat, names.drop_last()) + report_bytes(Report::Begin(0), names.last()),
            ),
            i == n ==> exit == Some(QemuExitCode::Success),
            i == n ==> names.len() == n,
            i == n ==> console@ == c0.write_bytes(run_text(n as nat, names)),
            console@.wf(),
        decreases n - i,
    {
        tests[i].run();
        let reports = run.step(RunEvent::Returned);
        let (e, Ghost(shown)) = show_reports(console, &reports, tests);
        exit = e;
        proof {
            reveal_with_fuel(exit_of, 3);
            lemma_reports_text_pair(reports@[0], reports@[1], shown);
            let prefix = run_text(n as nat, names.drop_last()) + report_bytes(Report::Begin(0), names.last());
            crate::console_laws::lemma_write_bytes_concat(c0, prefix, reports_text(reports@, shown));
            assert(names.drop_last().push(names.last()) =~= names);
            assert(passed_text(names) =~= passed_text(names.drop_last()) + report_bytes(
                Report::Begin(0),
                names.last(),
            ) + report_bytes(Report::Pass, seq![]));
            if i + 1 < n {
                let next = names.push(shown[1]);
                assert(next.drop_last() =~= names);
                assert(prefix + reports_text(reports@, shown) =~= run_text(n as nat, next.drop_last())
                    + report_bytes(Report::Begin(0), next.last()));
                names = next;
            } else {
                assert(prefix + reports_text(reports@, shown) =~= run_text(n as nat, names));
            }
        }
        i += 1;
    }
    match exit {
        Some(c) => c,
        None => QemuExitCode::Success,
    }
}

} // verus!
