//! Startup and termination: the deferred initializers, the entry point, and
//! the plan by which the program's end is reported.
//!
//! Nothing here touches the debug host. Each terminal path is computed as a
//! `Halt`: what to print, what to signal, and the state that the program
//! ends in. The caller carries the plan out and never comes back.

use crate::termination::{code_of, name_of, native_code, status_name};
use crate::termination::{Backend, Config, ExitStatus, Termination};
use vstd::prelude::*;

verus! {

/// The text `head` followed by the text `tail`.
pub(crate) fn joined(head: &str, tail: &str) -> (line: String)
    ensures
        line@ == head@ + tail@,
{
    let mut line = head.to_owned();
    line.append(tail);
    line
}

/// The texts of a list of lines.
pub open spec fn texts(lines: Seq<String>) -> Seq<Seq<char>> {
    Seq::new(lines.len(), |i: int| lines[i]@)
}

/// The size of the memory pool, in bytes. It is fixed when the firmware is
/// built, and the hook that runs before memory is set up hands it to the
/// allocator.
pub const HEAP_SIZE: usize = 1024;

/// The token that the deferred initializers share: the values that they have
/// published, in order.
pub struct InitContext {
    values: Vec<u64>,
}

impl InitContext {
    pub closed spec fn view(&self) -> Seq<u64> {
        self.values@
    }

    /// A fresh token, made once per boot.
    pub fn new() -> (context: Self)
        ensures
            context@ == Seq::<u64>::empty(),
    {
        InitContext { values: Vec::new() }
    }

    /// Publishes a value to the initializers that run later.
    pub fn publish(&mut self, value: u64)
        ensures
            final(self)@ == old(self)@.push(value),
    {
        self.values.push(value);
    }

    /// How many values were published.
    pub fn len(&self) -> (count: usize)
        ensures
            count == self@.len(),
    {
        self.values.len()
    }

    /// The value that was published at `index`, if there is one.
    pub fn get(&self, index: usize) -> (value: Option<u64>)
        ensures
            value == if index < self@.len() {
                Some(self@[index as int])
            } else {
                None::<u64>
            },
    {
        if index < self.values.len() {
            Some(self.values[index])
        } else {
            None
        }
    }
}

/// `trace` records one boot: it starts with the fresh token, and entry `i`
/// received `trace[i]` and left `trace[i + 1]`.
pub open spec fn chained<I: Fn(InitContext) -> InitContext>(
    constructors: Seq<I>,
    trace: Seq<InitContext>,
) -> bool {
    &&& trace.len() == constructors.len() + 1
    &&& forall|i: int|
        0 <= i < constructors.len() ==> call_ensures(
            #[trigger] constructors[i],
            (trace[i],),
            trace[i + 1],
        )
}

/// Runs every deferred initializer once, in registration order; each
/// receives the token as the one before it left it.
pub fn run_constructors<I: Fn(InitContext) -> InitContext>(
    constructors: &Vec<I>,
    context: InitContext,
) -> (out: InitContext)
    requires
        forall|i: int, c: InitContext|
            0 <= i < constructors@.len() ==> #[trigger] call_requires(constructors@[i], (c,)),
    ensures
        exists|trace: Seq<InitContext>|
            chained(constructors@, trace) && trace[0] == context && trace.last() == out,
{
    let mut current = context;
    let ghost mut trace: Seq<InitContext> = seq![context];
    let mut i: usize = 0;
    while i < constructors.len()
        invariant
            i <= constructors.len(),
            chained(constructors@.take(i as int), trace),
            trace[0] == context,
            trace.last() == current,
            forall|k: int, c: InitContext|
                0 <= k < constructors@.len() ==> #[trigger] call_requires(constructors@[k], (c,)),
        decreases constructors.len() - i,
    {
        let ghost before = trace;
        let entry = &constructors[i];
        let after = entry(current);
        proof {
            trace = before.push(after);
            assert forall|k: int| 0 <= k < i + 1 implies call_ensures(
                #[trigger] constructors@.take(i + 1)[k],
                (trace[k],),
                trace[k + 1],
            ) by {
                if k < i {
                    assert(constructors@.take(i as int)[k] == constructors@.take(i + 1)[k]);
                }
            }
        }
        current = after;
        i = i + 1;
    }
    proof {
        assert(constructors@.take(i as int) =~= constructors@);
    }
    current
}

/// The i-th initializer never sees what a later one does: the first `k`
/// steps of a boot are a boot of the first `k` entries alone.
pub proof fn lemma_later_entries_unseen<I: Fn(InitContext) -> InitContext>(
    constructors: Seq<I>,
    trace: Seq<InitContext>,
    k: int,
)
    requires
        chained(constructors, trace),
        0 <= k <= constructors.len(),
    ensures
        chained(constructors.take(k), trace.take(k + 1)),
{
    assert forall|i: int| 0 <= i < k implies call_ensures(
        #[trigger] constructors.take(k)[i],
        (trace.take(k + 1)[i],),
        trace.take(k + 1)[i + 1],
    ) by {
        assert(constructors[i] == constructors.take(k)[i]);
    }
}

/// The state of the whole program.
#[derive(Clone, Copy, Debug, PartialEq, Eq, Structural)]
pub enum Lifecycle {
    /// Not yet ended.
    Running,
    /// Ended through the termination reporter.
    ExitedWithStatus(ExitStatus),
    /// Ended on a fatal path.
    Aborted,
}

impl Lifecycle {
    /// The state after a terminal path was carried out: a running program
    /// ends in the state of the plan, and a program that has ended stays
    /// where it is.
    pub fn halted(self, halt: &Halt) -> (state: Lifecycle)
        ensures
            state == if self is Running {
                halt.state
            } else {
                self
            },
    {
        match self {
            Lifecycle::Running => halt.state,
            _ => self,
        }
    }
}

/// How the processor is stopped.
#[derive(Clone, Copy, Debug, PartialEq, Eq, Structural)]
pub enum Signal {
    /// The backend reports this reason code to the debug host.
    ReportException(u32),
    /// A breakpoint trap, with no payload.
    Trap,
}

/// A terminal path, in the order in which it is carried out.
#[derive(Debug)]
pub struct Halt {
    /// Interrupts are disabled first.
    pub mask_interrupts: bool,
    /// The lines for the backend's text channel.
    pub lines: Vec<String>,
    /// The signal that ends the program.
    pub signal: Signal,
    /// The state that the program ends in.
    pub state: Lifecycle,
}

/// The lines that `exit` emits: with diagnostics on, one line that says
/// whether the program succeeded, and for a failure which one, where the
/// backend can name it.
pub open spec fn exit_lines(config: Config, status: ExitStatus) -> Seq<Seq<char>> {
    if !config.logging {
        Seq::empty()
    } else if status == ExitStatus::ApplicationExit {
        seq!["Exit success"@]
    } else if config.backend == Some(Backend::Semihosting) && config.fmt {
        seq!["Exit failure: "@ + name_of(status)]
    } else {
        seq!["Exit failure"@]
    }
}

/// Reports a status: a line that says success or failure, where diagnostics
/// are on, then the status under the backend's reason code.
pub fn exit(config: &Config, status: ExitStatus) -> (halt: Halt)
    requires
        config.backend is Some,
    ensures
        !halt.mask_interrupts,
        texts(halt.lines@) == exit_lines(*config, status),
        halt.signal == Signal::ReportException(code_of(config.backend.unwrap(), status)),
        halt.state == Lifecycle::ExitedWithStatus(status),
{
    let backend = config.backend.unwrap();
    let mut lines: Vec<String> = Vec::new();
    let failed = match status {
        ExitStatus::ApplicationExit => false,
        _ => true,
    };
    if config.logging {
        let detailed = match backend {
            Backend::Semihosting => config.fmt,
            Backend::CortexMSemihosting => false,
        };
        if !failed {
            lines.push("Exit success".to_owned());
        } else if detailed {
            lines.push(joined("Exit failure: ", status_name(status)));
        } else {
            lines.push("Exit failure".to_owned());
        }
    }
    proof {
        assert(texts(lines@) =~= exit_lines(*config, status));
    }
    Halt {
        mask_interrupts: false,
        lines,
        signal: Signal::ReportException(native_code(backend, status)),
        state: Lifecycle::ExitedWithStatus(status),
    }
}

/// The lines that `abort` emits.
pub open spec fn abort_lines(config: Config) -> Seq<Seq<char>> {
    if config.logging && config.backend is Some {
        seq!["ABORTED"@]
    } else {
        Seq::empty()
    }
}

/// Halts without a status and without a payload: a breakpoint trap, and the
/// program ends as `Aborted`.
pub fn abort(config: &Config) -> (halt: Halt)
    ensures
        !halt.mask_interrupts,
        texts(halt.lines@) == abort_lines(*config),
        halt.signal == Signal::Trap,
        halt.state == Lifecycle::Aborted,
{
    let mut lines: Vec<String> = Vec::new();
    if config.logging && config.backend.is_some() {
        lines.push("ABORTED".to_owned());
    }
    proof {
        assert(texts(lines@) =~= abort_lines(*config));
    }
    Halt { mask_interrupts: false, lines, signal: Signal::Trap, state: Lifecycle::Aborted }
}

/// The line that reports the error of a failed entry point.
pub open spec fn main_error_lines(config: Config, failure: Option<Seq<char>>) -> Seq<Seq<char>> {
    if config.logging && config.fmt && failure is Some {
        seq!["Main error: "@ + failure.unwrap()]
    } else {
        Seq::empty()
    }
}

/// What `start` plans for the outcome `out` of the entry point.
pub open spec fn start_plan<T: Termination>(config: Config, out: T, halt: Halt) -> bool {
    &&& !halt.mask_interrupts
    &&& texts(halt.lines@) == main_error_lines(config, out.failure()) + exit_lines(
        config,
        out.status(),
    )
    &&& halt.signal == Signal::ReportException(code_of(config.backend.unwrap(), out.status()))
    &&& halt.state == Lifecycle::ExitedWithStatus(out.status())
}

/// One boot: runs the deferred initializers on a fresh token, in order,
/// calls the entry point, converts its outcome to a status and plans its
/// report. Without a reporting backend no status can be reported, so there
/// the entry point must be one that never returns.
pub fn start<T: Termination, I: Fn(InitContext) -> InitContext, M: FnOnce() -> T>(
    config: &Config,
    constructors: &Vec<I>,
    main: M,
) -> (halt: Halt)
    requires
        config.backend is None ==> forall|out: T| !call_ensures(main, (), out),
        forall|i: int, c: InitContext|
            0 <= i < constructors@.len() ==> #[trigger] call_requires(constructors@[i], (c,)),
        call_requires(main, ()),
    ensures
        config.backend is Some,
        exists|trace: Seq<InitContext>|
            chained(constructors@, trace) && trace[0]@ == Seq::<u64>::empty(),
        exists|out: T| call_ensures(main, (), out) && start_plan(*config, out, halt),
{
    let _context = run_constructors(constructors, InitContext::new());
    let out = main();
    let ghost outcome = out;
    proof {
        assert(call_ensures(main, (), outcome));
    }
    let text = out.diagnostic();
    let status = out.report();
    let tail = exit(config, status);
    let mut lines: Vec<String> = Vec::new();
    if config.logging && config.fmt {
        if let Some(text) = text {
            lines.push(joined("Main error: ", text.as_str()));
        }
    }
    let ghost head = lines@;
    let mut rest = tail.lines;
    lines.append(&mut rest);
    let halt = Halt { mask_interrupts: false, lines, signal: tail.signal, state: tail.state };
    proof {
        assert(texts(head) =~= main_error_lines(*config, outcome.failure()));
        assert(texts(halt.lines@) =~= texts(head) + texts(tail.lines@));
        assert(start_plan(*config, outcome, halt));
    }
    halt
}

} // verus!
