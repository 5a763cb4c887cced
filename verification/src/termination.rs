//! The status model: how a program ended, and how an outcome becomes a
//! status and a status the reason code that the debug host sees.

use vstd::prelude::*;

verus! {

/// How the program ended, as the debug host is told.
#[derive(Clone, Copy, Debug, PartialEq, Eq, Structural)]
pub enum ExitStatus {
    /// The application succeeded.
    ApplicationExit,
    /// The application failed.
    InternalError,
    /// The runtime met an error that it cannot name.
    RunTimeErrorUnknown,
}

/// The reporting backends. At most one is configured. Both report a status
/// under the same reason codes; they differ in what their text channel says
/// of a failure.
#[derive(Clone, Copy, Debug, PartialEq, Eq, Structural)]
pub enum Backend {
    /// Names the failed status in its text, where formatted text is on.
    Semihosting,
    /// Says only that the program failed.
    CortexMSemihosting,
}

/// An outcome that no program can produce.
pub type Never = core::convert::Infallible;

/// What was chosen when the firmware was put together.
#[derive(Clone, Copy, Debug, PartialEq, Eq, Structural)]
pub struct Config {
    /// The reporting backend, if there is one.
    pub backend: Option<Backend>,
    /// Diagnostic text is emitted.
    pub logging: bool,
    /// Diagnostic text may hold formatted detail.
    pub fmt: bool,
    /// Interrupts are disabled before a fault is reported.
    pub mask_interrupts: bool,
    /// Faults are proved unreachable when the firmware is built.
    pub no_panic: bool,
}

/// The reason code for "application exit".
pub const APPLICATION_EXIT: u32 = 0x20026;

/// The reason code for "internal error".
pub const INTERNAL_ERROR: u32 = 0x20024;

/// The reason code for "run-time error, unknown".
pub const RUN_TIME_ERROR_UNKNOWN: u32 = 0x20023;

/// The reason code under which a backend reports a status: one code for
/// success, one for failure and one for the unknown run-time error, the same
/// on every backend.
pub open spec fn code_of(backend: Backend, status: ExitStatus) -> u32 {
    match status {
        ExitStatus::ApplicationExit => APPLICATION_EXIT,
        ExitStatus::InternalError => INTERNAL_ERROR,
        ExitStatus::RunTimeErrorUnknown => RUN_TIME_ERROR_UNKNOWN,
    }
}

/// The reason code under which a backend reports a status.
pub fn native_code(backend: Backend, status: ExitStatus) -> (code: u32)
    ensures
        code == code_of(backend, status),
{
    match backend {
        Backend::Semihosting | Backend::CortexMSemihosting => match status {
            ExitStatus::ApplicationExit => APPLICATION_EXIT,
            ExitStatus::InternalError => INTERNAL_ERROR,
            ExitStatus::RunTimeErrorUnknown => RUN_TIME_ERROR_UNKNOWN,
        },
    }
}

/// The reason codes tell the statuses apart: on one backend, two statuses
/// with the same code are the same status.
pub proof fn lemma_codes_distinguish(backend: Backend, a: ExitStatus, b: ExitStatus)
    requires
        code_of(backend, a) == code_of(backend, b),
    ensures
        a == b,
{
}

/// The name of a status, as diagnostic text shows it.
pub open spec fn name_of(status: ExitStatus) -> Seq<char> {
    match status {
        ExitStatus::ApplicationExit => "ApplicationExit"@,
        ExitStatus::InternalError => "InternalError"@,
        ExitStatus::RunTimeErrorUnknown => "RunTimeErrorUnknown"@,
    }
}

/// The name of a status, as diagnostic text shows it.
pub fn status_name(status: ExitStatus) -> (name: &'static str)
    ensures
        name@ == name_of(status),
{
    match status {
        ExitStatus::ApplicationExit => "ApplicationExit",
        ExitStatus::InternalError => "InternalError",
        ExitStatus::RunTimeErrorUnknown => "RunTimeErrorUnknown",
    }
}

/// The outcome of an entry point: it becomes one status, by one conversion.
pub trait Termination: Sized {
    /// The status that the outcome stands for.
    spec fn status(&self) -> ExitStatus;

    /// The text of the error that the outcome carries, if it carries one.
    spec fn failure(&self) -> Option<Seq<char>>;

    /// The text of the error that the outcome carries, if it carries one.
    fn diagnostic(&self) -> (text: Option<String>)
        ensures
            text is Some == self.failure() is Some,
            text is Some ==> text.unwrap()@ == self.failure().unwrap(),
    ;

    /// Converts the outcome to its status.
    fn report(self) -> (status: ExitStatus)
        ensures
            status == self.status(),
    ;
}

impl Termination for Never {
    open spec fn status(&self) -> ExitStatus {
        ExitStatus::RunTimeErrorUnknown
    }

    open spec fn failure(&self) -> Option<Seq<char>> {
        None
    }

    fn diagnostic(&self) -> (text: Option<String>) {
        None
    }

    // No value of this type exists, so nothing ever reaches this body.
    fn report(self) -> (status: ExitStatus) {
        ExitStatus::RunTimeErrorUnknown
    }
}

impl Termination for ExitStatus {
    open spec fn status(&self) -> ExitStatus {
        *self
    }

    open spec fn failure(&self) -> Option<Seq<char>> {
        None
    }

    fn diagnostic(&self) -> (text: Option<String>) {
        None
    }

    fn report(self) -> (status: ExitStatus) {
        self
    }
}

impl Termination for () {
    open spec fn status(&self) -> ExitStatus {
        ExitStatus::ApplicationExit
    }

    open spec fn failure(&self) -> Option<Seq<char>> {
        None
    }

    fn diagnostic(&self) -> (text: Option<String>) {
        None
    }

    fn report(self) -> (status: ExitStatus) {
        true.report()
    }
}

impl Termination for bool {
    open spec fn status(&self) -> ExitStatus {
        if *self {
            ExitStatus::ApplicationExit
        } else {
            ExitStatus::InternalError
        }
    }

    open spec fn failure(&self) -> Option<Seq<char>> {
        None
    }

    fn diagnostic(&self) -> (text: Option<String>) {
        None
    }

    fn report(self) -> (status: ExitStatus) {
        if self {
            ExitStatus::ApplicationExit
        } else {
            ExitStatus::InternalError
        }
    }
}

/// A result whose error arrives as its debug text.
impl<T: Termination> Termination for Result<T, String> {
    open spec fn status(&self) -> ExitStatus {
        match self {
            Ok(t) => t.status(),
            Err(_) => false.status(),
        }
    }

    open spec fn failure(&self) -> Option<Seq<char>> {
        match self {
            Ok(t) => t.failure(),
            Err(e) => Some(e@),
        }
    }

    fn diagnostic(&self) -> (text: Option<String>) {
        match self {
            Ok(t) => t.diagnostic(),
            Err(e) => Some(e.clone()),
        }
    }

    fn report(self) -> (status: ExitStatus) {
        match self {
            Ok(t) => t.report(),
            Err(_e) => false.report(),
        }
    }
}

/// An outcome has one status and one reason code: outcomes that are equal
/// are reported alike, and a backend never reports a failure under the code
/// of success.
pub proof fn lemma_report_is_a_function<T: Termination>(a: T, b: T, backend: Backend)
    requires
        a == b,
    ensures
        a.status() == b.status(),
        a.failure() == b.failure(),
        code_of(backend, a.status()) == code_of(backend, b.status()),
        code_of(backend, a.status()) == APPLICATION_EXIT <==> a.status()
            == ExitStatus::ApplicationExit,
{
}

} // verus!
