//! The fatal paths: an unrecoverable fault and a failed allocation. Both end
//! the program as `Aborted`; neither produces a status of the application.

use crate::entry::{abort, abort_lines, joined, texts};
use crate::entry::{Halt, Lifecycle, Signal};
use crate::termination::{Config, RUN_TIME_ERROR_UNKNOWN};
use vstd::prelude::*;

verus! {

/// Where in the source a fault arose.
#[derive(Clone, Debug)]
pub struct Location {
    /// The source file.
    pub file: String,
    /// The line, counted from 1.
    pub line: u32,
    /// The column, counted from 1.
    pub column: u32,
}

/// The character of one decimal digit.
pub open spec fn digit(d: nat) -> char {
    if d == 0 {
        '0'
    } else if d == 1 {
        '1'
    } else if d == 2 {
        '2'
    } else if d == 3 {
        '3'
    } else if d == 4 {
        '4'
    } else if d == 5 {
        '5'
    } else if d == 6 {
        '6'
    } else if d == 7 {
        '7'
    } else if d == 8 {
        '8'
    } else {
        '9'
    }
}

/// A number in decimal, without leading zeros.
pub open spec fn decimal(n: nat) -> Seq<char>
    decreases n,
{
    if n < 10 {
        seq![digit(n)]
    } else {
        decimal(n / 10).push(digit(n % 10))
    }
}

/// The text of one decimal digit.
fn digit_text(d: u32) -> (text: &'static str)
    requires
        d < 10,
    ensures
        text@ == seq![digit(d as nat)],
{
    proof {
        reveal_strlit("0");
        reveal_strlit("1");
        reveal_strlit("2");
        reveal_strlit("3");
        reveal_strlit("4");
        reveal_strlit("5");
        reveal_strlit("6");
        reveal_strlit("7");
        reveal_strlit("8");
        reveal_strlit("9");
    }
    let text = match d {
        0 => "0",
        1 => "1",
        2 => "2",
        3 => "3",
        4 => "4",
        5 => "5",
        6 => "6",
        7 => "7",
        8 => "8",
        _ => "9",
    };
    assert(text@ =~= seq![digit(d as nat)]);
    text
}

/// Appends a number in decimal.
fn push_decimal(line: &mut String, n: u32)
    ensures
        final(line)@ == old(line)@ + decimal(n as nat),
    decreases n,
{
    if n >= 10 {
        push_decimal(line, n / 10);
    }
    line.append(digit_text(n % 10));
    proof {
        assert(final(line)@ =~= old(line)@ + decimal(n as nat));
    }
}

/// The text of a location: the file, the line and the column, with colons
/// between them.
pub open spec fn place_of(file: Seq<char>, line: nat, column: nat) -> Seq<char> {
    file + ":"@ + decimal(line) + ":"@ + decimal(column)
}

/// The description of a fault: its message, or `<fmt>` where the message is
/// not plain text, then the source location where there is one.
pub open spec fn description_of(payload: Option<Seq<char>>, location: Option<Location>) -> Seq<
    char,
> {
    let message = if payload is Some {
        payload.unwrap()
    } else {
        "<fmt>"@
    };
    if location is Some {
        message + ", "@ + place_of(
            location.unwrap().file@,
            location.unwrap().line as nat,
            location.unwrap().column as nat,
        )
    } else {
        message
    }
}

/// Formats the description of a fault.
pub fn panic_description(payload: Option<&str>, location: Option<&Location>) -> (text: String)
    ensures
        text@ == description_of(
            if payload is Some {
                Some(payload.unwrap()@)
            } else {
                None
            },
            if location is Some {
                Some(*location.unwrap())
            } else {
                None
            },
        ),
{
    let mut text = match payload {
        Some(message) => message.to_owned(),
        None => "<fmt>".to_owned(),
    };
    if let Some(place) = location {
        let ghost message = text@;
        text.append(", ");
        text.append(place.file.as_str());
        text.append(":");
        push_decimal(&mut text, place.line);
        text.append(":");
        push_decimal(&mut text, place.column);
        proof {
            assert(text@ =~= message + ", "@ + place_of(
                place.file@,
                place.line as nat,
                place.column as nat,
            ));
        }
    }
    text
}

/// The line that a fatal path starts with: the label alone, or the label
/// with the detail, where formatted text is on and there is a detail.
pub open spec fn fatal_lines(
    config: Config,
    label: Seq<char>,
    prefix: Seq<char>,
    detail: Option<Seq<char>>,
) -> Seq<Seq<char>> {
    if config.logging && config.backend is Some {
        if config.fmt && detail is Some {
            seq![prefix + detail.unwrap()]
        } else {
            seq![label]
        }
    } else {
        Seq::empty()
    }
}

/// The first line of a fatal path, if diagnostics are on.
fn fatal_line(config: &Config, label: &str, prefix: &str, detail: Option<&str>) -> (lines: Vec<
    String,
>)
    ensures
        texts(lines@) == fatal_lines(
            *config,
            label@,
            prefix@,
            if detail is Some {
                Some(detail.unwrap()@)
            } else {
                None
            },
        ),
{
    let mut lines: Vec<String> = Vec::new();
    if config.logging && config.backend.is_some() {
        match detail {
            Some(text) if config.fmt => lines.push(joined(prefix, text)),
            _ => lines.push(label.to_owned()),
        }
    }
    proof {
        assert(texts(lines@) =~= fatal_lines(
            *config,
            label@,
            prefix@,
            if detail is Some {
                Some(detail.unwrap()@)
            } else {
                None
            },
        ));
    }
    lines
}

/// The signal on which the fault handler ends: the unknown run-time error
/// through the backend, or the trap of `abort` where there is no backend.
pub open spec fn panic_signal(config: Config) -> Signal {
    if config.backend is Some {
        Signal::ReportException(RUN_TIME_ERROR_UNKNOWN)
    } else {
        Signal::Trap
    }
}

/// The handler of an unrecoverable fault. Interrupts are disabled first,
/// where the configuration masks them; then the fault is described, and the
/// program ends as `Aborted`. A configuration that proves faults unreachable
/// has no such handler.
pub fn panic(config: &Config, description: Option<&str>) -> (halt: Halt)
    requires
        !config.no_panic,
    ensures
        halt.mask_interrupts == config.mask_interrupts,
        texts(halt.lines@) == fatal_lines(
            *config,
            "FAULT"@,
            "PANIC: "@,
            if description is Some {
                Some(description.unwrap()@)
            } else {
                None
            },
        ),
        halt.signal == panic_signal(*config),
        halt.state == Lifecycle::Aborted,
{
    let lines = fatal_line(config, "FAULT", "PANIC: ", description);
    let signal = if config.backend.is_some() {
        Signal::ReportException(RUN_TIME_ERROR_UNKNOWN)
    } else {
        let last = abort(config);
        last.signal
    };
    Halt { mask_interrupts: config.mask_interrupts, lines, signal, state: Lifecycle::Aborted }
}

/// The handler of a failed allocation: it describes the request and aborts.
/// No status is produced, whatever the configuration.
pub fn alloc_error(config: &Config, layout: Option<&str>) -> (halt: Halt)
    ensures
        !halt.mask_interrupts,
        texts(halt.lines@) == fatal_lines(
            *config,
            "OOM"@,
            "OOM: "@,
            if layout is Some {
                Some(layout.unwrap()@)
            } else {
                None
            },
        ) + abort_lines(*config),
        halt.signal == Signal::Trap,
        halt.state == Lifecycle::Aborted,
        !(halt.state is ExitedWithStatus),
{
    let mut lines = fatal_line(config, "OOM", "OOM: ", layout);
    let ghost head = lines@;
    let last = abort(config);
    let mut rest = last.lines;
    lines.append(&mut rest);
    proof {
        assert(texts(lines@) =~= texts(head) + texts(last.lines@));
    }
    Halt { mask_interrupts: false, lines, signal: last.signal, state: last.state }
}

} // verus!
