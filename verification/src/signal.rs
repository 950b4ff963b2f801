//! The signals this library knows by name and the numbers the platform gives them.

use vstd::prelude::*;

verus! {

/// Reads `libc::SIGHUP`, the platform's number for the hang-up signal. libc
/// defines it as 1 on x86-64 Linux.
#[verifier::external_body]
fn sighup() -> (number: i32)
    ensures
        number == 1,
{
    libc::SIGHUP
}

/// Reads `libc::SIGINT`, the platform's number for the interrupt signal. libc
/// defines it as 2 on x86-64 Linux.
#[verifier::external_body]
fn sigint() -> (number: i32)
    ensures
        number == 2,
{
    libc::SIGINT
}

/// Reads `libc::SIGQUIT`, the platform's number for the quit signal. libc
/// defines it as 3 on x86-64 Linux.
#[verifier::external_body]
fn sigquit() -> (number: i32)
    ensures
        number == 3,
{
    libc::SIGQUIT
}

/// Reads `libc::SIGILL`, the platform's number for the illegal-instruction signal. libc
/// defines it as 4 on x86-64 Linux.
#[verifier::external_body]
fn sigill() -> (number: i32)
    ensures
        number == 4,
{
    libc::SIGILL
}

/// Reads `libc::SIGTRAP`, the platform's number for the trap signal. libc
/// defines it as 5 on x86-64 Linux.
#[verifier::external_body]
fn sigtrap() -> (number: i32)
    ensures
        number == 5,
{
    libc::SIGTRAP
}

/// Reads `libc::SIGABRT`, the platform's number for the abort signal. libc
/// defines it as 6 on x86-64 Linux.
#[verifier::external_body]
fn sigabrt() -> (number: i32)
    ensures
        number == 6,
{
    libc::SIGABRT
}

/// Reads `libc::SIGBUS`, the platform's number for the bus-error signal. libc
/// defines it as 7 on x86-64 Linux.
#[verifier::external_body]
fn sigbus() -> (number: i32)
    ensures
        number == 7,
{
    libc::SIGBUS
}

/// Reads `libc::SIGFPE`, the platform's number for the floating-point-exception signal. libc
/// defines it as 8 on x86-64 Linux.
#[verifier::external_body]
fn sigfpe() -> (number: i32)
    ensures
        number == 8,
{
    libc::SIGFPE
}

/// Reads `libc::SIGKILL`, the platform's number for the kill signal. libc
/// defines it as 9 on x86-64 Linux.
#[verifier::external_body]
fn sigkill() -> (number: i32)
    ensures
        number == 9,
{
    libc::SIGKILL
}

/// Reads `libc::SIGSEGV`, the platform's number for the segmentation-fault signal. libc
/// defines it as 11 on x86-64 Linux.
#[verifier::external_body]
fn sigsegv() -> (number: i32)
    ensures
        number == 11,
{
    libc::SIGSEGV
}

/// Reads `libc::SIGPIPE`, the platform's number for the broken-pipe signal. libc
/// defines it as 13 on x86-64 Linux.
#[verifier::external_body]
fn sigpipe() -> (number: i32)
    ensures
        number == 13,
{
    libc::SIGPIPE
}

/// Reads `libc::SIGALRM`, the platform's number for the alarm signal. libc
/// defines it as 14 on x86-64 Linux.
#[verifier::external_body]
fn sigalrm() -> (number: i32)
    ensures
        number == 14,
{
    libc::SIGALRM
}

/// Reads `libc::SIGTERM`, the platform's number for the terminate signal. libc
/// defines it as 15 on x86-64 Linux.
#[verifier::external_body]
fn sigterm() -> (number: i32)
    ensures
        number == 15,
{
    libc::SIGTERM
}

/// A signal that can be intercepted, ignored or simulated.
#[derive(Clone, Copy, PartialEq, Eq, Structural, Debug)]
pub enum Signal {
    Hup,
    Int,
    Quit,
    Ill,
    Trap,
    Abort,
    Bus,
    Fpe,
    Kill,
    Segv,
    Pipe,
    Alarm,
    Term,
}

impl Signal {
    /// The platform's number for this signal.
    pub open spec fn spec_number(self) -> int {
        match self {
            Signal::Hup => 1,
            Signal::Int => 2,
            Signal::Quit => 3,
            Signal::Ill => 4,
            Signal::Trap => 5,
            Signal::Abort => 6,
            Signal::Bus => 7,
            Signal::Fpe => 8,
            Signal::Kill => 9,
            Signal::Segv => 11,
            Signal::Pipe => 13,
            Signal::Alarm => 14,
            Signal::Term => 15,
        }
    }

    /// Whether the operating-system handlers are installed for this signal:
    /// true of the six signals that report a fault in the running thread.
    pub open spec fn spec_is_tracked(self) -> bool {
        match self {
            Signal::Segv | Signal::Abort | Signal::Fpe | Signal::Ill | Signal::Bus | Signal::Trap => true,
            _ => false,
        }
    }

    /// The platform's number for this signal, as libc gives it.
    pub fn number(self) -> (number: i32)
        ensures
            number == self.spec_number(),
    {
        match self {
            Signal::Hup => sighup(),
            Signal::Int => sigint(),
            Signal::Quit => sigquit(),
            Signal::Ill => sigill(),
            Signal::Trap => sigtrap(),
            Signal::Abort => sigabrt(),
            Signal::Bus => sigbus(),
            Signal::Fpe => sigfpe(),
            Signal::Kill => sigkill(),
            Signal::Segv => sigsegv(),
            Signal::Pipe => sigpipe(),
            Signal::Alarm => sigalrm(),
            Signal::Term => sigterm(),
        }
    }

    /// Whether the operating-system handlers are installed for this signal.
    pub fn is_tracked(self) -> (answer: bool)
        ensures
            answer == self.spec_is_tracked(),
    {
        match self {
            Signal::Segv | Signal::Abort | Signal::Fpe | Signal::Ill | Signal::Bus | Signal::Trap => true,
            _ => false,
        }
    }
}

/// The signals for which the operating-system handlers are installed, in the
/// order in which they are installed.
pub open spec fn spec_tracked_signals() -> Seq<Signal> {
    seq![Signal::Segv, Signal::Abort, Signal::Fpe, Signal::Ill, Signal::Bus, Signal::Trap]
}

/// The signals for which the operating-system handlers are installed.
pub fn tracked_signals() -> (signals: [Signal; 6])
    ensures
        signals@ == spec_tracked_signals(),
{
    [Signal::Segv, Signal::Abort, Signal::Fpe, Signal::Ill, Signal::Bus, Signal::Trap]
}

/// Two signals with the same platform number are the same signal.
pub proof fn number_is_injective(a: Signal, b: Signal)
    requires
        a.spec_number() == b.spec_number(),
    ensures
        a == b,
{
}

/// A signal is tracked exactly when it is listed among the tracked signals.
pub proof fn tracked_signals_are_the_tracked(s: Signal)
    ensures
        s.spec_is_tracked() <==> spec_tracked_signals().contains(s),
{
    let t = spec_tracked_signals();
    assert(t[0] == Signal::Segv && t[1] == Signal::Abort && t[2] == Signal::Fpe);
    assert(t[3] == Signal::Ill && t[4] == Signal::Bus && t[5] == Signal::Trap);
}

} // verus!
