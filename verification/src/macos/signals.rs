//! Signals of the host, and what they mean for a guest.

use vstd::prelude::*;

use crate::shim::entry::{
    EntryReason, DATA_ABORT_CURRENT_EL, INSTRUCTION_ABORT_CURRENT_EL,
};

verus! {

pub const SIGILL: i32 = 4;

pub const SIGTRAP: i32 = 5;

pub const SIGABRT: i32 = 6;

pub const SIGBUS: i32 = 10;

pub const SIGSEGV: i32 = 11;

/// Codes of a signal that another process, or this one, sent.
pub const SI_USER: i32 = 0x1_0001;

pub const SI_QUEUE: i32 = 0x1_0002;

/// Codes of a bad memory reference.
pub const SEGV_MAPERR: i32 = 1;

pub const SEGV_ACCERR: i32 = 2;

pub const BUS_ADRALN: i32 = 1;

pub const BUS_ADRERR: i32 = 2;

pub const BUS_OBJERR: i32 = 3;

/// Classes of exceptions.
pub const INSTRUCTION_ABORT_LOWER_EL: u8 = 0x20;

pub const DATA_ABORT_LOWER_EL: u8 = 0x24;

pub const BRK64: u8 = 0x3c;

/// The class of an exception, from the syndrome.
pub open spec fn class_of(esr: u64) -> u8 {
    (esr as int / 0x400_0000 % 0x100) as u8
}

/// The class of an exception, from the syndrome.
pub fn exception_class(esr: u64) -> (class: u8)
    ensures
        class == class_of(esr),
{
    (esr / 0x400_0000 % 0x100) as u8
}

/// Whether a process sent the signal.
pub fn is_application_signal(code: i32) -> (sent: bool)
    ensures
        sent == (code == SI_USER || code == SI_QUEUE),
{
    code == SI_USER || code == SI_QUEUE
}

/// Whether the class is that of a failed fetch of an instruction.
pub open spec fn is_fetch(class: u8) -> bool {
    class == INSTRUCTION_ABORT_LOWER_EL || class == INSTRUCTION_ABORT_CURRENT_EL
}

/// Whether the signal is a fault of the very instruction that it stopped.
pub open spec fn is_memory_fault(signal: i32, code: i32, esr: u64) -> bool {
    let class = class_of(esr);
    &&& is_fetch(class) || class == DATA_ABORT_LOWER_EL || class == DATA_ABORT_CURRENT_EL
    &&& if signal == SIGSEGV {
        code == SEGV_MAPERR || code == SEGV_ACCERR
    } else if signal == SIGBUS {
        code == BUS_ADRALN || code == BUS_ADRERR || code == BUS_OBJERR
    } else {
        false
    }
}

/// Whether the signal is a fault of the very instruction that it stopped.
pub fn is_synchronous_memory_fault(signal: i32, code: i32, esr: u64) -> (fault: bool)
    ensures
        fault == is_memory_fault(signal, code, esr),
{
    let class: u8 = exception_class(esr);
    let abort = class == INSTRUCTION_ABORT_LOWER_EL || class == INSTRUCTION_ABORT_CURRENT_EL
        || class == DATA_ABORT_LOWER_EL || class == DATA_ABORT_CURRENT_EL;
    if !abort {
        false
    } else if signal == SIGSEGV {
        code == SEGV_MAPERR || code == SEGV_ACCERR
    } else if signal == SIGBUS {
        code == BUS_ADRALN || code == BUS_ADRERR || code == BUS_OBJERR
    } else {
        false
    }
}

/// How a gate was interrupted.
#[derive(Clone, Copy, Debug, PartialEq, Eq, Structural)]
pub enum GateInterruption {
    /// By a fault of its own.
    Synchronous,
    /// By a breakpoint.
    Breakpoint,
    /// By something else.
    Asynchronous,
}

/// How a gate was interrupted by the signal.
pub open spec fn interruption_of(signal: i32, code: i32, esr: u64) -> GateInterruption {
    if is_memory_fault(signal, code, esr) {
        GateInterruption::Synchronous
    } else if signal == SIGTRAP && esr as int / 0x400_0000 == BRK64 {
        GateInterruption::Breakpoint
    } else {
        GateInterruption::Asynchronous
    }
}

/// How a gate was interrupted by the signal.
pub fn gate_interruption(signal: i32, code: i32, esr: u64) -> (how: GateInterruption)
    ensures
        how == interruption_of(signal, code, esr),
{
    if is_synchronous_memory_fault(signal, code, esr) {
        GateInterruption::Synchronous
    } else if signal == SIGTRAP && esr / 0x400_0000 == BRK64 as u64 {
        GateInterruption::Breakpoint
    } else {
        GateInterruption::Asynchronous
    }
}

/// An exception as the shim hears of it.
#[derive(Clone, Copy, Debug, PartialEq, Eq, Structural)]
pub struct ExceptionInfo {
    pub exception: u8,
    pub fault_address: usize,
    pub esr: u64,
    pub kernel_mode: bool,
}

/// Why a guest was left.
#[derive(Clone, Copy, Debug, PartialEq, Eq, Structural)]
pub enum GuestExit {
    Syscall,
    Exception(ExceptionInfo),
    Interrupt,
}

impl GuestExit {
    /// How the shim is entered, and whether the request to interrupt the guest
    /// is thereby met.
    pub fn exit_handler(self) -> (entry: (EntryReason, bool))
        ensures
            entry.0 == match self {
                GuestExit::Syscall => EntryReason::Syscall,
                GuestExit::Exception(_) => EntryReason::Exception,
                GuestExit::Interrupt => EntryReason::Interrupt,
            },
            entry.1 == (self is Interrupt),
    {
        match self {
            GuestExit::Syscall => (EntryReason::Syscall, false),
            GuestExit::Exception(_) => (EntryReason::Exception, false),
            GuestExit::Interrupt => (EntryReason::Interrupt, true),
        }
    }
}

/// How much of the frame that a guest's code leaves for a syscall is read: a
/// register, the address to return to, and that of a stub.
pub const SYSCALL_FRAME_SIZE: usize = 24;

/// A signal as the host delivers it to a thread.
#[derive(Clone, Copy, Debug, PartialEq, Eq, Structural)]
pub struct HostSignal {
    pub signal: i32,
    pub code: i32,
    pub esr: u64,
    /// The instruction that it stopped, and the address that it faulted on.
    pub pc: usize,
    pub far: usize,
    /// The stack of what it stopped.
    pub sp: usize,
    /// The signal that interrupts guests.
    pub interrupt_signal: i32,
    /// Whether the thread runs a guest at all, and whether it is in it now.
    pub active: bool,
    pub in_guest: bool,
    /// The instructions by which a guest is entered and left for a syscall.
    pub switch_pc: usize,
    pub syscall_pc: usize,
}

impl HostSignal {
    /// Whether the thread stopped at a breakpoint.
    pub open spec fn is_breakpoint(self) -> bool {
        self.signal == SIGTRAP && class_of(self.esr) == BRK64
    }

    /// Whether the thread stopped where a guest is entered.
    pub open spec fn is_resuming(self) -> bool {
        self.pc == self.switch_pc && self.is_breakpoint()
    }

    /// Whether the signal does not concern the guest.
    pub open spec fn is_foreign(self) -> bool {
        self.signal != self.interrupt_signal && (self.code == SI_USER || self.code == SI_QUEUE)
    }

    /// Whether the thread is not in a guest, nor about to enter one.
    pub open spec fn is_outside(self) -> bool {
        !self.active || (!self.in_guest && !self.is_resuming())
    }

    /// Why the guest is left, but for a syscall.
    pub open spec fn exit(self) -> GuestExit {
        if self.signal == self.interrupt_signal {
            GuestExit::Interrupt
        } else {
            GuestExit::Exception(
                ExceptionInfo {
                    exception: if self.signal == SIGILL {
                        INSTRUCTION_ABORT_LOWER_EL
                    } else if self.signal == SIGTRAP {
                        BRK64
                    } else if is_memory_fault(self.signal, self.code, self.esr) && is_fetch(
                        class_of(self.esr),
                    ) {
                        INSTRUCTION_ABORT_LOWER_EL
                    } else {
                        DATA_ABORT_LOWER_EL
                    },
                    fault_address: self.far,
                    esr: self.esr,
                    kernel_mode: false,
                },
            )
        }
    }

    fn breakpoint(&self) -> (is: bool)
        ensures
            is == self.is_breakpoint(),
    {
        self.signal == SIGTRAP && exception_class(self.esr) == BRK64
    }

    fn exit_of(&self) -> (exit: GuestExit)
        ensures
            exit == self.exit(),
    {
        if self.signal == self.interrupt_signal {
            return GuestExit::Interrupt;
        }
        let class: u8 = exception_class(self.esr);
        let exception: u8 = if self.signal == SIGILL {
            INSTRUCTION_ABORT_LOWER_EL
        } else if self.signal == SIGTRAP {
            BRK64
        } else if is_synchronous_memory_fault(self.signal, self.code, self.esr) && (class
            == INSTRUCTION_ABORT_LOWER_EL || class == INSTRUCTION_ABORT_CURRENT_EL) {
            INSTRUCTION_ABORT_LOWER_EL
        } else {
            DATA_ABORT_LOWER_EL
        };
        GuestExit::Exception(
            ExceptionInfo {
                exception,
                fault_address: self.far,
                esr: self.esr,
                kernel_mode: false,
            },
        )
    }
}

/// Why the process has to stop.
#[derive(Clone, Copy, Debug, PartialEq, Eq, Structural)]
pub enum SignalFailure {
    UnreadableFrame,
    InvalidGateState,
    UnexpectedRecovery,
}

impl SignalFailure {
    /// The failure in words.
    pub open spec fn text(self) -> Seq<char> {
        match self {
            SignalFailure::UnreadableFrame => "unreadable SVC gate frame"@,
            SignalFailure::InvalidGateState => "invalid AArch64 gate runtime state"@,
            SignalFailure::UnexpectedRecovery => "unexpected macOS outbound-stub recovery"@,
        }
    }

    /// The failure in words.
    pub fn message(self) -> (message: &'static str)
        ensures
            message@ == self.text(),
    {
        match self {
            SignalFailure::UnreadableFrame => "unreadable SVC gate frame",
            SignalFailure::InvalidGateState => "invalid AArch64 gate runtime state",
            SignalFailure::UnexpectedRecovery => "unexpected macOS outbound-stub recovery",
        }
    }
}

/// What has to be done next with a signal.
#[derive(Clone, Copy, Debug, PartialEq, Eq, Structural)]
pub enum SignalAction {
    /// Look for code that recovers from a fault at the instruction.
    FindFixup { pc: usize },
    /// Go on at that code.
    JumpTo { pc: usize },
    /// Hand the signal to the handler that was there before.
    Forward,
    /// Do nothing.
    Ignore,
    /// Tell whether the guest was asked to stop. The guest is left.
    CheckInterrupted,
    /// Go on in the guest, with its registers.
    EnterGuest,
    /// Keep the registers of the guest, and read the frame that its code left
    /// on the stack for a syscall. The guest is left.
    ReadFrame { addr: usize, len: usize },
    /// Take the syscall from the frame, and go back to the host.
    TakeSyscall,
    /// Keep the registers of the guest, and bring them in order if it was
    /// stopped inside a gate. The guest is left.
    Canonicalize(GateInterruption),
    /// Go back to the host.
    ReturnToHost(GuestExit),
    Fatal(SignalFailure),
}

/// What came of it.
#[derive(Clone, Copy, Debug, PartialEq, Eq, Structural)]
pub enum SignalEvent {
    Fixup(Option<usize>),
    Interrupted(bool),
    /// Whether the frame could be read.
    Frame(bool),
    Gate(GateResult),
}

/// What a gate made of the interruption.
#[derive(Clone, Copy, Debug, PartialEq, Eq, Structural)]
pub enum GateResult {
    NotGate,
    Canonicalized,
    ResumeGuest,
    InvalidRuntimeState,
    PreserveSavedContext,
}

/// What the handler is waiting for.
#[derive(Clone, Copy, Debug, PartialEq, Eq, Structural)]
pub enum SignalPhase {
    Fixup,
    Interrupted,
    Frame,
    Gate,
    End,
}

/// A signal being handled.
#[derive(Clone, Copy, Debug, PartialEq, Eq, Structural)]
pub struct SignalHandler {
    pub signal: HostSignal,
    pub phase: SignalPhase,
}

/// A handler and the action that it asks for.
#[derive(Clone, Copy, Debug, PartialEq, Eq, Structural)]
pub struct Handling {
    pub handler: SignalHandler,
    pub action: SignalAction,
}

impl SignalHandler {
    /// A thread that waits for anything but code that recovers has left its
    /// guest.
    pub open spec fn wf(self) -> bool {
        self.phase is Interrupted || self.phase is Frame || self.phase is Gate
            ==> !self.signal.in_guest
    }

    /// The handler, with the thread in its guest or not.
    pub open spec fn with_guest(self, in_guest: bool) -> SignalHandler {
        SignalHandler { signal: HostSignal { in_guest, ..self.signal }, ..self }
    }

    pub open spec fn goes(self, phase: SignalPhase, action: SignalAction) -> Handling {
        Handling { handler: SignalHandler { phase, ..self }, action }
    }

    pub open spec fn ends(self, action: SignalAction) -> Handling {
        self.goes(SignalPhase::End, action)
    }

    /// What follows once nothing recovers from the fault, if there is one.
    pub open spec fn proceeds(self) -> Handling {
        let s = self.signal;
        if s.is_foreign() {
            self.ends(SignalAction::Forward)
        } else if s.is_outside() {
            if s.signal != s.interrupt_signal {
                self.ends(SignalAction::Forward)
            } else {
                self.ends(SignalAction::Ignore)
            }
        } else if s.is_resuming() {
            self.with_guest(false).goes(SignalPhase::Interrupted, SignalAction::CheckInterrupted)
        } else if s.pc == s.syscall_pc && s.is_breakpoint() {
            self.with_guest(false).goes(
                SignalPhase::Frame,
                SignalAction::ReadFrame { addr: s.sp, len: SYSCALL_FRAME_SIZE },
            )
        } else {
            self.with_guest(false).goes(
                SignalPhase::Gate,
                SignalAction::Canonicalize(interruption_of(s.signal, s.code, s.esr)),
            )
        }
    }

    /// The first action for a signal.
    pub open spec fn first(signal: HostSignal) -> Handling {
        let h = SignalHandler { signal, phase: SignalPhase::End };
        if is_memory_fault(signal.signal, signal.code, signal.esr) {
            h.goes(SignalPhase::Fixup, SignalAction::FindFixup { pc: signal.pc })
        } else {
            h.proceeds()
        }
    }

    /// Whether the event answers what the handler waits for.
    pub open spec fn accepts(self, event: SignalEvent) -> bool {
        match self.phase {
            SignalPhase::Fixup => event is Fixup,
            SignalPhase::Interrupted => event is Interrupted,
            SignalPhase::Frame => event is Frame,
            SignalPhase::Gate => event is Gate,
            SignalPhase::End => false,
        }
    }

    /// Whether the event answers what the handler waits for.
    pub fn is_answered_by(&self, event: SignalEvent) -> (answered: bool)
        ensures
            answered == self.accepts(event),
    {
        match self.phase {
            SignalPhase::Fixup => matches!(event, SignalEvent::Fixup(_)),
            SignalPhase::Interrupted => matches!(event, SignalEvent::Interrupted(_)),
            SignalPhase::Frame => matches!(event, SignalEvent::Frame(_)),
            SignalPhase::Gate => matches!(event, SignalEvent::Gate(_)),
            SignalPhase::End => false,
        }
    }

    /// What follows an event that answers what the handler waits for.
    pub open spec fn next(self, event: SignalEvent) -> Handling {
        match event {
            SignalEvent::Fixup(Some(pc)) => self.ends(SignalAction::JumpTo { pc }),
            SignalEvent::Fixup(None) => self.proceeds(),
            SignalEvent::Interrupted(asked) => if asked {
                self.ends(SignalAction::ReturnToHost(GuestExit::Interrupt))
            } else {
                self.with_guest(true).ends(SignalAction::EnterGuest)
            },
            SignalEvent::Frame(read) => if read {
                self.ends(SignalAction::TakeSyscall)
            } else {
                self.ends(SignalAction::Fatal(SignalFailure::UnreadableFrame))
            },
            SignalEvent::Gate(result) => match result {
                GateResult::NotGate | GateResult::Canonicalized => self.ends(
                    SignalAction::ReturnToHost(self.signal.exit()),
                ),
                GateResult::ResumeGuest => self.goes(
                    SignalPhase::Interrupted,
                    SignalAction::CheckInterrupted,
                ),
                GateResult::InvalidRuntimeState => self.ends(
                    SignalAction::Fatal(SignalFailure::InvalidGateState),
                ),
                GateResult::PreserveSavedContext => self.ends(
                    SignalAction::Fatal(SignalFailure::UnexpectedRecovery),
                ),
            },
        }
    }

    fn set_guest(self, in_guest: bool) -> (handler: SignalHandler)
        ensures
            handler == self.with_guest(in_guest),
    {
        SignalHandler { signal: HostSignal { in_guest, ..self.signal }, ..self }
    }

    fn go(self, phase: SignalPhase, action: SignalAction) -> (next: Handling)
        ensures
            next == self.goes(phase, action),
    {
        Handling { handler: SignalHandler { phase, ..self }, action }
    }

    fn end(self, action: SignalAction) -> (next: Handling)
        ensures
            next == self.ends(action),
    {
        self.go(SignalPhase::End, action)
    }

    fn proceed(self) -> (next: Handling)
        ensures
            next == self.proceeds(),
    {
        let s = self.signal;
        let mine = s.signal == s.interrupt_signal;
        if !mine && is_application_signal(s.code) {
            return self.end(SignalAction::Forward);
        }
        let breakpoint = s.breakpoint();
        let resuming = s.pc == s.switch_pc && breakpoint;
        if !s.active || (!s.in_guest && !resuming) {
            return if mine {
                self.end(SignalAction::Ignore)
            } else {
                self.end(SignalAction::Forward)
            };
        }
        let left = self.set_guest(false);
        if resuming {
            return left.go(SignalPhase::Interrupted, SignalAction::CheckInterrupted);
        }
        if s.pc == s.syscall_pc && breakpoint {
            return left.go(
                SignalPhase::Frame,
                SignalAction::ReadFrame { addr: s.sp, len: SYSCALL_FRAME_SIZE },
            );
        }
        let how = gate_interruption(s.signal, s.code, s.esr);
        left.go(SignalPhase::Gate, SignalAction::Canonicalize(how))
    }

    /// The first action for a signal that the host delivers.
    pub fn exception_signal_handler(signal: HostSignal) -> (first: Handling)
        ensures
            first == SignalHandler::first(signal),
            first.handler.wf(),
    {
        let h = SignalHandler { signal, phase: SignalPhase::End };
        if is_synchronous_memory_fault(signal.signal, signal.code, signal.esr) {
            h.go(SignalPhase::Fixup, SignalAction::FindFixup { pc: signal.pc })
        } else {
            h.proceed()
        }
    }

    /// Takes what came of the last action and returns what has to be done
    /// next.
    pub fn step(&mut self, event: SignalEvent) -> (action: SignalAction)
        requires
            old(self).wf(),
            old(self).accepts(event),
        ensures
            (Handling { handler: *final(self), action }) == old(self).next(event),
            final(self).wf(),
    {
        let now = *self;
        let next = match event {
            SignalEvent::Fixup(Some(pc)) => now.end(SignalAction::JumpTo { pc }),
            SignalEvent::Fixup(None) => now.proceed(),
            SignalEvent::Interrupted(asked) => if asked {
                now.end(SignalAction::ReturnToHost(GuestExit::Interrupt))
            } else {
                now.set_guest(true).end(SignalAction::EnterGuest)
            },
            SignalEvent::Frame(read) => if read {
                now.end(SignalAction::TakeSyscall)
            } else {
                now.end(SignalAction::Fatal(SignalFailure::UnreadableFrame))
            },
            SignalEvent::Gate(result) => match result {
                GateResult::NotGate | GateResult::Canonicalized => now.end(
                    SignalAction::ReturnToHost(now.signal.exit_of()),
                ),
                GateResult::ResumeGuest => now.go(
                    SignalPhase::Interrupted,
                    SignalAction::CheckInterrupted,
                ),
                GateResult::InvalidRuntimeState => now.end(
                    SignalAction::Fatal(SignalFailure::InvalidGateState),
                ),
                GateResult::PreserveSavedContext => now.end(
                    SignalAction::Fatal(SignalFailure::UnexpectedRecovery),
                ),
            },
        };
        *self = next.handler;
        next.action
    }
}

/// A thread that runs no guest never touches one: its signals recover from a
/// fault, go to the handler before, or are ignored.
pub proof fn outside_signals_leave_guests_alone(signal: HostSignal, fixup: Option<usize>)
    requires
        signal.is_outside(),
    ensures
        ({
            let first = SignalHandler::first(signal);
            let last = if first.handler.phase is Fixup {
                first.handler.next(SignalEvent::Fixup(fixup)).action
            } else {
                first.action
            };
            last is JumpTo || last is Forward || last is Ignore
        }),
{
}

/// A guest that was asked to stop is never entered.
pub proof fn interrupted_guest_is_not_entered(handler: SignalHandler)
    requires
        handler.phase is Interrupted,
    ensures
        handler.next(SignalEvent::Interrupted(true)).action == SignalAction::ReturnToHost(
            GuestExit::Interrupt,
        ),
{
}

/// A thread counts as being in its guest exactly where it goes on there: not
/// where it goes back to the host or stops.
pub proof fn guests_are_entered_or_left(handler: SignalHandler, event: SignalEvent)
    requires
        handler.wf(),
        handler.accepts(event),
    ensures
        ({
            let next = handler.next(event);
            &&& next.handler.wf()
            &&& next.action is EnterGuest ==> next.handler.signal.in_guest
            &&& next.action is ReturnToHost || next.action is TakeSyscall || next.action is Fatal
                ==> !next.handler.signal.in_guest
        }),
{
}

/// The interrupt signal is the platform's own: it is never handed to another
/// handler.
pub proof fn interrupt_signal_is_not_forwarded(signal: HostSignal)
    requires
        signal.signal == signal.interrupt_signal,
    ensures
        SignalHandler::first(signal).action != SignalAction::Forward,
        (SignalHandler { signal, phase: SignalPhase::Fixup }).next(
            SignalEvent::Fixup(None),
        ).action != SignalAction::Forward,
{
}

/// Whether the thread stopped at a breakpoint, by the number of the signal and
/// the class in the syndrome.
pub open spec fn stopped_at_breakpoint(signal: HostSignal) -> bool {
    signal.signal == 5 && signal.esr as int / 0x400_0000 % 0x100 == 0x3c
}

/// Every signal goes where it belongs once nothing recovers from it: one that a
/// process sent to the handler before, as does one that stopped no guest; one
/// that stopped a guest to the shim, by the way of the instruction that it
/// stopped. The interrupt signal alone is never handed on.
pub proof fn signals_go_where_they_belong(signal: HostSignal)
    ensures
        ({
            let first = SignalHandler::first(signal);
            let start = if first.handler.phase is Fixup {
                first.handler.next(SignalEvent::Fixup(None))
            } else {
                first
            };
            let own = signal.signal == signal.interrupt_signal;
            let sent = signal.code == SI_USER || signal.code == SI_QUEUE;
            let entering = stopped_at_breakpoint(signal) && signal.pc == signal.switch_pc;
            let concerned = signal.active && (signal.in_guest || entering) && (own || !sent);
            &&& first.action is FindFixup <==> first.handler.phase is Fixup
            &&& first.action matches SignalAction::FindFixup { pc } ==> pc == signal.pc
            &&& !concerned && !own ==> start.action is Forward
            &&& !concerned && own ==> start.action is Ignore
            &&& !concerned ==> start.handler.signal == signal
            &&& concerned ==> !start.handler.signal.in_guest && !(start.handler.phase is End)
            &&& concerned && entering ==> start.action is CheckInterrupted
            &&& concerned && !entering && stopped_at_breakpoint(signal) && signal.pc
                == signal.syscall_pc ==> start.action == (SignalAction::ReadFrame {
                addr: signal.sp,
                len: 24,
            })
            &&& concerned && !entering && !(stopped_at_breakpoint(signal) && signal.pc
                == signal.syscall_pc) ==> start.action is Canonicalize
        }),
{
}

/// A fault is one that the host reports for a bad reference of the instruction
/// itself, never one that a process sent, and code that recovers from it is
/// where the thread goes on.
pub proof fn only_bad_references_are_faults(signal: HostSignal, pc: usize)
    ensures
        is_memory_fault(signal.signal, signal.code, signal.esr) ==> {
            &&& signal.signal == 10 || signal.signal == 11
            &&& signal.code != SI_USER && signal.code != SI_QUEUE
            &&& signal.signal == 11 ==> signal.code == 1 || signal.code == 2
            &&& signal.signal == 10 ==> 1 <= signal.code <= 3
            &&& ({
                let class = signal.esr as int / 0x400_0000 % 0x100;
                class == 0x20 || class == 0x21 || class == 0x24 || class == 0x25
            })
            &&& SignalHandler::first(signal).action == (SignalAction::FindFixup { pc: signal.pc })
            &&& SignalHandler::first(signal).handler.next(SignalEvent::Fixup(Some(pc))).action == (
            SignalAction::JumpTo { pc })
        },
        signal.signal == 11 && 1 <= signal.code <= 2 && signal.esr as int / 0x400_0000 % 0x100
            == 0x24 ==> is_memory_fault(signal.signal, signal.code, signal.esr),
        signal.signal == 10 && 1 <= signal.code <= 3 && signal.esr as int / 0x400_0000 % 0x100
            == 0x24 ==> is_memory_fault(signal.signal, signal.code, signal.esr),
        signal.signal == 11 && 1 <= signal.code <= 2 && signal.esr as int / 0x400_0000 % 0x100
            == 0x20 ==> is_memory_fault(signal.signal, signal.code, signal.esr),
{
}

/// What stopped a guest is what the shim hears of: the interrupt signal as an
/// interrupt, all others as an exception with the address and the syndrome that
/// the host reported. A breakpoint, a bad instruction, a failed fetch and a
/// failed access are told apart.
pub proof fn exits_tell_what_stopped_the_guest(signal: HostSignal)
    ensures
        signal.exit() is Interrupt <==> signal.signal == signal.interrupt_signal,
        !(signal.exit() is Syscall),
        signal.exit() matches GuestExit::Exception(info) ==> {
            &&& info.fault_address == signal.far
            &&& info.esr == signal.esr
            &&& !info.kernel_mode
            &&& signal.signal == SIGTRAP <==> info.exception == 0x3c
            &&& signal.signal == SIGILL ==> info.exception == 0x20
            &&& signal.signal == SIGSEGV || signal.signal == SIGBUS ==> (info.exception == 0x20
                <==> is_memory_fault(signal.signal, signal.code, signal.esr) && (class_of(
                signal.esr,
            ) == 0x20 || class_of(signal.esr) == 0x21))
            &&& info.exception == 0x20 || info.exception == 0x24 || info.exception == 0x3c
        },
{
}

/// A guest that was stopped outside of a gate, or in one that was brought in
/// order, is left for what stopped it. A syscall is taken only from a frame that
/// could be read, and a gate that cannot be made out stops the process.
pub proof fn stopped_guests_are_left(handler: SignalHandler, event: SignalEvent)
    requires
        handler.accepts(event),
    ensures
        ({
            let next = handler.next(event);
            &&& event == SignalEvent::Gate(GateResult::NotGate) || event == SignalEvent::Gate(
                GateResult::Canonicalized,
            ) ==> next.action == SignalAction::ReturnToHost(handler.signal.exit())
            &&& event == SignalEvent::Gate(GateResult::ResumeGuest) ==> next.action
                is CheckInterrupted
            &&& next.action is EnterGuest <==> event == SignalEvent::Interrupted(false)
            &&& next.action is TakeSyscall <==> event == SignalEvent::Frame(true)
            &&& next.action is Fatal <==> event == SignalEvent::Frame(false) || event
                == SignalEvent::Gate(GateResult::InvalidRuntimeState) || event
                == SignalEvent::Gate(GateResult::PreserveSavedContext)
            &&& event == SignalEvent::Frame(false) ==> next.action == SignalAction::Fatal(
                SignalFailure::UnreadableFrame,
            )
            &&& event == SignalEvent::Gate(GateResult::InvalidRuntimeState) ==> next.action
                == SignalAction::Fatal(SignalFailure::InvalidGateState)
        }),
{
}

/// A gate that was stopped by its own fault, by a breakpoint or by anything else
/// is told apart, so that it can be brought in order.
pub proof fn gates_learn_what_stopped_them(signal: i32, code: i32, esr: u64)
    ensures
        interruption_of(signal, code, esr) is Synchronous <==> is_memory_fault(signal, code, esr),
        interruption_of(signal, code, esr) is Breakpoint ==> signal == SIGTRAP && class_of(esr)
            == BRK64,
        signal == SIGTRAP && esr as int / 0x400_0000 == 0x3c ==> interruption_of(signal, code, esr)
            is Breakpoint,
{
}

/// Every signal is dealt with after at most three answers.
pub open spec fn signal_rank(phase: SignalPhase) -> nat {
    match phase {
        SignalPhase::Fixup => 3,
        SignalPhase::Gate => 2,
        SignalPhase::Interrupted | SignalPhase::Frame => 1,
        SignalPhase::End => 0,
    }
}

/// Every answer brings the end nearer.
pub proof fn signals_are_dealt_with(handler: SignalHandler, event: SignalEvent)
    requires
        handler.accepts(event),
    ensures
        signal_rank(handler.next(event).handler.phase) < signal_rank(handler.phase),
{
}

/// How a signal was handled before.
#[derive(Clone, Copy, Debug, PartialEq, Eq, Structural)]
pub enum Disposition {
    Default,
    Ignored,
    /// By a function, which takes the details of the signal or not.
    Handler { with_info: bool },
}

/// What is done with a signal that is handed on.
#[derive(Clone, Copy, Debug, PartialEq, Eq, Structural)]
pub enum Forwarding {
    /// The default disposition is restored, and the signal raised again.
    RaiseDefault,
    Nothing,
    CallWithInfo,
    Call,
    /// The process has to stop: the disposition is not known.
    Missing,
}

/// What is done with a signal that is handed on.
pub fn next_signal_handler(previous: Option<Disposition>) -> (forwarding: Forwarding)
    ensures
        forwarding == match previous {
            None => Forwarding::Missing,
            Some(Disposition::Default) => Forwarding::RaiseDefault,
            Some(Disposition::Ignored) => Forwarding::Nothing,
            Some(Disposition::Handler { with_info }) => if with_info {
                Forwarding::CallWithInfo
            } else {
                Forwarding::Call
            },
        },
{
    match previous {
        None => Forwarding::Missing,
        Some(Disposition::Default) => Forwarding::RaiseDefault,
        Some(Disposition::Ignored) => Forwarding::Nothing,
        Some(Disposition::Handler { with_info }) => if with_info {
            Forwarding::CallWithInfo
        } else {
            Forwarding::Call
        },
    }
}

/// How many signals of the host are handled.
pub const HOST_SIGNAL_COUNT: usize = 5;

/// The signals of the host that are handled.
pub fn host_signals(interrupt_signal: i32) -> (signals: [i32; 5])
    ensures
        signals@ == seq![SIGTRAP, SIGSEGV, SIGBUS, SIGILL, interrupt_signal],
{
    let signals = [SIGTRAP, SIGSEGV, SIGBUS, SIGILL, interrupt_signal];
    assert(signals@ =~= seq![SIGTRAP, SIGSEGV, SIGBUS, SIGILL, interrupt_signal]);
    signals
}

} // verus!
