//! How the shim is entered from a guest and how it is left.

use vstd::prelude::*;

use crate::flags::Arch;

verus! {

/// Whether the guest goes on.
#[derive(Clone, Copy, Debug, PartialEq, Eq, Structural)]
pub enum ContinueOperation {
    Resume,
    Terminate,
}

/// Why the shim is entered.
#[derive(Clone, Copy, Debug, PartialEq, Eq, Structural)]
pub enum EntryReason {
    Init,
    Syscall,
    Exception,
    Interrupt,
}

/// An exception of the processor, by its number or class.
#[derive(Clone, Copy, Debug, PartialEq, Eq, Structural)]
pub struct Exception {
    pub vector: u8,
}

/// The number of a page fault on x86-64.
pub const PAGE_FAULT: u8 = 14;

/// The class of a data abort, and of an instruction abort, that is taken
/// without a change of exception level on AArch64.
pub const DATA_ABORT_CURRENT_EL: u8 = 0x25;

pub const INSTRUCTION_ABORT_CURRENT_EL: u8 = 0x21;

/// What has to be done next when the shim is entered.
#[derive(Clone, Copy, Debug, PartialEq, Eq, Structural)]
pub enum EntryAction {
    /// Note that the task has left its guest.
    EnterFromGuest,
    /// Set the task up.
    HandleInit,
    HandleSyscall,
    HandleException,
    /// Make the guest ready to run.
    PrepareToRun,
    /// Bring the page that the kernel missed.
    BringPage,
    /// The shim is left.
    Finish(ContinueOperation),
    /// The process has to stop: bringing pages that the kernel missed is not
    /// supported.
    Unsupported,
}

/// What came of it.
#[derive(Clone, Copy, Debug, PartialEq, Eq, Structural)]
pub enum EntryEvent {
    Done,
    /// Whether the guest is ready to run, or the page was brought.
    Ready(bool),
}

/// How far an entry has come.
#[derive(Clone, Copy, Debug, PartialEq, Eq, Structural)]
pub enum EntryPhase {
    /// The guest is left.
    Leave,
    Work,
    Prepare,
    Bring,
    End,
}

/// An entry into the shim.
#[derive(Clone, Copy, Debug, PartialEq, Eq, Structural)]
pub struct LinuxShimEntrypoints {
    pub reason: EntryReason,
    pub phase: EntryPhase,
}

/// An entry and the action that it asks for.
#[derive(Clone, Copy, Debug, PartialEq, Eq, Structural)]
pub struct Entering {
    pub entry: LinuxShimEntrypoints,
    pub action: EntryAction,
}

/// Whether an exception is a miss of the kernel itself, by its number or class.
pub open spec fn is_kernel_miss(arch: Arch, exception: u8, kernel_mode: bool) -> bool {
    kernel_mode && match arch {
        Arch::X86_64 => exception == PAGE_FAULT,
        Arch::Aarch64 => exception == DATA_ABORT_CURRENT_EL || exception
            == INSTRUCTION_ABORT_CURRENT_EL,
    }
}

impl LinuxShimEntrypoints {
    pub open spec fn goes(self, phase: EntryPhase, action: EntryAction) -> Entering {
        Entering { entry: LinuxShimEntrypoints { phase, ..self }, action }
    }

    /// The work that the reason calls for; an interrupt calls for none.
    pub open spec fn works(self) -> Entering {
        match self.reason {
            EntryReason::Init => self.goes(EntryPhase::Work, EntryAction::HandleInit),
            EntryReason::Syscall => self.goes(EntryPhase::Work, EntryAction::HandleSyscall),
            EntryReason::Exception => self.goes(EntryPhase::Work, EntryAction::HandleException),
            EntryReason::Interrupt => self.goes(EntryPhase::Prepare, EntryAction::PrepareToRun),
        }
    }

    /// The first action of an entry: a new task has no guest to leave.
    pub open spec fn first(reason: EntryReason) -> Entering {
        let entry = LinuxShimEntrypoints { reason, phase: EntryPhase::End };
        if reason is Init {
            entry.works()
        } else {
            entry.goes(EntryPhase::Leave, EntryAction::EnterFromGuest)
        }
    }

    /// Whether the event answers what the entry waits for.
    pub open spec fn accepts(self, event: EntryEvent) -> bool {
        match self.phase {
            EntryPhase::Leave | EntryPhase::Work => event is Done,
            EntryPhase::Prepare | EntryPhase::Bring => event is Ready,
            EntryPhase::End => false,
        }
    }

    /// Whether the event answers what the entry waits for.
    pub fn is_answered_by(&self, event: EntryEvent) -> (answered: bool)
        ensures
            answered == self.accepts(event),
    {
        match self.phase {
            EntryPhase::Leave | EntryPhase::Work => matches!(event, EntryEvent::Done),
            EntryPhase::Prepare | EntryPhase::Bring => matches!(event, EntryEvent::Ready(_)),
            EntryPhase::End => false,
        }
    }

    /// What follows an event that answers what the entry waits for.
    pub open spec fn next(self, event: EntryEvent) -> Entering {
        match (self.phase, event) {
            (EntryPhase::Leave, _) => self.works(),
            (EntryPhase::Work, _) => self.goes(EntryPhase::Prepare, EntryAction::PrepareToRun),
            (_, EntryEvent::Ready(true)) => self.goes(
                EntryPhase::End,
                EntryAction::Finish(ContinueOperation::Resume),
            ),
            _ => self.goes(EntryPhase::End, EntryAction::Finish(ContinueOperation::Terminate)),
        }
    }

    fn go(self, phase: EntryPhase, action: EntryAction) -> (next: Entering)
        ensures
            next == self.goes(phase, action),
    {
        Entering { entry: LinuxShimEntrypoints { phase, ..self }, action }
    }

    fn work(self) -> (next: Entering)
        ensures
            next == self.works(),
    {
        match self.reason {
            EntryReason::Init => self.go(EntryPhase::Work, EntryAction::HandleInit),
            EntryReason::Syscall => self.go(EntryPhase::Work, EntryAction::HandleSyscall),
            EntryReason::Exception => self.go(EntryPhase::Work, EntryAction::HandleException),
            EntryReason::Interrupt => self.go(EntryPhase::Prepare, EntryAction::PrepareToRun),
        }
    }

    /// The first action of an entry.
    pub fn enter_shim(reason: EntryReason) -> (first: Entering)
        ensures
            first == LinuxShimEntrypoints::first(reason),
    {
        let entry = LinuxShimEntrypoints { reason, phase: EntryPhase::End };
        match reason {
            EntryReason::Init => entry.work(),
            _ => entry.go(EntryPhase::Leave, EntryAction::EnterFromGuest),
        }
    }

    /// The first action of an entry for an exception, by its number or class. A
    /// page that the kernel missed is brought, without an entry; where that is
    /// not supported the process has to stop.
    pub fn exception(arch: Arch, exception: u8, kernel_mode: bool) -> (first: Entering)
        ensures
            first == if !is_kernel_miss(arch, exception, kernel_mode) {
                LinuxShimEntrypoints::first(EntryReason::Exception)
            } else {
                let entry = LinuxShimEntrypoints {
                    reason: EntryReason::Exception,
                    phase: EntryPhase::End,
                };
                match arch {
                    Arch::X86_64 => entry.goes(EntryPhase::Bring, EntryAction::BringPage),
                    Arch::Aarch64 => entry.goes(EntryPhase::End, EntryAction::Unsupported),
                }
            },
            !kernel_mode ==> first.action is EnterFromGuest,
            first.entry.reason is Exception,
    {
        let entry = LinuxShimEntrypoints {
            reason: EntryReason::Exception,
            phase: EntryPhase::End,
        };
        match arch {
            Arch::X86_64 => if kernel_mode && exception == PAGE_FAULT {
                return entry.go(EntryPhase::Bring, EntryAction::BringPage);
            },
            Arch::Aarch64 => if kernel_mode && (exception == DATA_ABORT_CURRENT_EL || exception
                == INSTRUCTION_ABORT_CURRENT_EL) {
                return entry.go(EntryPhase::End, EntryAction::Unsupported);
            },
        }
        LinuxShimEntrypoints::enter_shim(EntryReason::Exception)
    }

    /// Takes what came of the last action and returns what has to be done next.
    pub fn step(&mut self, event: EntryEvent) -> (action: EntryAction)
        requires
            old(self).accepts(event),
        ensures
            (Entering { entry: *final(self), action }) == old(self).next(event),
    {
        let now = *self;
        let next = match (now.phase, event) {
            (EntryPhase::Leave, _) => now.work(),
            (EntryPhase::Work, _) => now.go(EntryPhase::Prepare, EntryAction::PrepareToRun),
            (_, EntryEvent::Ready(true)) => now.go(
                EntryPhase::End,
                EntryAction::Finish(ContinueOperation::Resume),
            ),
            _ => now.go(EntryPhase::End, EntryAction::Finish(ContinueOperation::Terminate)),
        };
        *self = next.entry;
        next.action
    }
}

/// How many answers an entry still waits for, at most.
pub open spec fn entry_rank(phase: EntryPhase) -> nat {
    match phase {
        EntryPhase::Leave => 3,
        EntryPhase::Work => 2,
        EntryPhase::Prepare | EntryPhase::Bring => 1,
        EntryPhase::End => 0,
    }
}

/// Each answer brings the end of an entry nearer, and a guest goes on only where
/// it was found ready to run, or the page that was missed was brought.
pub proof fn guests_go_on_when_ready(entry: LinuxShimEntrypoints, event: EntryEvent)
    requires
        entry.accepts(event),
    ensures
        entry_rank(entry.next(event).entry.phase) < entry_rank(entry.phase),
        entry.next(event).action == EntryAction::Finish(ContinueOperation::Resume) <==> event
            == EntryEvent::Ready(true),
{
}

/// The actions of an entry that goes without a hitch, in order.
pub open spec fn actions_of(now: Entering) -> Seq<EntryAction>
    decreases entry_rank(now.entry.phase),
{
    let event = if now.entry.phase is Leave || now.entry.phase is Work {
        EntryEvent::Done
    } else {
        EntryEvent::Ready(true)
    };
    if now.entry.phase is End || entry_rank(now.entry.next(event).entry.phase) >= entry_rank(
        now.entry.phase,
    ) {
        seq![now.action]
    } else {
        seq![now.action] + actions_of(now.entry.next(event))
    }
}

/// Whatever a task enters the shim for, it leaves its guest first, does the work
/// that it came for, that and no other, once, and makes its guest ready before
/// that goes on. A new task has no guest to leave, and an interrupt no work.
pub proof fn entries_do_their_work(reason: EntryReason)
    ensures
        actions_of(LinuxShimEntrypoints::first(reason)) == match reason {
            EntryReason::Init => seq![
                EntryAction::HandleInit,
                EntryAction::PrepareToRun,
                EntryAction::Finish(ContinueOperation::Resume),
            ],
            EntryReason::Syscall => seq![
                EntryAction::EnterFromGuest,
                EntryAction::HandleSyscall,
                EntryAction::PrepareToRun,
                EntryAction::Finish(ContinueOperation::Resume),
            ],
            EntryReason::Exception => seq![
                EntryAction::EnterFromGuest,
                EntryAction::HandleException,
                EntryAction::PrepareToRun,
                EntryAction::Finish(ContinueOperation::Resume),
            ],
            EntryReason::Interrupt => seq![
                EntryAction::EnterFromGuest,
                EntryAction::PrepareToRun,
                EntryAction::Finish(ContinueOperation::Resume),
            ],
        },
{
    reveal_with_fuel(actions_of, 5);
    let all = actions_of(LinuxShimEntrypoints::first(reason));
    match reason {
        EntryReason::Init => {
            assert(all =~= seq![
                EntryAction::HandleInit,
                EntryAction::PrepareToRun,
                EntryAction::Finish(ContinueOperation::Resume),
            ]);
        },
        EntryReason::Syscall => {
            assert(all =~= seq![
                EntryAction::EnterFromGuest,
                EntryAction::HandleSyscall,
                EntryAction::PrepareToRun,
                EntryAction::Finish(ContinueOperation::Resume),
            ]);
        },
        EntryReason::Exception => {
            assert(all =~= seq![
                EntryAction::EnterFromGuest,
                EntryAction::HandleException,
                EntryAction::PrepareToRun,
                EntryAction::Finish(ContinueOperation::Resume),
            ]);
        },
        EntryReason::Interrupt => {
            assert(all =~= seq![
                EntryAction::EnterFromGuest,
                EntryAction::PrepareToRun,
                EntryAction::Finish(ContinueOperation::Resume),
            ]);
        },
    }
}

/// No exception of a guest is taken for a page that the kernel missed, and of
/// the kernel's own none but a missed page is.
pub proof fn guests_do_not_miss_for_the_kernel(arch: Arch, exception: u8, kernel_mode: bool)
    ensures
        !kernel_mode ==> !is_kernel_miss(arch, exception, kernel_mode),
        kernel_mode && arch == Arch::X86_64 ==> (is_kernel_miss(arch, exception, kernel_mode)
            <==> exception == 14),
        kernel_mode && arch == Arch::Aarch64 ==> (is_kernel_miss(arch, exception, kernel_mode)
            <==> exception == 0x21 || exception == 0x25),
{
}

} // verus!
