//! Running a guest on a thread of a macOS process: what is set up for it, and
//! how that is undone.

use vstd::prelude::*;

use crate::macos::install::AltStack;
use crate::macos::pages::PAGE_SIZE;

verus! {

/// A thread that runs a guest, or ran one.
#[derive(Clone, Copy, Debug, PartialEq, Eq, Structural)]
pub struct ThreadHandle {
    /// How the host knows the thread, for as long as it runs a guest.
    pub identity: Option<usize>,
    /// Whether the guest is to be interrupted.
    pub interrupted: bool,
    /// Whether the thread waits for something, and can be woken up.
    pub waiting: bool,
}

/// What is done to interrupt a thread, once that is noted.
#[derive(Clone, Copy, Debug, PartialEq, Eq, Structural)]
pub struct InterruptPlan {
    /// The thread to send a signal to.
    pub signal: Option<usize>,
    /// Whether it is woken up.
    pub wake: bool,
}

impl ThreadHandle {
    /// A thread that is about to run a guest.
    pub fn new(identity: usize) -> (thread: ThreadHandle)
        ensures
            thread == (ThreadHandle {
                identity: Some(identity),
                interrupted: false,
                waiting: false,
            }),
    {
        ThreadHandle { identity: Some(identity), interrupted: false, waiting: false }
    }

    /// Notes that the guest is to be interrupted. Returns what is done after
    /// that: a signal is sent if the thread runs a guest, and it is woken up if
    /// it waits.
    pub fn interrupt(&mut self) -> (plan: InterruptPlan)
        ensures
            *final(self) == (ThreadHandle { interrupted: true, ..*old(self) }),
            plan == (InterruptPlan { signal: old(self).identity, wake: old(self).waiting }),
    {
        self.interrupted = true;
        InterruptPlan { signal: self.identity, wake: self.waiting }
    }

    /// Notes whether the thread waits for something.
    pub fn update_waker(&mut self, waiting: bool)
        ensures
            *final(self) == (ThreadHandle { waiting, ..*old(self) }),
    {
        self.waiting = waiting;
    }

    /// Notes that the guest has ended: the host may know another thread by the
    /// same identity from now on.
    pub fn retire(&mut self)
        ensures
            *final(self) == (ThreadHandle { identity: None, ..*old(self) }),
    {
        self.identity = None;
    }
}

/// Why the process has to stop.
#[derive(Clone, Copy, Debug, PartialEq, Eq, Structural)]
pub enum RunFailure {
    /// A guest cannot be entered from within another.
    Nested,
    /// The slots of the thread are not where gates expect them.
    Slots,
    UnblockSignals,
    MapStack,
    GuardStack,
    InstallStack,
    RestoreStack,
    UnmapStack,
    RestoreMask,
}

/// What has to be done next.
#[derive(Clone, Copy, Debug, PartialEq, Eq, Structural)]
pub enum RunAction {
    /// See whether the slots of the thread are where gates expect them.
    CheckSlots,
    /// Note in the slots that the thread runs a guest.
    Register,
    /// Let the signals of the host through, and keep the mask that was there.
    UnblockSignals,
    /// Map memory for the stack of signal handlers.
    MapStack { len: usize },
    /// Make the lowest `len` bytes of it untouchable.
    GuardStack { len: usize },
    /// Let signal handlers run on the rest, and keep the stack that was there.
    InstallStack { offset: usize, size: usize },
    /// Run the guest to its end.
    RunGuest,
    RestoreStack,
    UnmapStack { len: usize },
    RestoreMask,
    /// Note in the slots that the thread runs no guest.
    Unregister,
    Finish,
    /// The process has to stop; all that was set up is undone.
    Fatal(RunFailure),
    /// The process has to stop at once.
    Abort,
}

/// What the run is waiting for.
#[derive(Clone, Copy, Debug, PartialEq, Eq, Structural)]
pub enum RunPhase {
    CheckSlots,
    Register,
    Unblock,
    MapStack,
    GuardStack,
    InstallStack,
    Run,
    RestoreStack,
    UnmapStack,
    RestoreMask,
    Unregister,
    End,
}

/// A guest being run.
#[derive(Clone, Copy, Debug, PartialEq, Eq, Structural)]
pub struct GuestRun {
    pub stack: AltStack,
    /// What is set up and still to be undone.
    pub registered: bool,
    pub unblocked: bool,
    pub mapped: bool,
    pub installed: bool,
    /// Why the process has to stop, if it has to.
    pub failure: Option<RunFailure>,
    pub phase: RunPhase,
}

/// A run and the action that it asks for.
#[derive(Clone, Copy, Debug, PartialEq, Eq, Structural)]
pub struct Running {
    pub run: GuestRun,
    pub action: RunAction,
}

impl GuestRun {
    /// Things are set up one after the other, and undone in the opposite order.
    pub open spec fn wf(self) -> bool {
        &&& self.installed ==> self.mapped
        &&& self.mapped ==> self.unblocked
        &&& self.unblocked ==> self.registered
        &&& match self.phase {
            RunPhase::CheckSlots | RunPhase::Register => !self.registered,
            RunPhase::Unblock => self.registered && !self.unblocked,
            RunPhase::MapStack => self.unblocked && !self.mapped,
            RunPhase::GuardStack | RunPhase::InstallStack => self.mapped && !self.installed,
            RunPhase::Run | RunPhase::RestoreStack => self.installed,
            RunPhase::UnmapStack => self.mapped && !self.installed,
            RunPhase::RestoreMask => self.unblocked && !self.mapped,
            RunPhase::Unregister => self.registered && !self.unblocked,
            RunPhase::End => true,
        }
    }

    pub open spec fn goes(self, phase: RunPhase, action: RunAction) -> Running {
        Running { run: GuestRun { phase, ..self }, action }
    }

    /// Undoes what was set up last, or ends.
    pub open spec fn undoes(self) -> Running {
        if self.installed {
            self.goes(RunPhase::RestoreStack, RunAction::RestoreStack)
        } else if self.mapped {
            self.goes(
                RunPhase::UnmapStack,
                RunAction::UnmapStack { len: self.stack.mapping_size },
            )
        } else if self.unblocked {
            self.goes(RunPhase::RestoreMask, RunAction::RestoreMask)
        } else if self.registered {
            self.goes(RunPhase::Unregister, RunAction::Unregister)
        } else {
            self.goes(
                RunPhase::End,
                match self.failure {
                    Some(f) => RunAction::Fatal(f),
                    None => RunAction::Finish,
                },
            )
        }
    }

    /// Undoes all, after which the process has to stop.
    pub open spec fn fails(self, failure: RunFailure) -> Running {
        GuestRun { failure: Some(failure), ..self }.undoes()
    }

    /// Undoes the rest; the process has to stop at once where undoing fails
    /// while something else had failed.
    pub open spec fn undoes_on(self, ok: bool, failure: RunFailure) -> Running {
        if ok {
            self.undoes()
        } else if self.failure is Some {
            self.goes(RunPhase::End, RunAction::Abort)
        } else {
            self.fails(failure)
        }
    }

    /// What follows an action that succeeded or did not.
    pub open spec fn next(self, ok: bool) -> Running {
        match self.phase {
            RunPhase::CheckSlots => if ok {
                self.goes(RunPhase::Register, RunAction::Register)
            } else {
                self.fails(RunFailure::Slots)
            },
            RunPhase::Register => GuestRun { registered: true, ..self }.goes(
                RunPhase::Unblock,
                RunAction::UnblockSignals,
            ),
            RunPhase::Unblock => if ok {
                GuestRun { unblocked: true, ..self }.goes(
                    RunPhase::MapStack,
                    RunAction::MapStack { len: self.stack.mapping_size },
                )
            } else {
                self.fails(RunFailure::UnblockSignals)
            },
            RunPhase::MapStack => if ok {
                GuestRun { mapped: true, ..self }.goes(
                    RunPhase::GuardStack,
                    RunAction::GuardStack { len: PAGE_SIZE },
                )
            } else {
                self.fails(RunFailure::MapStack)
            },
            RunPhase::GuardStack => if ok {
                self.goes(
                    RunPhase::InstallStack,
                    RunAction::InstallStack { offset: PAGE_SIZE, size: self.stack.stack_size },
                )
            } else {
                self.fails(RunFailure::GuardStack)
            },
            RunPhase::InstallStack => if ok {
                GuestRun { installed: true, ..self }.goes(RunPhase::Run, RunAction::RunGuest)
            } else {
                self.fails(RunFailure::InstallStack)
            },
            RunPhase::Run => self.undoes(),
            RunPhase::RestoreStack => GuestRun { installed: false, ..self }.undoes_on(
                ok,
                RunFailure::RestoreStack,
            ),
            RunPhase::UnmapStack => GuestRun { mapped: false, ..self }.undoes_on(
                ok,
                RunFailure::UnmapStack,
            ),
            RunPhase::RestoreMask => GuestRun { unblocked: false, ..self }.undoes_on(
                ok,
                RunFailure::RestoreMask,
            ),
            RunPhase::Unregister | RunPhase::End => GuestRun {
                registered: false,
                ..self
            }.undoes(),
        }
    }

    fn go(self, phase: RunPhase, action: RunAction) -> (next: Running)
        ensures
            next == self.goes(phase, action),
    {
        Running { run: GuestRun { phase, ..self }, action }
    }

    fn undo(self) -> (next: Running)
        ensures
            next == self.undoes(),
    {
        if self.installed {
            self.go(RunPhase::RestoreStack, RunAction::RestoreStack)
        } else if self.mapped {
            self.go(
                RunPhase::UnmapStack,
                RunAction::UnmapStack { len: self.stack.mapping_size },
            )
        } else if self.unblocked {
            self.go(RunPhase::RestoreMask, RunAction::RestoreMask)
        } else if self.registered {
            self.go(RunPhase::Unregister, RunAction::Unregister)
        } else {
            match self.failure {
                Some(f) => self.go(RunPhase::End, RunAction::Fatal(f)),
                None => self.go(RunPhase::End, RunAction::Finish),
            }
        }
    }

    fn fail(self, failure: RunFailure) -> (next: Running)
        ensures
            next == self.fails(failure),
    {
        let failed = GuestRun { failure: Some(failure), ..self };
        failed.undo()
    }

    fn undo_on(self, ok: bool, failure: RunFailure) -> (next: Running)
        ensures
            next == self.undoes_on(ok, failure),
    {
        if ok {
            self.undo()
        } else if self.failure.is_some() {
            self.go(RunPhase::End, RunAction::Abort)
        } else {
            self.fail(failure)
        }
    }

    /// The first action of running a guest with this stack for signal handlers,
    /// on a thread that may run one already.
    pub fn run_thread(active: bool, stack: AltStack) -> (first: Running)
        ensures
            ({
                let run = GuestRun {
                    stack,
                    registered: false,
                    unblocked: false,
                    mapped: false,
                    installed: false,
                    failure: None,
                    phase: RunPhase::End,
                };
                first == if active {
                    run.fails(RunFailure::Nested)
                } else {
                    run.goes(RunPhase::CheckSlots, RunAction::CheckSlots)
                }
            }),
            first.run.wf(),
            active ==> first.action == RunAction::Fatal(RunFailure::Nested),
            !active ==> first.action == RunAction::CheckSlots,
    {
        let run = GuestRun {
            stack,
            registered: false,
            unblocked: false,
            mapped: false,
            installed: false,
            failure: None,
            phase: RunPhase::End,
        };
        if active {
            run.fail(RunFailure::Nested)
        } else {
            run.go(RunPhase::CheckSlots, RunAction::CheckSlots)
        }
    }

    /// Takes whether the last action succeeded and returns what has to be done
    /// next.
    pub fn step(&mut self, ok: bool) -> (action: RunAction)
        requires
            old(self).wf(),
            !(old(self).phase is End),
        ensures
            (Running { run: *final(self), action }) == old(self).next(ok),
            final(self).wf(),
    {
        let now = *self;
        let next = match now.phase {
            RunPhase::CheckSlots => if ok {
                now.go(RunPhase::Register, RunAction::Register)
            } else {
                now.fail(RunFailure::Slots)
            },
            RunPhase::Register => {
                let on = GuestRun { registered: true, ..now };
                on.go(RunPhase::Unblock, RunAction::UnblockSignals)
            },
            RunPhase::Unblock => if ok {
                let on = GuestRun { unblocked: true, ..now };
                on.go(
                    RunPhase::MapStack,
                    RunAction::MapStack { len: now.stack.mapping_size },
                )
            } else {
                now.fail(RunFailure::UnblockSignals)
            },
            RunPhase::MapStack => if ok {
                let on = GuestRun { mapped: true, ..now };
                on.go(RunPhase::GuardStack, RunAction::GuardStack { len: PAGE_SIZE })
            } else {
                now.fail(RunFailure::MapStack)
            },
            RunPhase::GuardStack => if ok {
                now.go(
                    RunPhase::InstallStack,
                    RunAction::InstallStack { offset: PAGE_SIZE, size: now.stack.stack_size },
                )
            } else {
                now.fail(RunFailure::GuardStack)
            },
            RunPhase::InstallStack => if ok {
                let on = GuestRun { installed: true, ..now };
                on.go(RunPhase::Run, RunAction::RunGuest)
            } else {
                now.fail(RunFailure::InstallStack)
            },
            RunPhase::Run => now.undo(),
            RunPhase::RestoreStack => {
                let on = GuestRun { installed: false, ..now };
                on.undo_on(ok, RunFailure::RestoreStack)
            },
            RunPhase::UnmapStack => {
                let on = GuestRun { mapped: false, ..now };
                on.undo_on(ok, RunFailure::UnmapStack)
            },
            RunPhase::RestoreMask => {
                let on = GuestRun { unblocked: false, ..now };
                on.undo_on(ok, RunFailure::RestoreMask)
            },
            RunPhase::Unregister | RunPhase::End => {
                let on = GuestRun { registered: false, ..now };
                on.undo()
            },
        };
        *self = next.run;
        next.action
    }
}

/// How many answers a run still waits for, at most.
pub open spec fn run_rank(phase: RunPhase) -> nat {
    match phase {
        RunPhase::CheckSlots => 11,
        RunPhase::Register => 10,
        RunPhase::Unblock => 9,
        RunPhase::MapStack => 8,
        RunPhase::GuardStack => 7,
        RunPhase::InstallStack => 6,
        RunPhase::Run => 5,
        RunPhase::RestoreStack => 4,
        RunPhase::UnmapStack => 3,
        RunPhase::RestoreMask => 2,
        RunPhase::Unregister => 1,
        RunPhase::End => 0,
    }
}

/// A run comes to its end, and unless the process stops at once, all that was
/// set up is undone by then. The guest runs only with all of it in place.
pub proof fn runs_leave_nothing_behind(run: GuestRun, ok: bool)
    requires
        run.wf(),
        !(run.phase is End),
    ensures
        ({
            let next = run.next(ok);
            &&& next.run.wf()
            &&& run_rank(next.run.phase) < run_rank(run.phase)
            &&& next.action is Finish || next.action is Fatal ==> !next.run.registered
                && !next.run.unblocked && !next.run.mapped && !next.run.installed
            &&& next.action is Finish ==> next.run.failure is None
            &&& next.action is RunGuest ==> next.run.registered && next.run.unblocked
                && next.run.mapped && next.run.installed
            &&& next.action is Abort ==> run.failure is Some && !ok
        }),
{
}

/// What a run has set up on its thread, and whether its guest ran.
pub struct RunWorld {
    pub registered: bool,
    pub unblocked: bool,
    /// The memory of the stack, how much of it cannot be touched, and which part
    /// of it signal handlers run on.
    pub mapped: Option<usize>,
    pub guarded: usize,
    pub installed: Option<(usize, usize)>,
    pub ran: bool,
    /// The first action that did not succeed.
    pub failed: Option<RunAction>,
}

impl RunWorld {
    /// Nothing is set up.
    pub open spec fn untouched() -> RunWorld {
        RunWorld {
            registered: false,
            unblocked: false,
            mapped: None,
            guarded: 0,
            installed: None,
            ran: false,
            failed: None,
        }
    }

    /// The world once an action has succeeded or not. What is undone counts as
    /// undone once that was asked for.
    pub open spec fn step(self, action: RunAction, ok: bool) -> RunWorld {
        let w = RunWorld {
            failed: if ok || self.failed is Some {
                self.failed
            } else {
                Some(action)
            },
            ..self
        };
        match action {
            RunAction::Register => RunWorld { registered: true, failed: self.failed, ..w },
            RunAction::UnblockSignals => RunWorld { unblocked: ok, ..w },
            RunAction::MapStack { len } => RunWorld {
                mapped: if ok {
                    Some(len)
                } else {
                    None
                },
                ..w
            },
            RunAction::GuardStack { len } => RunWorld {
                guarded: if ok {
                    len
                } else {
                    0
                },
                ..w
            },
            RunAction::InstallStack { offset, size } => RunWorld {
                installed: if ok {
                    Some((offset, size))
                } else {
                    None
                },
                ..w
            },
            RunAction::RunGuest => RunWorld { ran: true, failed: self.failed, ..w },
            RunAction::RestoreStack => RunWorld { installed: None, ..w },
            RunAction::UnmapStack { len } => RunWorld {
                mapped: if w.mapped == Some(len) {
                    None
                } else {
                    w.mapped
                },
                ..w
            },
            RunAction::RestoreMask => RunWorld { unblocked: false, ..w },
            RunAction::Unregister => RunWorld {
                registered: false,
                failed: self.failed,
                ..w
            },
            _ => w,
        }
    }
}

/// The run, and the world, after these answers.
pub open spec fn after_run(now: Running, w: RunWorld, answers: Seq<bool>) -> (Running, RunWorld)
    decreases answers.len(),
{
    if answers.len() == 0 || now.run.phase is End {
        (now, w)
    } else {
        after_run(now.run.next(answers[0]), w.step(now.action, answers[0]), answers.drop_first())
    }
}

/// The failure that goes with an action that did not succeed.
pub open spec fn failure_of(action: RunAction) -> Option<RunFailure> {
    match action {
        RunAction::CheckSlots => Some(RunFailure::Slots),
        RunAction::UnblockSignals => Some(RunFailure::UnblockSignals),
        RunAction::MapStack { .. } => Some(RunFailure::MapStack),
        RunAction::GuardStack { .. } => Some(RunFailure::GuardStack),
        RunAction::InstallStack { .. } => Some(RunFailure::InstallStack),
        RunAction::RestoreStack => Some(RunFailure::RestoreStack),
        RunAction::UnmapStack { .. } => Some(RunFailure::UnmapStack),
        RunAction::RestoreMask => Some(RunFailure::RestoreMask),
        _ => None,
    }
}

spec fn run_inv(stack: AltStack, now: Running, w: RunWorld) -> bool {
    let r = now.run;
    &&& r.wf()
    &&& r.stack == stack
    &&& !(now.action is Abort) ==> {
        &&& w.registered == r.registered
        &&& w.unblocked == r.unblocked
        &&& w.mapped == if r.mapped {
            Some(stack.mapping_size)
        } else {
            None
        }
        &&& w.installed == if r.installed {
            Some((PAGE_SIZE, stack.stack_size))
        } else {
            None
        }
    }
    &&& match w.failed {
        Some(action) => r.failure == failure_of(action) && r.failure is Some,
        None => r.failure is None,
    }
    &&& match r.phase {
        RunPhase::CheckSlots => now.action is CheckSlots && w == RunWorld::untouched(),
        RunPhase::Register => now.action is Register && r.failure is None && !w.ran,
        RunPhase::Unblock => now.action is UnblockSignals && r.failure is None && !w.ran,
        RunPhase::MapStack => now.action == (RunAction::MapStack { len: stack.mapping_size })
            && r.failure is None && !w.ran,
        RunPhase::GuardStack => now.action == (RunAction::GuardStack { len: PAGE_SIZE })
            && r.failure is None && !w.ran,
        RunPhase::InstallStack => now.action == (RunAction::InstallStack {
            offset: PAGE_SIZE,
            size: stack.stack_size,
        }) && r.failure is None && !w.ran && w.guarded == PAGE_SIZE,
        RunPhase::Run => now.action is RunGuest && r.failure is None && !w.ran && w.guarded
            == PAGE_SIZE,
        RunPhase::RestoreStack => now.action is RestoreStack && (w.ran || r.failure is Some),
        RunPhase::UnmapStack => now.action == (RunAction::UnmapStack { len: stack.mapping_size })
            && (w.ran || r.failure is Some),
        RunPhase::RestoreMask => now.action is RestoreMask && (w.ran || r.failure is Some),
        RunPhase::Unregister => now.action is Unregister && (w.ran || r.failure is Some),
        RunPhase::End => match now.action {
            RunAction::Finish => w.ran && r.failure is None && !r.registered && !r.unblocked
                && !r.mapped && !r.installed,
            RunAction::Fatal(f) => r.failure == Some(f) && !r.registered && !r.unblocked
                && !r.mapped && !r.installed,
            RunAction::Abort => r.failure is Some,
            _ => false,
        },
    }
}

proof fn run_is_kept(stack: AltStack, now: Running, w: RunWorld, answers: Seq<bool>)
    requires
        run_inv(stack, now, w),
    ensures
        ({
            let (end, world) = after_run(now, w, answers);
            run_inv(stack, end, world)
        }),
    decreases answers.len(),
{
    if answers.len() > 0 && !(now.run.phase is End) {
        run_is_kept(
            stack,
            now.run.next(answers[0]),
            w.step(now.action, answers[0]),
            answers.drop_first(),
        );
    }
}

/// A run that ends well ran its guest. It did so on a thread that was registered,
/// let the signals of the host through, and had a stack for their handlers of the
/// planned size above a page that cannot be touched; and it has undone all that.
/// A run that fails has undone it too, and reports the first thing that failed.
pub proof fn guests_run_on_a_prepared_thread(stack: AltStack, answers: Seq<bool>)
    ensures
        ({
            let first = Running {
                run: GuestRun {
                    stack,
                    registered: false,
                    unblocked: false,
                    mapped: false,
                    installed: false,
                    failure: None,
                    phase: RunPhase::CheckSlots,
                },
                action: RunAction::CheckSlots,
            };
            let (end, w) = after_run(first, RunWorld::untouched(), answers);
            &&& end.action is RunGuest ==> {
                &&& w.registered && w.unblocked && !w.ran
                &&& w.mapped == Some(stack.mapping_size)
                &&& w.guarded == PAGE_SIZE
                &&& w.installed == Some((PAGE_SIZE, stack.stack_size))
                &&& w.failed is None
            }
            &&& end.action is Finish ==> w.ran && w.failed is None
            &&& end.action is Finish || end.action is Fatal ==> !w.registered && !w.unblocked
                && w.mapped is None && w.installed is None
            &&& end.action matches RunAction::Fatal(f) ==> (w.failed matches Some(action)
                && failure_of(action) == Some(f))
        }),
{
    let first = Running {
        run: GuestRun {
            stack,
            registered: false,
            unblocked: false,
            mapped: false,
            installed: false,
            failure: None,
            phase: RunPhase::CheckSlots,
        },
        action: RunAction::CheckSlots,
    };
    run_is_kept(stack, first, RunWorld::untouched(), answers);
}

} // verus!
