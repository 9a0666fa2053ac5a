//! Installing the handlers of the host's signals, and the stack they run on.

use vstd::prelude::*;

use crate::arith::{ceil_to, ceil_to_is_least_multiple};
use crate::macos::pages::PAGE_SIZE;
use crate::macos::signals::{host_signals, SIGBUS, SIGILL, SIGSEGV, SIGTRAP};

verus! {

/// Why the handlers could not be installed.
#[derive(Clone, Copy, Debug, PartialEq, Eq, Structural)]
pub enum InstallFault {
    /// The host failed, with an error number.
    Host(i32),
    /// The interrupt signal has a handler already.
    InterruptInUse,
}

impl InstallFault {
    /// The fault in words, where it is not the host's.
    pub fn message(self) -> (message: Option<&'static str>)
        ensures
            match self {
                InstallFault::Host(_) => message is None,
                InstallFault::InterruptInUse => message matches Some(m) && m@
                    == "interrupt signal already has a host handler"@,
            },
    {
        match self {
            InstallFault::Host(_) => None,
            InstallFault::InterruptInUse => Some("interrupt signal already has a host handler"),
        }
    }
}

/// What the host has to do next.
#[derive(Clone, Copy, Debug, PartialEq, Eq, Structural)]
pub enum InstallAction {
    /// Keep how the signal is handled.
    Query { signal: i32 },
    /// Handle the signal, and keep how it was handled.
    Install { signal: i32 },
    /// Handle the signal as it was just before.
    PutBack { signal: i32 },
    /// Handle the signal as it was at first.
    Restore { signal: i32 },
    Finish(Option<InstallFault>),
}

/// What the host answers.
#[derive(Clone, Copy, Debug, PartialEq, Eq)]
pub enum InstallEvent {
    /// The error number, if there is an error.
    Queried(Option<i32>),
    /// Whether the signal was handled by default before.
    Installed(Result<bool, i32>),
    Restored,
}

/// What the installer is waiting for.
#[derive(Clone, Copy, Debug, PartialEq, Eq, Structural)]
pub enum InstallPhase {
    Query { index: usize },
    Install { index: usize },
    PutBack { index: usize },
    /// The first `count` signals are restored, so many being done.
    Restore { done: usize, count: usize, fault: InstallFault },
    End,
}

/// Handlers being installed.
#[derive(Clone, Copy, Debug, PartialEq, Eq, Structural)]
pub struct Installer {
    pub interrupt_signal: i32,
    pub phase: InstallPhase,
}

/// An installer and the action that it asks for.
#[derive(Clone, Copy, Debug, PartialEq, Eq, Structural)]
pub struct Installing {
    pub installer: Installer,
    pub action: InstallAction,
}

impl Installer {
    /// The signal at a place.
    pub open spec fn signal(self, index: int) -> i32 {
        seq![SIGTRAP, SIGSEGV, SIGBUS, SIGILL, self.interrupt_signal][index]
    }

    fn signal_at(&self, index: usize) -> (signal: i32)
        requires
            index < 5,
        ensures
            signal == self.signal(index as int),
    {
        host_signals(self.interrupt_signal)[index]
    }

    pub open spec fn wf(self) -> bool {
        match self.phase {
            InstallPhase::Query { index }
            | InstallPhase::Install { index }
            | InstallPhase::PutBack { index } => index < 5,
            InstallPhase::Restore { done, count, .. } => done < count <= 5,
            InstallPhase::End => true,
        }
    }

    pub open spec fn goes(self, phase: InstallPhase, action: InstallAction) -> Installing {
        Installing { installer: Installer { phase, ..self }, action }
    }

    /// Restores the first `count` signals from the one at `done` on, and fails.
    pub open spec fn gives_up(self, done: int, count: int, fault: InstallFault) -> Installing {
        if done < count {
            self.goes(
                InstallPhase::Restore { done: done as usize, count: count as usize, fault },
                InstallAction::Restore { signal: self.signal(done) },
            )
        } else {
            self.goes(InstallPhase::End, InstallAction::Finish(Some(fault)))
        }
    }

    /// Keeps how the signals from the one at `index` on are handled, then
    /// installs all.
    pub open spec fn queries(self, index: int) -> Installing {
        if index < 5 {
            self.goes(
                InstallPhase::Query { index: index as usize },
                InstallAction::Query { signal: self.signal(index) },
            )
        } else {
            self.installs(0)
        }
    }

    /// Installs the signals from the one at `index` on.
    pub open spec fn installs(self, index: int) -> Installing {
        if index < 5 {
            self.goes(
                InstallPhase::Install { index: index as usize },
                InstallAction::Install { signal: self.signal(index) },
            )
        } else {
            self.goes(InstallPhase::End, InstallAction::Finish(None))
        }
    }

    /// Whether the event answers what the installer waits for.
    pub open spec fn accepts(self, event: InstallEvent) -> bool {
        match self.phase {
            InstallPhase::Query { .. } => event is Queried,
            InstallPhase::Install { .. } => event is Installed,
            InstallPhase::PutBack { .. } | InstallPhase::Restore { .. } => event is Restored,
            InstallPhase::End => false,
        }
    }

    /// Whether the event answers what the installer waits for.
    pub fn is_answered_by(&self, event: InstallEvent) -> (answered: bool)
        ensures
            answered == self.accepts(event),
    {
        match self.phase {
            InstallPhase::Query { .. } => matches!(event, InstallEvent::Queried(_)),
            InstallPhase::Install { .. } => matches!(event, InstallEvent::Installed(_)),
            InstallPhase::PutBack { .. } | InstallPhase::Restore { .. } => {
                matches!(event, InstallEvent::Restored)
            },
            InstallPhase::End => false,
        }
    }

    /// What follows an event that answers what the installer waits for.
    pub open spec fn next(self, event: InstallEvent) -> Installing {
        match (self.phase, event) {
            (InstallPhase::Query { index }, InstallEvent::Queried(error)) => match error {
                Some(e) => self.gives_up(0, 0, InstallFault::Host(e)),
                None => self.queries(index + 1),
            },
            (InstallPhase::Install { index }, InstallEvent::Installed(r)) => match r {
                Err(e) => self.gives_up(0, index as int, InstallFault::Host(e)),
                Ok(was_default) => if self.signal(index as int) == self.interrupt_signal
                    && !was_default {
                    self.goes(
                        InstallPhase::PutBack { index },
                        InstallAction::PutBack { signal: self.signal(index as int) },
                    )
                } else {
                    self.installs(index + 1)
                },
            },
            (InstallPhase::PutBack { index }, _) => self.gives_up(
                0,
                index as int,
                InstallFault::InterruptInUse,
            ),
            (InstallPhase::Restore { done, count, fault }, _) => self.gives_up(
                done + 1,
                count as int,
                fault,
            ),
            _ => arbitrary(),
        }
    }

    fn go(self, phase: InstallPhase, action: InstallAction) -> (next: Installing)
        ensures
            next == self.goes(phase, action),
    {
        Installing { installer: Installer { phase, ..self }, action }
    }

    fn give_up(self, done: usize, count: usize, fault: InstallFault) -> (next: Installing)
        requires
            count <= 5,
        ensures
            next == self.gives_up(done as int, count as int, fault),
            next.installer.wf(),
    {
        if done < count {
            self.go(
                InstallPhase::Restore { done, count, fault },
                InstallAction::Restore { signal: self.signal_at(done) },
            )
        } else {
            self.go(InstallPhase::End, InstallAction::Finish(Some(fault)))
        }
    }

    fn install(self, index: usize) -> (next: Installing)
        ensures
            next == self.installs(index as int),
            next.installer.wf(),
    {
        if index < 5 {
            self.go(
                InstallPhase::Install { index },
                InstallAction::Install { signal: self.signal_at(index) },
            )
        } else {
            self.go(InstallPhase::End, InstallAction::Finish(None))
        }
    }

    fn query(self, index: usize) -> (next: Installing)
        ensures
            next == self.queries(index as int),
            next.installer.wf(),
    {
        if index < 5 {
            self.go(
                InstallPhase::Query { index },
                InstallAction::Query { signal: self.signal_at(index) },
            )
        } else {
            self.install(0)
        }
    }

    /// The first action of installing the handlers, unless they are installed.
    pub fn register_exception_handlers(interrupt_signal: i32, installed: bool) -> (first:
        Installing)
        ensures
            ({
                let installer = Installer { interrupt_signal, phase: InstallPhase::End };
                first == if installed {
                    installer.goes(InstallPhase::End, InstallAction::Finish(None))
                } else {
                    installer.queries(0)
                }
            }),
            first.installer.wf(),
    {
        let installer = Installer { interrupt_signal, phase: InstallPhase::End };
        if installed {
            installer.go(InstallPhase::End, InstallAction::Finish(None))
        } else {
            installer.query(0)
        }
    }

    /// Takes the reply of the host and returns what it has to do next.
    pub fn step(&mut self, event: InstallEvent) -> (action: InstallAction)
        requires
            old(self).wf(),
            old(self).accepts(event),
        ensures
            (Installing { installer: *final(self), action }) == old(self).next(event),
            final(self).wf(),
    {
        let now = *self;
        let next = match (now.phase, event) {
            (InstallPhase::Query { index }, InstallEvent::Queried(error)) => match error {
                Some(e) => now.give_up(0, 0, InstallFault::Host(e)),
                None => now.query(index + 1),
            },
            (InstallPhase::Install { index }, InstallEvent::Installed(r)) => match r {
                Err(e) => now.give_up(0, index, InstallFault::Host(e)),
                Ok(was_default) => {
                    let signal: i32 = now.signal_at(index);
                    if signal == now.interrupt_signal && !was_default {
                        now.go(
                            InstallPhase::PutBack { index },
                            InstallAction::PutBack { signal },
                        )
                    } else {
                        now.install(index + 1)
                    }
                },
            },
            (InstallPhase::PutBack { index }, _) => now.give_up(
                0,
                index,
                InstallFault::InterruptInUse,
            ),
            (InstallPhase::Restore { done, count, fault }, _) => now.give_up(
                done + 1,
                count,
                fault,
            ),
            _ => now.go(InstallPhase::End, InstallAction::Finish(None)),
        };
        *self = next.installer;
        next.action
    }
}

/// Which of the five signals have the platform's handler.
pub open spec fn installed_after(
    before: Set<int>,
    now: Installing,
    event: InstallEvent,
) -> Set<int> {
    match (now.installer.phase, event) {
        (InstallPhase::Install { index }, InstallEvent::Installed(Ok(_))) => before.insert(
            index as int,
        ),
        (InstallPhase::PutBack { index }, _) => before.remove(index as int),
        (InstallPhase::Restore { done, .. }, _) => before.remove(done as int),
        _ => before,
    }
}

/// What each phase says of the signals that have the platform's handler.
pub open spec fn install_inv(now: Installing, installed: Set<int>) -> bool {
    &&& now.installer.wf()
    &&& match now.installer.phase {
        InstallPhase::Query { .. } => installed =~= Set::<int>::empty(),
        InstallPhase::Install { index } => installed =~= Set::new(|i: int| 0 <= i < index),
        InstallPhase::PutBack { index } => installed =~= Set::new(|i: int| 0 <= i <= index),
        InstallPhase::Restore { done, count, .. } => installed =~= Set::new(
            |i: int| done <= i < count,
        ),
        InstallPhase::End => match now.action {
            InstallAction::Finish(Some(_)) => installed =~= Set::<int>::empty(),
            _ => installed =~= Set::new(|i: int| 0 <= i < 5),
        },
    }
}

/// Installing is all or nothing: after each answer the signals with the
/// platform's handler are those that the phase says, so that in the end all
/// five have it, or none where a fault is reported.
pub proof fn installing_is_all_or_nothing(now: Installing, installed: Set<int>, event: InstallEvent)
    requires
        install_inv(now, installed),
        now.installer.accepts(event),
    ensures
        install_inv(now.installer.next(event), installed_after(installed, now, event)),
{
}

/// What an installer has done: for which signals it kept how they were handled,
/// which have the platform's handler, and whether the interrupt signal was free.
pub struct InstallWorld {
    pub kept: Set<i32>,
    pub handled: Set<i32>,
    pub free: bool,
}

impl InstallWorld {
    /// Nothing is done.
    pub open spec fn untouched() -> InstallWorld {
        InstallWorld { kept: Set::empty(), handled: Set::empty(), free: false }
    }

    /// The world once an action has come to something.
    pub open spec fn step(
        self,
        interrupt_signal: i32,
        action: InstallAction,
        event: InstallEvent,
    ) -> InstallWorld {
        match (action, event) {
            (InstallAction::Query { signal }, InstallEvent::Queried(None)) => InstallWorld {
                kept: self.kept.insert(signal),
                ..self
            },
            (InstallAction::Install { signal }, InstallEvent::Installed(Ok(was_default))) => {
                InstallWorld {
                    handled: self.handled.insert(signal),
                    free: if signal == interrupt_signal {
                        was_default
                    } else {
                        self.free
                    },
                    ..self
                }
            },
            (InstallAction::PutBack { signal }, _) => InstallWorld {
                handled: self.handled.remove(signal),
                ..self
            },
            (InstallAction::Restore { signal }, _) => InstallWorld {
                handled: self.handled.remove(signal),
                ..self
            },
            _ => self,
        }
    }
}

/// Whether each event answers the action before it.
pub open spec fn is_install_run(now: Installing, events: Seq<InstallEvent>) -> bool
    decreases events.len(),
{
    events.len() == 0 || (now.installer.accepts(events[0]) && is_install_run(
        now.installer.next(events[0]),
        events.drop_first(),
    ))
}

/// The installer, and the world, after the events.
pub open spec fn after_install(now: Installing, w: InstallWorld, events: Seq<InstallEvent>) -> (
    Installing,
    InstallWorld,
)
    decreases events.len(),
{
    if events.len() == 0 {
        (now, w)
    } else {
        after_install(
            now.installer.next(events[0]),
            w.step(now.installer.interrupt_signal, now.action, events[0]),
            events.drop_first(),
        )
    }
}

/// Whether the set holds those of the five signals from the place `from` on up
/// to `to`, and nothing else.
spec fn holds_places(signals: Set<i32>, interrupt_signal: i32, from: int, to: int) -> bool {
    forall|s: i32| #[trigger]
        signals.contains(s) <==> {
            ||| from <= 0 < to && s == 5
            ||| from <= 1 < to && s == 11
            ||| from <= 2 < to && s == 10
            ||| from <= 3 < to && s == 4
            ||| from <= 4 < to && s == interrupt_signal
        }
}

spec fn install_holds(interrupt_signal: i32, now: Installing, w: InstallWorld) -> bool {
    let i = now.installer;
    &&& i.wf()
    &&& i.interrupt_signal == interrupt_signal
    &&& match i.phase {
        InstallPhase::Query { index } => {
            &&& now.action == (InstallAction::Query { signal: i.signal(index as int) })
            &&& holds_places(w.kept, interrupt_signal, 0, index as int)
            &&& holds_places(w.handled, interrupt_signal, 0, 0)
        },
        InstallPhase::Install { index } => {
            &&& now.action == (InstallAction::Install { signal: i.signal(index as int) })
            &&& holds_places(w.kept, interrupt_signal, 0, 5)
            &&& holds_places(w.handled, interrupt_signal, 0, index as int)
        },
        InstallPhase::PutBack { index } => {
            &&& now.action == (InstallAction::PutBack { signal: i.signal(index as int) })
            &&& holds_places(w.handled, interrupt_signal, 0, index + 1)
        },
        InstallPhase::Restore { done, count, .. } => {
            &&& now.action == (InstallAction::Restore { signal: i.signal(done as int) })
            &&& holds_places(w.handled, interrupt_signal, done as int, count as int)
        },
        InstallPhase::End => match now.action {
            InstallAction::Finish(None) => {
                &&& holds_places(w.handled, interrupt_signal, 0, 5)
                &&& holds_places(w.kept, interrupt_signal, 0, 5)
                &&& w.free
            },
            InstallAction::Finish(Some(_)) => holds_places(w.handled, interrupt_signal, 0, 0),
            _ => false,
        },
    }
}

proof fn install_run_keeps(
    interrupt_signal: i32,
    now: Installing,
    w: InstallWorld,
    events: Seq<InstallEvent>,
)
    requires
        install_holds(interrupt_signal, now, w),
        is_install_run(now, events),
        interrupt_signal != 4,
        interrupt_signal != 5,
        interrupt_signal != 10,
        interrupt_signal != 11,
    ensures
        ({
            let (end, world) = after_install(now, w, events);
            install_holds(interrupt_signal, end, world)
        }),
    decreases events.len(),
{
    if events.len() > 0 {
        install_run_keeps(
            interrupt_signal,
            now.installer.next(events[0]),
            w.step(now.installer.interrupt_signal, now.action, events[0]),
            events.drop_first(),
        );
    }
}

/// Handlers are installed for breakpoints, bad references, bad instructions and
/// the interrupt signal, for all of them or, where that fails, for none. How a
/// signal was handled is known before any handler is installed, and an interrupt
/// signal that someone else handles is not taken.
pub proof fn handlers_are_installed_for_all_signals(
    interrupt_signal: i32,
    events: Seq<InstallEvent>,
    signal: i32,
)
    requires
        interrupt_signal != SIGTRAP,
        interrupt_signal != SIGSEGV,
        interrupt_signal != SIGBUS,
        interrupt_signal != SIGILL,
        ({
            let fresh = Installer { interrupt_signal, phase: InstallPhase::End };
            is_install_run(fresh.queries(0), events)
        }),
    ensures
        ({
            let fresh = Installer { interrupt_signal, phase: InstallPhase::End };
            let (end, w) = after_install(fresh.queries(0), InstallWorld::untouched(), events);
            let ours = signal == SIGTRAP || signal == SIGSEGV || signal == SIGBUS || signal
                == SIGILL || signal == interrupt_signal;
            &&& end.action == InstallAction::Finish(None) ==> {
                &&& w.handled.contains(signal) <==> ours
                &&& ours ==> w.kept.contains(signal)
                &&& w.free
            }
            &&& end.action matches InstallAction::Finish(Some(_)) ==> !w.handled.contains(signal)
            &&& end.action is Install ==> (ours ==> w.kept.contains(signal))
            &&& end.action matches InstallAction::Restore { signal: s } ==> w.handled.contains(s)
            &&& end.action matches InstallAction::PutBack { signal: s } ==> w.handled.contains(s)
        }),
{
    let fresh = Installer { interrupt_signal, phase: InstallPhase::End };
    install_run_keeps(interrupt_signal, fresh.queries(0), InstallWorld::untouched(), events);
}

/// A stack for signal handlers, with a page below it that cannot be touched.
#[derive(Clone, Copy, Debug, PartialEq, Eq, Structural)]
pub struct AltStack {
    pub stack_size: usize,
    pub mapping_size: usize,
}

/// The sizes of the stack for signal handlers, for a host that recommends
/// `recommended` bytes: twice as much, in whole pages.
pub fn with_signal_alt_stack(recommended: usize) -> (stack: AltStack)
    requires
        recommended <= usize::MAX / 4 - PAGE_SIZE,
    ensures
        stack.stack_size == ceil_to(2 * recommended, PAGE_SIZE as int),
        stack.mapping_size == stack.stack_size + PAGE_SIZE,
        2 * recommended <= stack.stack_size < 2 * recommended + PAGE_SIZE,
        stack.stack_size % PAGE_SIZE == 0,
{
    proof {
        ceil_to_is_least_multiple(2 * recommended, PAGE_SIZE as int);
    }
    let top: usize = recommended * 2 + (PAGE_SIZE - 1);
    let stack_size: usize = top - top % PAGE_SIZE;
    AltStack { stack_size, mapping_size: PAGE_SIZE + stack_size }
}

} // verus!
