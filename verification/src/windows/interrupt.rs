//! Interrupting a thread that runs a guest on Windows.

use vstd::prelude::*;

use crate::mm::ranges::AddrRange;

verus! {

/// Whether the instruction lies in one of the modules.
pub open spec fn in_modules(ip: usize, modules: Seq<AddrRange>) -> bool {
    exists|i: int| 0 <= i < modules.len() && (#[trigger] modules[i]).holds(ip as int)
}

/// Whether the instruction lies in one of the modules.
pub fn is_in_ntdll_or_this(ip: usize, modules: &[AddrRange]) -> (inside: bool)
    ensures
        inside == in_modules(ip, modules@),
{
    let mut i: usize = 0;
    while i < modules.len()
        invariant
            i <= modules.len(),
            forall|k: int| 0 <= k < i ==> !(#[trigger] modules@[k]).holds(ip as int),
        decreases modules.len() - i,
    {
        let m = modules[i];
        if m.start <= ip && ip < m.end {
            assert(modules@[i as int].holds(ip as int));
            return true;
        }
        i += 1;
    }
    false
}

/// Where a thread is that counts as being in its guest.
#[derive(Clone, Copy, Debug, PartialEq, Eq, Structural)]
pub enum GuestPlace {
    /// On its way there, loading its registers, which are saved still.
    Entering,
    /// On its way there by way of the host, which has its registers; or on its
    /// way from there, after an exception.
    Host,
    /// In the guest proper.
    Guest,
}

/// Where a thread is, by its instruction, the code that loads registers, and
/// the modules of the host.
pub fn place_of(ip: usize, switch: AddrRange, modules: &[AddrRange]) -> (place: GuestPlace)
    ensures
        place == if switch.holds(ip as int) {
            GuestPlace::Entering
        } else if in_modules(ip, modules@) {
            GuestPlace::Host
        } else {
            GuestPlace::Guest
        },
{
    if switch.start <= ip && ip < switch.end {
        GuestPlace::Entering
    } else if is_in_ntdll_or_this(ip, modules) {
        GuestPlace::Host
    } else {
        GuestPlace::Guest
    }
}

/// Why the process has to stop.
#[derive(Clone, Copy, Debug, PartialEq, Eq, Structural)]
pub enum InterruptFailure {
    /// The registers of the thread cannot be read.
    Capture,
    /// The vector registers of the guest cannot be copied.
    Copy,
}

/// What has to be done next.
#[derive(Clone, Copy, Debug, PartialEq, Eq, Structural)]
pub enum InterruptAction {
    /// Note for this thread that its guest is to be interrupted.
    NoteSelf,
    /// Suspend the thread.
    Suspend,
    /// Note for the thread that its guest is to be interrupted.
    Note,
    /// Read its registers.
    Capture,
    /// Save them as those of its guest.
    Save,
    /// Send it to the interrupt callback.
    Redirect,
    /// Send it to the interrupt callback where the host would have it go on in
    /// its guest.
    RedirectContinuation,
    /// Resume the thread.
    Resume,
    Finish,
    Fatal(InterruptFailure),
}

/// What the host answers.
#[derive(Clone, Copy, Debug, PartialEq, Eq, Structural)]
pub enum InterruptEvent {
    Done,
    /// The thread is suspended, in its guest or not.
    Suspended { in_guest: bool },
    /// Where the thread is, if its registers can be read.
    Captured(Option<GuestPlace>),
    /// Whether the registers were saved.
    Saved(bool),
}

/// What the interruption is waiting for.
#[derive(Clone, Copy, Debug, PartialEq, Eq, Structural)]
pub enum InterruptPhase {
    NoteSelf,
    Suspend,
    Note { in_guest: bool },
    Capture,
    Save,
    Redirect,
    RedirectContinuation,
    /// After which the process may have to stop.
    Resume(Option<InterruptFailure>),
    End,
}

/// A thread being interrupted.
#[derive(Clone, Copy, Debug, PartialEq, Eq, Structural)]
pub struct Interruption {
    /// Whether there is a guest to be interrupted.
    pub managed: bool,
    /// Whether this was noted.
    pub noted: bool,
    /// Whether the thread is suspended.
    pub suspended: bool,
    pub phase: InterruptPhase,
}

/// An interruption and the action that it asks for.
#[derive(Clone, Copy, Debug, PartialEq, Eq, Structural)]
pub struct Interrupting {
    pub interruption: Interruption,
    pub action: InterruptAction,
}

impl Interruption {
    /// A thread is suspended from the first answer on until it is resumed, and
    /// what is to be noted is noted by then.
    pub open spec fn wf(self) -> bool {
        match self.phase {
            InterruptPhase::NoteSelf => self.managed && !self.noted && !self.suspended,
            InterruptPhase::Suspend => self.managed && !self.noted && !self.suspended,
            InterruptPhase::Note { .. } => self.managed && !self.noted && self.suspended,
            InterruptPhase::End => self.noted == self.managed && !self.suspended,
            _ => self.managed && self.noted && self.suspended,
        }
    }

    /// Whether the event answers what the interruption waits for.
    pub open spec fn accepts(self, event: InterruptEvent) -> bool {
        match self.phase {
            InterruptPhase::Suspend => event is Suspended,
            InterruptPhase::Capture => event is Captured,
            InterruptPhase::Save => event is Saved,
            InterruptPhase::End => false,
            _ => event is Done,
        }
    }

    /// Whether the event answers what the interruption waits for.
    pub fn is_answered_by(&self, event: InterruptEvent) -> (answered: bool)
        ensures
            answered == self.accepts(event),
    {
        match self.phase {
            InterruptPhase::Suspend => matches!(event, InterruptEvent::Suspended { .. }),
            InterruptPhase::Capture => matches!(event, InterruptEvent::Captured(_)),
            InterruptPhase::Save => matches!(event, InterruptEvent::Saved(_)),
            InterruptPhase::End => false,
            _ => matches!(event, InterruptEvent::Done),
        }
    }

    pub open spec fn goes(self, phase: InterruptPhase, action: InterruptAction) -> Interrupting {
        Interrupting { interruption: Interruption { phase, ..self }, action }
    }

    /// The thread goes on, after which the process may have to stop.
    pub open spec fn resumes(self, failure: Option<InterruptFailure>) -> Interrupting {
        self.goes(InterruptPhase::Resume(failure), InterruptAction::Resume)
    }

    /// What follows an event that answers what the interruption waits for.
    pub open spec fn next(self, event: InterruptEvent) -> Interrupting {
        match (self.phase, event) {
            (InterruptPhase::NoteSelf, _) => Interruption { noted: true, ..self }.goes(
                InterruptPhase::End,
                InterruptAction::Finish,
            ),
            (InterruptPhase::Suspend, InterruptEvent::Suspended { in_guest }) => Interruption {
                suspended: true,
                ..self
            }.goes(InterruptPhase::Note { in_guest }, InterruptAction::Note),
            (InterruptPhase::Note { in_guest }, _) => {
                let now = Interruption { noted: true, ..self };
                if in_guest {
                    now.goes(InterruptPhase::Capture, InterruptAction::Capture)
                } else {
                    now.resumes(None)
                }
            },
            (InterruptPhase::Capture, InterruptEvent::Captured(place)) => match place {
                None => self.resumes(Some(InterruptFailure::Capture)),
                Some(GuestPlace::Entering) => self.goes(
                    InterruptPhase::Redirect,
                    InterruptAction::Redirect,
                ),
                Some(GuestPlace::Host) => self.goes(
                    InterruptPhase::RedirectContinuation,
                    InterruptAction::RedirectContinuation,
                ),
                Some(GuestPlace::Guest) => self.goes(InterruptPhase::Save, InterruptAction::Save),
            },
            (InterruptPhase::Save, InterruptEvent::Saved(saved)) => if saved {
                self.goes(InterruptPhase::Redirect, InterruptAction::Redirect)
            } else {
                self.resumes(Some(InterruptFailure::Copy))
            },
            (InterruptPhase::Resume(failure), _) => Interruption { suspended: false, ..self }.goes(
                InterruptPhase::End,
                match failure {
                    Some(f) => InterruptAction::Fatal(f),
                    None => InterruptAction::Finish,
                },
            ),
            _ => self.resumes(None),
        }
    }

    fn go(self, phase: InterruptPhase, action: InterruptAction) -> (next: Interrupting)
        ensures
            next == self.goes(phase, action),
    {
        Interrupting { interruption: Interruption { phase, ..self }, action }
    }

    fn resume(self, failure: Option<InterruptFailure>) -> (next: Interrupting)
        ensures
            next == self.resumes(failure),
    {
        self.go(InterruptPhase::Resume(failure), InterruptAction::Resume)
    }

    /// The first action of interrupting a thread: this one, or another, which
    /// may not run a guest any more.
    pub open spec fn first(is_self: bool, managed: bool) -> Interrupting {
        let start = Interruption {
            managed: is_self || managed,
            noted: false,
            suspended: false,
            phase: InterruptPhase::End,
        };
        if is_self {
            start.goes(InterruptPhase::NoteSelf, InterruptAction::NoteSelf)
        } else if managed {
            start.goes(InterruptPhase::Suspend, InterruptAction::Suspend)
        } else {
            start.goes(InterruptPhase::End, InterruptAction::Finish)
        }
    }

    /// The first action of interrupting a thread: this one, or another, which
    /// may not run a guest any more.
    pub fn interrupt(is_self: bool, managed: bool) -> (first: Interrupting)
        ensures
            first == Interruption::first(is_self, managed),
            first.interruption.wf(),
    {
        let start = Interruption {
            managed: is_self || managed,
            noted: false,
            suspended: false,
            phase: InterruptPhase::End,
        };
        if is_self {
            start.go(InterruptPhase::NoteSelf, InterruptAction::NoteSelf)
        } else if managed {
            start.go(InterruptPhase::Suspend, InterruptAction::Suspend)
        } else {
            start.go(InterruptPhase::End, InterruptAction::Finish)
        }
    }

    /// Takes the reply of the host and returns what has to be done next.
    pub fn step(&mut self, event: InterruptEvent) -> (action: InterruptAction)
        requires
            old(self).wf(),
            old(self).accepts(event),
        ensures
            (Interrupting { interruption: *final(self), action }) == old(self).next(event),
            final(self).wf(),
    {
        let now = *self;
        let next = match (now.phase, event) {
            (InterruptPhase::NoteSelf, _) => {
                let noted = Interruption { noted: true, ..now };
                noted.go(InterruptPhase::End, InterruptAction::Finish)
            },
            (InterruptPhase::Suspend, InterruptEvent::Suspended { in_guest }) => {
                let suspended = Interruption { suspended: true, ..now };
                suspended.go(InterruptPhase::Note { in_guest }, InterruptAction::Note)
            },
            (InterruptPhase::Note { in_guest }, _) => {
                let noted = Interruption { noted: true, ..now };
                if in_guest {
                    noted.go(InterruptPhase::Capture, InterruptAction::Capture)
                } else {
                    noted.resume(None)
                }
            },
            (InterruptPhase::Capture, InterruptEvent::Captured(place)) => match place {
                None => now.resume(Some(InterruptFailure::Capture)),
                Some(GuestPlace::Entering) => now.go(
                    InterruptPhase::Redirect,
                    InterruptAction::Redirect,
                ),
                Some(GuestPlace::Host) => now.go(
                    InterruptPhase::RedirectContinuation,
                    InterruptAction::RedirectContinuation,
                ),
                Some(GuestPlace::Guest) => now.go(InterruptPhase::Save, InterruptAction::Save),
            },
            (InterruptPhase::Save, InterruptEvent::Saved(saved)) => if saved {
                now.go(InterruptPhase::Redirect, InterruptAction::Redirect)
            } else {
                now.resume(Some(InterruptFailure::Copy))
            },
            (InterruptPhase::Resume(failure), _) => {
                let resumed = Interruption { suspended: false, ..now };
                match failure {
                    Some(f) => resumed.go(InterruptPhase::End, InterruptAction::Fatal(f)),
                    None => resumed.go(InterruptPhase::End, InterruptAction::Finish),
                }
            },
            _ => now.resume(None),
        };
        *self = next.interruption;
        next.action
    }
}

/// How many answers an interruption still waits for, at most.
pub open spec fn interrupt_rank(phase: InterruptPhase) -> nat {
    match phase {
        InterruptPhase::Suspend => 7,
        InterruptPhase::Note { .. } => 6,
        InterruptPhase::Capture => 5,
        InterruptPhase::Save => 4,
        InterruptPhase::Redirect | InterruptPhase::RedirectContinuation => 3,
        InterruptPhase::Resume(_) => 2,
        InterruptPhase::NoteSelf => 1,
        InterruptPhase::End => 0,
    }
}

/// An interruption comes to its end, and when it has, no thread is left
/// suspended and every guest that there was to interrupt will hear of it.
pub proof fn interrupting_ends_well(now: Interruption, event: InterruptEvent)
    requires
        now.wf(),
        now.accepts(event),
    ensures
        ({
            let next = now.next(event);
            &&& next.interruption.wf()
            &&& next.interruption.managed == now.managed
            &&& interrupt_rank(next.interruption.phase) < interrupt_rank(now.phase)
            &&& next.action is Finish || next.action is Fatal <==> next.interruption.phase is End
            &&& next.interruption.phase is End ==> !next.interruption.suspended
                && next.interruption.noted == next.interruption.managed
        }),
{
}

/// The registers of a guest are saved only while it runs: neither where they
/// are saved still nor where the host has them.
pub proof fn saved_registers_are_kept(now: Interruption, event: InterruptEvent)
    requires
        now.wf(),
        now.accepts(event),
    ensures
        now.next(event).action is Save ==> event == InterruptEvent::Captured(
            Some(GuestPlace::Guest),
        ),
{
}

/// What an interruption has done, and what it has heard of its thread.
pub struct InterruptWorld {
    /// Whether it was noted that the guest is to be interrupted.
    pub noted: bool,
    /// Whether the thread is suspended.
    pub suspended: bool,
    /// Whether the thread was found in its guest, and where.
    pub in_guest: bool,
    pub place: Option<GuestPlace>,
    /// Whether the registers of the thread were saved as those of its guest.
    pub saved: bool,
    /// Whether the thread goes on at the interrupt callback, or will once the
    /// host lets it go on.
    pub redirected: bool,
    pub continues_elsewhere: bool,
}

impl InterruptWorld {
    /// Nothing is done.
    pub open spec fn untouched() -> InterruptWorld {
        InterruptWorld {
            noted: false,
            suspended: false,
            in_guest: false,
            place: None,
            saved: false,
            redirected: false,
            continues_elsewhere: false,
        }
    }

    /// The world once an action has come to something.
    pub open spec fn step(self, action: InterruptAction, event: InterruptEvent) -> InterruptWorld {
        match (action, event) {
            (InterruptAction::NoteSelf, _) => InterruptWorld { noted: true, ..self },
            (InterruptAction::Note, _) => InterruptWorld { noted: true, ..self },
            (InterruptAction::Suspend, InterruptEvent::Suspended { in_guest }) => InterruptWorld {
                suspended: true,
                in_guest,
                ..self
            },
            (InterruptAction::Capture, InterruptEvent::Captured(place)) => InterruptWorld {
                place,
                ..self
            },
            (InterruptAction::Save, InterruptEvent::Saved(saved)) => InterruptWorld {
                saved,
                ..self
            },
            (InterruptAction::Redirect, _) => InterruptWorld { redirected: true, ..self },
            (InterruptAction::RedirectContinuation, _) => InterruptWorld {
                continues_elsewhere: true,
                ..self
            },
            (InterruptAction::Resume, _) => InterruptWorld { suspended: false, ..self },
            _ => self,
        }
    }
}

/// Whether each event answers the action before it.
pub open spec fn is_interrupt_run(now: Interrupting, events: Seq<InterruptEvent>) -> bool
    decreases events.len(),
{
    events.len() == 0 || (now.interruption.accepts(events[0]) && is_interrupt_run(
        now.interruption.next(events[0]),
        events.drop_first(),
    ))
}

/// The interruption, and the world, after the events.
pub open spec fn after_interrupt(
    now: Interrupting,
    w: InterruptWorld,
    events: Seq<InterruptEvent>,
) -> (Interrupting, InterruptWorld)
    decreases events.len(),
{
    if events.len() == 0 {
        (now, w)
    } else {
        after_interrupt(
            now.interruption.next(events[0]),
            w.step(now.action, events[0]),
            events.drop_first(),
        )
    }
}

/// Whether the guest will be left for the interrupt callback: at once, with its
/// registers saved if it had begun to run; once the host lets it go on, where the
/// host has its registers; and not at all where the thread is not in it.
pub open spec fn is_diverted(w: InterruptWorld) -> bool {
    if !w.in_guest {
        !w.redirected && !w.continues_elsewhere && !w.saved
    } else {
        match w.place {
            Some(GuestPlace::Entering) => w.redirected && !w.continues_elsewhere && !w.saved,
            Some(GuestPlace::Host) => !w.redirected && w.continues_elsewhere && !w.saved,
            Some(GuestPlace::Guest) => w.redirected && !w.continues_elsewhere && w.saved,
            None => false,
        }
    }
}

spec fn interrupt_inv(is_self: bool, managed: bool, now: Interrupting, w: InterruptWorld) -> bool {
    let undiverted = !w.redirected && !w.continues_elsewhere;
    match now.interruption.phase {
        InterruptPhase::NoteSelf => {
            &&& now.action is NoteSelf
            &&& is_self
            &&& w == InterruptWorld::untouched()
        },
        InterruptPhase::Suspend => {
            &&& now.action is Suspend
            &&& !is_self && managed
            &&& w == InterruptWorld::untouched()
        },
        InterruptPhase::Note { in_guest } => {
            &&& now.action is Note
            &&& !is_self && managed
            &&& w.suspended && w.in_guest == in_guest && undiverted && !w.saved
        },
        InterruptPhase::Capture => {
            &&& now.action is Capture
            &&& !is_self && managed
            &&& w.suspended && w.noted && w.in_guest && undiverted && !w.saved
        },
        InterruptPhase::Save => {
            &&& now.action is Save
            &&& !is_self && managed
            &&& w.suspended && w.noted && w.in_guest && undiverted && w.place == Some(
                GuestPlace::Guest,
            )
        },
        InterruptPhase::Redirect => {
            &&& now.action is Redirect
            &&& !is_self && managed
            &&& w.suspended && w.noted && w.in_guest && undiverted
            &&& w.place == Some(GuestPlace::Entering) && !w.saved || w.place == Some(
                GuestPlace::Guest,
            ) && w.saved
        },
        InterruptPhase::RedirectContinuation => {
            &&& now.action is RedirectContinuation
            &&& !is_self && managed
            &&& w.suspended && w.noted && w.in_guest && undiverted && !w.saved && w.place == Some(
                GuestPlace::Host,
            )
        },
        InterruptPhase::Resume(failure) => {
            &&& now.action is Resume
            &&& !is_self && managed
            &&& w.suspended && w.noted
            &&& failure is None ==> is_diverted(w)
            &&& failure == Some(InterruptFailure::Capture) ==> w.in_guest && w.place is None
                && undiverted
            &&& failure == Some(InterruptFailure::Copy) ==> w.place == Some(GuestPlace::Guest)
                && !w.saved && undiverted
        },
        InterruptPhase::End => match now.action {
            InterruptAction::Finish => {
                &&& !w.suspended
                &&& w.noted == (is_self || managed)
                &&& !is_self && managed ==> is_diverted(w)
            },
            InterruptAction::Fatal(failure) => {
                &&& !w.suspended
                &&& undiverted
                &&& failure == InterruptFailure::Capture ==> w.in_guest && w.place is None
                &&& failure == InterruptFailure::Copy ==> w.place == Some(GuestPlace::Guest)
                    && !w.saved
            },
            _ => false,
        },
    }
}

proof fn interrupt_run_keeps(
    is_self: bool,
    managed: bool,
    now: Interrupting,
    w: InterruptWorld,
    events: Seq<InterruptEvent>,
)
    requires
        interrupt_inv(is_self, managed, now, w),
        is_interrupt_run(now, events),
    ensures
        ({
            let (end, world) = after_interrupt(now, w, events);
            interrupt_inv(is_self, managed, end, world)
        }),
    decreases events.len(),
{
    if events.len() > 0 {
        interrupt_run_keeps(
            is_self,
            managed,
            now.interruption.next(events[0]),
            w.step(now.action, events[0]),
            events.drop_first(),
        );
    }
}

/// A thread that is interrupted does not go on in its guest: wherever it was
/// stopped, it goes to the interrupt callback, and its guest's registers are
/// kept. That the guest is to be interrupted is noted before the thread goes on,
/// and no thread is touched while it is not suspended.
pub proof fn interrupted_guests_are_left(
    is_self: bool,
    managed: bool,
    events: Seq<InterruptEvent>,
)
    requires
        is_interrupt_run(Interruption::first(is_self, managed), events),
    ensures
        ({
            let (end, w) = after_interrupt(
                Interruption::first(is_self, managed),
                InterruptWorld::untouched(),
                events,
            );
            &&& end.action is Finish ==> {
                &&& w.noted == (is_self || managed)
                &&& !w.suspended
                &&& !is_self && managed ==> is_diverted(w)
            }
            &&& end.action is Resume ==> w.noted
            &&& end.action is Capture || end.action is Save || end.action is Redirect
                || end.action is RedirectContinuation ==> w.suspended && w.noted && w.in_guest
            &&& end.action matches InterruptAction::Fatal(failure) ==> !w.suspended && match failure {
                InterruptFailure::Capture => w.in_guest && w.place is None,
                InterruptFailure::Copy => w.place == Some(GuestPlace::Guest) && !w.saved,
            }
        }),
{
    interrupt_run_keeps(
        is_self,
        managed,
        Interruption::first(is_self, managed),
        InterruptWorld::untouched(),
        events,
    );
}

} // verus!
