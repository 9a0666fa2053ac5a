//! Thread-local storage of a guest thread on macOS: a block of slots that lie
//! side by side, so that gates can reach them from the thread register.

use vstd::prelude::*;

use crate::macos::pages::{EBUSY, ENOTSUP};
use crate::platform::{ArchSpecificError, ArchSpecificRegister};

verus! {

/// Offsets of the slots in the block.
pub const PLATFORM_TLS: usize = 0;

pub const GUEST_THREAD_POINTER: usize = 8;

pub const GUEST_X18: usize = 16;

pub const ACTIVE: usize = 24;

pub const CURRENT_THREAD: usize = 32;

pub const IN_GUEST: usize = 40;

pub const VECTOR_STATE: usize = 48;

/// Size of a slot.
pub const SLOT_SIZE: usize = 8;

/// How many slots there are.
pub const TLS_SLOT_COUNT: usize = 7;

/// The slots lie side by side, in order, and fill the block.
pub proof fn slots_fill_the_block()
    ensures
        PLATFORM_TLS == 0,
        GUEST_THREAD_POINTER == PLATFORM_TLS + SLOT_SIZE,
        GUEST_X18 == GUEST_THREAD_POINTER + SLOT_SIZE,
        ACTIVE == GUEST_X18 + SLOT_SIZE,
        CURRENT_THREAD == ACTIVE + SLOT_SIZE,
        IN_GUEST == CURRENT_THREAD + SLOT_SIZE,
        VECTOR_STATE == IN_GUEST + SLOT_SIZE,
        TLS_SLOT_COUNT * SLOT_SIZE == VECTOR_STATE + SLOT_SIZE,
{
}

/// The slots of a thread.
#[derive(Clone, Copy, Debug, PartialEq, Eq, Structural)]
pub struct TlsBlock {
    pub platform_tls: usize,
    pub guest_thread_pointer: usize,
    pub guest_x18: usize,
    pub active: usize,
    pub current_thread: usize,
    pub in_guest: usize,
    pub vector_state: usize,
}

impl TlsBlock {
    /// The thread pointer of the guest.
    pub fn get_guest_thread_pointer(&self) -> (value: usize)
        ensures
            value == self.guest_thread_pointer,
    {
        self.guest_thread_pointer
    }

    /// The register x18 of the guest.
    pub fn get_guest_x18(&self) -> (value: usize)
        ensures
            value == self.guest_x18,
    {
        self.guest_x18
    }

    /// Sets the thread pointer of the guest.
    pub fn set_guest_thread_pointer(&mut self, value: usize)
        ensures
            *final(self) == (TlsBlock { guest_thread_pointer: value, ..*old(self) }),
    {
        self.guest_thread_pointer = value;
    }

    /// Sets the register x18 of the guest.
    pub fn set_guest_x18(&mut self, value: usize)
        ensures
            *final(self) == (TlsBlock { guest_x18: value, ..*old(self) }),
    {
        self.guest_x18 = value;
    }

    /// Replaces the storage of the platform. Returns what was there.
    pub fn replace_platform_tls(&mut self, value: usize) -> (previous: usize)
        ensures
            previous == old(self).platform_tls,
            *final(self) == (TlsBlock { platform_tls: value, ..*old(self) }),
    {
        let previous = self.platform_tls;
        self.platform_tls = value;
        previous
    }
}

impl TlsBlock {
    /// Reads a register: only the thread pointer can be read.
    pub fn get_arch_specific_register(&self, reg: ArchSpecificRegister) -> (value: Result<
        usize,
        ArchSpecificError,
    >)
        ensures
            value == if reg is TpidrEl0 {
                Ok::<usize, ArchSpecificError>(self.guest_thread_pointer)
            } else {
                Err(ArchSpecificError::RegisterUnsupported)
            },
    {
        match reg {
            ArchSpecificRegister::TpidrEl0 => Ok(self.guest_thread_pointer),
            _ => Err(ArchSpecificError::RegisterUnsupported),
        }
    }

    /// Sets a register: only the thread pointer can be set, and only to a value
    /// that is `valid` for a guest.
    pub fn set_arch_specific_register(
        &mut self,
        reg: ArchSpecificRegister,
        value: usize,
        valid: bool,
    ) -> (error: Option<ArchSpecificError>)
        ensures
            error == if !(reg is TpidrEl0) {
                Some(ArchSpecificError::RegisterUnsupported)
            } else if !valid {
                Some(ArchSpecificError::RegisterUnpermittedValue)
            } else {
                None
            },
            *final(self) == if error is None {
                (TlsBlock { guest_thread_pointer: value, ..*old(self) })
            } else {
                *old(self)
            },
    {
        match reg {
            ArchSpecificRegister::TpidrEl0 => {
                if valid {
                    self.set_guest_thread_pointer(value);
                    None
                } else {
                    Some(ArchSpecificError::RegisterUnpermittedValue)
                }
            },
            _ => Some(ArchSpecificError::RegisterUnsupported),
        }
    }
}

/// The keys of the slots, and the signal that interrupts a guest.
#[derive(Debug)]
pub struct GuestTlsKeys {
    pub slots: Vec<u64>,
    pub interrupt_signal: i32,
}

/// Whether the keys follow each other, and a slot at an offset can be told by
/// sixteen bits.
pub open spec fn keys_fit(keys: Seq<u64>) -> bool {
    &&& keys.len() == TLS_SLOT_COUNT
    &&& forall|i: int| 0 <= i < keys.len() ==> #[trigger] keys[i] == keys[0] + i
    &&& keys[0] * 8 + GUEST_X18 <= u16::MAX
}

impl GuestTlsKeys {
    pub open spec fn wf(self) -> bool {
        keys_fit(self.slots@)
    }

    /// Where the block is, counted from the thread register.
    pub open spec fn block(self) -> int {
        self.slots@[0] * 8
    }

    /// Where the block is, counted from the thread register.
    pub fn tls_block_offset(&self) -> (offset: usize)
        requires
            self.wf(),
        ensures
            offset == self.block(),
    {
        self.slots[0] as usize * SLOT_SIZE
    }

    /// The address of a slot, for a thread whose register holds `anchor`.
    pub fn tls_address(&self, anchor: usize, offset: usize) -> (address: usize)
        requires
            self.wf(),
            anchor + self.block() + offset <= usize::MAX,
        ensures
            address == anchor + self.block() + offset,
    {
        anchor + self.tls_block_offset() + offset
    }

    /// Where the guest's thread pointer is, counted from the thread register.
    pub fn guest_thread_pointer_offset(&self) -> (offset: usize)
        requires
            self.wf(),
        ensures
            offset == self.block() + GUEST_THREAD_POINTER,
            offset <= u16::MAX,
    {
        self.tls_block_offset() + GUEST_THREAD_POINTER
    }

    /// The address of the guest's thread pointer.
    pub fn guest_thread_pointer_address(&self, anchor: usize) -> (address: usize)
        requires
            self.wf(),
            anchor + self.block() + GUEST_THREAD_POINTER <= usize::MAX,
        ensures
            address == anchor + self.block() + GUEST_THREAD_POINTER,
    {
        self.tls_address(anchor, GUEST_THREAD_POINTER)
    }

    /// The signal that interrupts a guest.
    pub fn interrupt_signal(&self) -> (signal: i32)
        ensures
            signal == self.interrupt_signal,
    {
        self.interrupt_signal
    }
}

/// What the host has to do next to create the keys.
#[derive(Clone, Copy, Debug, PartialEq, Eq, Structural)]
pub enum KeyAction {
    /// Create a key; that of the vector state drops what it refers to.
    Create { drops_vector_state: bool },
    /// Delete a key.
    Delete { key: u64 },
    /// Tell whether gates can hold the offsets.
    CheckGates { thread_pointer: u16, x18: u16 },
    /// Tell whether the signal has its default disposition.
    Query { signal: i32 },
    /// The keys are there, or not, with an error number.
    Finish { error: Option<i32> },
}

/// What the host answers.
#[derive(Clone, Copy, Debug, PartialEq, Eq)]
pub enum KeyEvent {
    Created(Result<u64, i32>),
    Deleted,
    GatesFit(bool),
    /// Whether the disposition is the default one.
    IsDefault(Result<bool, i32>),
}

/// What the creator is waiting for.
#[derive(Clone, Copy, Debug, PartialEq, Eq, Structural)]
pub enum KeyPhase {
    Create,
    CheckGates,
    QueryFirst,
    QuerySecond,
    /// The keys are deleted, so many being done, before creation fails.
    Delete { done: usize, error: i32 },
    End,
}

pub const SIGUSR1: i32 = 30;

pub const SIGUSR2: i32 = 31;

/// Keys being created.
#[derive(Debug)]
pub struct KeyCreator {
    pub keys: Vec<u64>,
    /// The signal that was found to be free.
    pub interrupt_signal: Option<i32>,
    pub phase: KeyPhase,
}

impl KeyCreator {
    pub open spec fn wf(self) -> bool {
        match self.phase {
            KeyPhase::Create => self.keys@.len() < TLS_SLOT_COUNT,
            KeyPhase::CheckGates | KeyPhase::QueryFirst | KeyPhase::QuerySecond => keys_fit(
                self.keys@,
            ),
            KeyPhase::Delete { done, .. } => done < self.keys@.len(),
            KeyPhase::End => self.interrupt_signal is Some ==> keys_fit(self.keys@),
        }
    }

    /// Whether the event answers what the creator waits for.
    pub open spec fn accepts(self, event: KeyEvent) -> bool {
        match self.phase {
            KeyPhase::Create => event is Created,
            KeyPhase::CheckGates => event is GatesFit,
            KeyPhase::QueryFirst | KeyPhase::QuerySecond => event is IsDefault,
            KeyPhase::Delete { .. } => event is Deleted,
            KeyPhase::End => false,
        }
    }

    /// Whether the event answers what the creator waits for.
    pub fn is_answered_by(&self, event: KeyEvent) -> (answered: bool)
        ensures
            answered == self.accepts(event),
    {
        match self.phase {
            KeyPhase::Create => matches!(event, KeyEvent::Created(_)),
            KeyPhase::CheckGates => matches!(event, KeyEvent::GatesFit(_)),
            KeyPhase::QueryFirst | KeyPhase::QuerySecond => matches!(event, KeyEvent::IsDefault(_)),
            KeyPhase::Delete { .. } => matches!(event, KeyEvent::Deleted),
            KeyPhase::End => false,
        }
    }

    /// Whether the creator deletes the keys from the one at `done` on, and then
    /// fails.
    pub open spec fn gives_up(self, action: KeyAction, done: int, error: i32) -> bool {
        &&& self.interrupt_signal is None
        &&& if done < self.keys@.len() {
            &&& self.phase == (KeyPhase::Delete { done: done as usize, error })
            &&& action == (KeyAction::Delete { key: self.keys@[done] })
        } else {
            &&& self.phase is End
            &&& action == (KeyAction::Finish { error: Some(error) })
        }
    }

    /// Whether the creator has a signal and is done.
    pub open spec fn settles(self, action: KeyAction, signal: i32) -> bool {
        &&& self.interrupt_signal == Some(signal)
        &&& self.phase is End
        &&& action == (KeyAction::Finish { error: None })
    }

    fn give_up(&mut self, done: usize, error: i32) -> (action: KeyAction)
        requires
            old(self).interrupt_signal is None,
        ensures
            final(self).keys@ == old(self).keys@,
            final(self).wf(),
            final(self).gives_up(action, done as int, error),
    {
        if done < self.keys.len() {
            self.phase = KeyPhase::Delete { done, error };
            KeyAction::Delete { key: self.keys[done] }
        } else {
            self.phase = KeyPhase::End;
            KeyAction::Finish { error: Some(error) }
        }
    }

    fn settle(&mut self, signal: i32) -> (action: KeyAction)
        requires
            keys_fit(old(self).keys@),
        ensures
            final(self).keys@ == old(self).keys@,
            final(self).wf(),
            final(self).settles(action, signal),
    {
        self.interrupt_signal = Some(signal);
        self.phase = KeyPhase::End;
        KeyAction::Finish { error: None }
    }

    /// The first action of creating the keys.
    pub fn start() -> (first: (KeyCreator, KeyAction))
        ensures
            first.0.wf(),
            first.0.keys@.len() == 0,
            first.0.interrupt_signal is None,
            first.0.phase is Create,
            first.1 == (KeyAction::Create { drops_vector_state: false }),
    {
        (
            KeyCreator { keys: Vec::new(), interrupt_signal: None, phase: KeyPhase::Create },
            KeyAction::Create { drops_vector_state: false },
        )
    }

    /// Whether the keys follow each other and can be told by sixteen bits.
    fn keys_are_fit(&self) -> (fit: bool)
        requires
            self.keys@.len() == TLS_SLOT_COUNT,
        ensures
            fit == keys_fit(self.keys@),
    {
        let first: u64 = self.keys[0];
        if first > 0x2000 {
            return false;
        }
        let mut i: usize = 0;
        while i < TLS_SLOT_COUNT
            invariant
                i <= TLS_SLOT_COUNT,
                self.keys@.len() == TLS_SLOT_COUNT,
                first == self.keys@[0],
                first <= 0x2000,
                forall|k: int| 0 <= k < i ==> #[trigger] self.keys@[k] == first + k,
            decreases TLS_SLOT_COUNT - i,
        {
            if self.keys[i] != first + i as u64 {
                return false;
            }
            i += 1;
        }
        first * 8 + GUEST_X18 as u64 <= u16::MAX as u64
    }

    /// Takes the reply of the host and returns what it has to do next: one key
    /// for each slot is created; then the keys have to follow each other, gates
    /// have to hold the offsets of the guest's registers, and one of two
    /// signals has to be free. Otherwise the keys are deleted.
    pub fn step(&mut self, event: KeyEvent) -> (action: KeyAction)
        requires
            old(self).wf(),
            old(self).accepts(event),
            old(self).interrupt_signal is None,
        ensures
            final(self).wf(),
            match (old(self).phase, event) {
                (KeyPhase::Create, KeyEvent::Created(Err(error))) => {
                    &&& final(self).keys@ == old(self).keys@
                    &&& final(self).gives_up(action, 0, error)
                },
                (KeyPhase::Create, KeyEvent::Created(Ok(key))) => {
                    let keys = old(self).keys@.push(key);
                    &&& final(self).keys@ == keys
                    &&& if keys.len() < TLS_SLOT_COUNT {
                        &&& final(self).phase is Create
                        &&& final(self).interrupt_signal is None
                        &&& action == (KeyAction::Create {
                            drops_vector_state: keys.len() * SLOT_SIZE == VECTOR_STATE,
                        })
                    } else if keys_fit(keys) {
                        &&& final(self).phase is CheckGates
                        &&& final(self).interrupt_signal is None
                        &&& action == (KeyAction::CheckGates {
                            thread_pointer: (keys[0] * 8 + GUEST_THREAD_POINTER) as u16,
                            x18: (keys[0] * 8 + GUEST_X18) as u16,
                        })
                    } else {
                        final(self).gives_up(action, 0, ENOTSUP)
                    }
                },
                (KeyPhase::CheckGates, KeyEvent::GatesFit(fit)) => {
                    &&& final(self).keys@ == old(self).keys@
                    &&& if fit {
                        &&& final(self).phase is QueryFirst
                        &&& final(self).interrupt_signal is None
                        &&& action == (KeyAction::Query { signal: SIGUSR1 })
                    } else {
                        final(self).gives_up(action, 0, ENOTSUP)
                    }
                },
                (KeyPhase::QueryFirst, KeyEvent::IsDefault(r)) => {
                    &&& final(self).keys@ == old(self).keys@
                    &&& match r {
                        Ok(true) => final(self).settles(action, SIGUSR1),
                        Ok(false) => {
                            &&& final(self).phase is QuerySecond
                            &&& final(self).interrupt_signal is None
                            &&& action == (KeyAction::Query { signal: SIGUSR2 })
                        },
                        Err(error) => final(self).gives_up(action, 0, error),
                    }
                },
                (KeyPhase::QuerySecond, KeyEvent::IsDefault(r)) => {
                    &&& final(self).keys@ == old(self).keys@
                    &&& match r {
                        Ok(true) => final(self).settles(action, SIGUSR2),
                        Ok(false) => final(self).gives_up(action, 0, EBUSY),
                        Err(error) => final(self).gives_up(action, 0, error),
                    }
                },
                (KeyPhase::Delete { done, error }, _) => {
                    &&& final(self).keys@ == old(self).keys@
                    &&& final(self).gives_up(action, done + 1, error)
                },
                _ => true,
            },
            action == (KeyAction::Finish { error: None }) ==> {
                &&& event == KeyEvent::IsDefault(Ok(true))
                &&& keys_fit(final(self).keys@)
                &&& final(self).interrupt_signal is Some
            },
            action matches KeyAction::Delete { key } ==> final(self).keys@.contains(key),
            action matches KeyAction::Query { signal } ==> signal == SIGUSR1 || signal == SIGUSR2,
            action matches KeyAction::CheckGates { thread_pointer, x18 } ==> x18 - thread_pointer
                == SLOT_SIZE && thread_pointer == final(self).keys@[1] * 8,
    {
        match (self.phase, event) {
            (KeyPhase::Create, KeyEvent::Created(Err(error))) => self.give_up(0, error),
            (KeyPhase::Create, KeyEvent::Created(Ok(key))) => {
                self.keys.push(key);
                let count: usize = self.keys.len();
                if count < TLS_SLOT_COUNT {
                    return KeyAction::Create {
                        drops_vector_state: count * SLOT_SIZE == VECTOR_STATE,
                    };
                }
                if !self.keys_are_fit() {
                    return self.give_up(0, ENOTSUP);
                }
                self.phase = KeyPhase::CheckGates;
                let block: u64 = self.keys[0] * 8;
                KeyAction::CheckGates {
                    thread_pointer: (block + GUEST_THREAD_POINTER as u64) as u16,
                    x18: (block + GUEST_X18 as u64) as u16,
                }
            },
            (KeyPhase::CheckGates, KeyEvent::GatesFit(fit)) => {
                if !fit {
                    return self.give_up(0, ENOTSUP);
                }
                self.phase = KeyPhase::QueryFirst;
                KeyAction::Query { signal: SIGUSR1 }
            },
            (KeyPhase::QueryFirst, KeyEvent::IsDefault(r)) => match r {
                Ok(free) => {
                    if free {
                        return self.settle(SIGUSR1);
                    }
                    self.phase = KeyPhase::QuerySecond;
                    KeyAction::Query { signal: SIGUSR2 }
                },
                Err(error) => self.give_up(0, error),
            },
            (KeyPhase::QuerySecond, KeyEvent::IsDefault(r)) => match r {
                Ok(free) => {
                    if free {
                        return self.settle(SIGUSR2);
                    }
                    self.give_up(0, EBUSY)
                },
                Err(error) => self.give_up(0, error),
            },
            (KeyPhase::Delete { done, error }, _) => {
                let count: usize = self.keys.len();
                assert(done < count);
                self.give_up(done + 1, error)
            },
            _ => KeyAction::Finish { error: Some(ENOTSUP) },
        }
    }

    /// The keys, once they are there.
    pub fn into_keys(self) -> (keys: Option<GuestTlsKeys>)
        requires
            self.wf(),
            self.phase is End,
        ensures
            keys is Some == self.interrupt_signal is Some,
            keys matches Some(k) ==> k.wf() && k.slots@ == self.keys@ && Some(k.interrupt_signal)
                == self.interrupt_signal,
    {
        match self.interrupt_signal {
            Some(interrupt_signal) => Some(
                GuestTlsKeys { slots: self.keys, interrupt_signal },
            ),
            None => None,
        }
    }
}

/// The value by which the slot of a key is recognized.
pub const FIRST_SENTINEL: usize = 0x1234;

/// What the host has to do next to check the slots of a thread.
#[derive(Clone, Copy, Debug, PartialEq, Eq, Structural)]
pub enum SlotAction {
    /// Keep the value of a key, and set it to the sentinel.
    Mark { index: usize, sentinel: usize },
    /// Read the slot where the key's value is expected.
    Read { index: usize },
    /// Set the key back to the value that was kept.
    Restore { index: usize },
    /// Tell whether the thread has a vector state.
    LookForVectorState,
    /// Give the thread a vector state.
    AddVectorState,
    Finish(Option<SlotFault>),
}

/// Why the slots of a thread cannot be used.
#[derive(Clone, Copy, Debug, PartialEq, Eq, Structural)]
pub enum SlotFault {
    /// The host failed, with an error number.
    Host(i32),
    /// The slots are not where they are expected.
    UnsupportedLayout,
}

/// What the host answers.
#[derive(Clone, Copy, Debug, PartialEq, Eq, Structural)]
pub enum SlotEvent {
    /// The error number, zero if there is none.
    Done(i32),
    /// What was read, unless reading failed.
    Value(Option<usize>),
    /// Whether the thread has a vector state.
    Found(bool),
}

/// What the check is waiting for.
#[derive(Clone, Copy, Debug, PartialEq, Eq, Structural)]
pub enum SlotPhase {
    Mark { index: usize },
    Read { index: usize },
    Restore { index: usize, valid: bool },
    Look,
    Add,
    End,
}

/// The slots of a thread being checked.
#[derive(Clone, Copy, Debug, PartialEq, Eq, Structural)]
pub struct SlotCheck {
    pub phase: SlotPhase,
}

/// A check and the action that it asks for.
#[derive(Clone, Copy, Debug, PartialEq, Eq, Structural)]
pub struct Checking {
    pub check: SlotCheck,
    pub action: SlotAction,
}

/// The check in a phase, with the action.
pub open spec fn checks(phase: SlotPhase, action: SlotAction) -> Checking {
    Checking { check: SlotCheck { phase }, action }
}

/// The check of the slot at `index`, or what follows the last one.
pub open spec fn marks(index: int) -> Checking {
    if index < TLS_SLOT_COUNT {
        checks(
            SlotPhase::Mark { index: index as usize },
            SlotAction::Mark {
                index: index as usize,
                sentinel: (FIRST_SENTINEL + index) as usize,
            },
        )
    } else {
        checks(SlotPhase::Look, SlotAction::LookForVectorState)
    }
}

impl SlotCheck {
    pub open spec fn wf(self) -> bool {
        match self.phase {
            SlotPhase::Mark { index }
            | SlotPhase::Read { index }
            | SlotPhase::Restore { index, .. } => index < TLS_SLOT_COUNT,
            _ => true,
        }
    }

    /// Whether the event answers what the check waits for.
    pub open spec fn accepts(self, event: SlotEvent) -> bool {
        match self.phase {
            SlotPhase::Mark { .. } | SlotPhase::Restore { .. } | SlotPhase::Add => event is Done,
            SlotPhase::Read { .. } => event is Value,
            SlotPhase::Look => event is Found,
            SlotPhase::End => false,
        }
    }

    /// Whether the event answers what the check waits for.
    pub fn is_answered_by(&self, event: SlotEvent) -> (answered: bool)
        ensures
            answered == self.accepts(event),
    {
        match self.phase {
            SlotPhase::Mark { .. } | SlotPhase::Restore { .. } | SlotPhase::Add => {
                matches!(event, SlotEvent::Done(_))
            },
            SlotPhase::Read { .. } => matches!(event, SlotEvent::Value(_)),
            SlotPhase::Look => matches!(event, SlotEvent::Found(_)),
            SlotPhase::End => false,
        }
    }

    /// What follows an event that answers what the check waits for.
    pub open spec fn next(self, event: SlotEvent) -> Checking {
        match (self.phase, event) {
            (_, SlotEvent::Done(error)) if error != 0 => checks(
                SlotPhase::End,
                SlotAction::Finish(Some(SlotFault::Host(error))),
            ),
            (SlotPhase::Mark { index }, _) => checks(
                SlotPhase::Read { index },
                SlotAction::Read { index },
            ),
            (SlotPhase::Read { index }, SlotEvent::Value(value)) => checks(
                SlotPhase::Restore {
                    index,
                    valid: value == Some((FIRST_SENTINEL + index) as usize),
                },
                SlotAction::Restore { index },
            ),
            (SlotPhase::Restore { index, valid }, _) => if valid {
                marks(index + 1)
            } else {
                checks(
                    SlotPhase::End,
                    SlotAction::Finish(Some(SlotFault::UnsupportedLayout)),
                )
            },
            (SlotPhase::Look, SlotEvent::Found(false)) => checks(
                SlotPhase::Add,
                SlotAction::AddVectorState,
            ),
            _ => checks(SlotPhase::End, SlotAction::Finish(None)),
        }
    }

    fn check(phase: SlotPhase, action: SlotAction) -> (now: Checking)
        ensures
            now == checks(phase, action),
    {
        Checking { check: SlotCheck { phase }, action }
    }

    /// The first action of checking the slots of a thread.
    pub fn start() -> (first: Checking)
        ensures
            first == marks(0),
            first.check.wf(),
    {
        SlotCheck::check(
            SlotPhase::Mark { index: 0 },
            SlotAction::Mark { index: 0, sentinel: FIRST_SENTINEL },
        )
    }

    /// Takes the reply of the host and returns what it has to do next.
    pub fn step(&mut self, event: SlotEvent) -> (action: SlotAction)
        requires
            old(self).wf(),
            old(self).accepts(event),
        ensures
            (Checking { check: *final(self), action }) == old(self).next(event),
            final(self).wf(),
    {
        let failed: i32 = match event {
            SlotEvent::Done(error) => error,
            _ => 0,
        };
        let next = if failed != 0 {
            SlotCheck::check(SlotPhase::End, SlotAction::Finish(Some(SlotFault::Host(failed))))
        } else {
            match (self.phase, event) {
                (SlotPhase::Mark { index }, _) => SlotCheck::check(
                    SlotPhase::Read { index },
                    SlotAction::Read { index },
                ),
                (SlotPhase::Read { index }, SlotEvent::Value(value)) => {
                    let valid = match value {
                        Some(v) => v == FIRST_SENTINEL + index,
                        None => false,
                    };
                    SlotCheck::check(
                        SlotPhase::Restore { index, valid },
                        SlotAction::Restore { index },
                    )
                },
                (SlotPhase::Restore { index, valid }, _) => {
                    if !valid {
                        SlotCheck::check(
                            SlotPhase::End,
                            SlotAction::Finish(Some(SlotFault::UnsupportedLayout)),
                        )
                    } else if index + 1 < TLS_SLOT_COUNT {
                        SlotCheck::check(
                            SlotPhase::Mark { index: index + 1 },
                            SlotAction::Mark {
                                index: index + 1,
                                sentinel: FIRST_SENTINEL + (index + 1),
                            },
                        )
                    } else {
                        SlotCheck::check(SlotPhase::Look, SlotAction::LookForVectorState)
                    }
                },
                (SlotPhase::Look, SlotEvent::Found(found)) => {
                    if found {
                        SlotCheck::check(SlotPhase::End, SlotAction::Finish(None))
                    } else {
                        SlotCheck::check(SlotPhase::Add, SlotAction::AddVectorState)
                    }
                },
                _ => SlotCheck::check(SlotPhase::End, SlotAction::Finish(None)),
            }
        };
        *self = next.check;
        next.action
    }
}

/// No slot is left with its sentinel: a slot that was marked and read is set
/// back before anything else happens, whatever was read.
pub proof fn marked_slots_are_restored(check: SlotCheck, index: usize, value: Option<usize>)
    requires
        check.phase == (SlotPhase::Read { index }),
        index < TLS_SLOT_COUNT,
    ensures
        check.next(SlotEvent::Value(value)).action == (SlotAction::Restore { index }),
{
}

/// What a check has found out: which slots hold a sentinel, and which one, which
/// were found where they are expected, and whether the thread has a vector state.
pub struct SlotWorld {
    pub marked: Map<int, usize>,
    pub found: Set<int>,
    pub vector_state: bool,
}

impl SlotWorld {
    /// Nothing is found out.
    pub open spec fn untouched() -> SlotWorld {
        SlotWorld { marked: Map::empty(), found: Set::empty(), vector_state: false }
    }

    /// The world once an action has come to something.
    pub open spec fn step(self, action: SlotAction, event: SlotEvent) -> SlotWorld {
        match (action, event) {
            (SlotAction::Mark { index, sentinel }, SlotEvent::Done(0)) => SlotWorld {
                marked: self.marked.insert(index as int, sentinel),
                ..self
            },
            (SlotAction::Read { index }, SlotEvent::Value(Some(value))) => SlotWorld {
                found: if self.marked.dom().contains(index as int) && self.marked[index as int]
                    == value {
                    self.found.insert(index as int)
                } else {
                    self.found
                },
                ..self
            },
            (SlotAction::Restore { index }, SlotEvent::Done(0)) => SlotWorld {
                marked: self.marked.remove(index as int),
                ..self
            },
            (SlotAction::LookForVectorState, SlotEvent::Found(found)) => SlotWorld {
                vector_state: found,
                ..self
            },
            (SlotAction::AddVectorState, SlotEvent::Done(0)) => SlotWorld {
                vector_state: true,
                ..self
            },
            _ => self,
        }
    }
}

/// Whether each event answers the action before it.
pub open spec fn is_slot_run(now: Checking, events: Seq<SlotEvent>) -> bool
    decreases events.len(),
{
    events.len() == 0 || (now.check.accepts(events[0]) && is_slot_run(
        now.check.next(events[0]),
        events.drop_first(),
    ))
}

/// The check, and the world, after the events.
pub open spec fn after_slots(now: Checking, w: SlotWorld, events: Seq<SlotEvent>) -> (
    Checking,
    SlotWorld,
)
    decreases events.len(),
{
    if events.len() == 0 {
        (now, w)
    } else {
        after_slots(
            now.check.next(events[0]),
            w.step(now.action, events[0]),
            events.drop_first(),
        )
    }
}

/// Whether the first slots, so many, were found.
spec fn found_below(w: SlotWorld, n: int) -> bool {
    forall|i: int| 0 <= i < n ==> #[trigger] w.found.contains(i)
}

spec fn slot_inv(now: Checking, w: SlotWorld) -> bool {
    &&& now.check.wf()
    &&& match now.check.phase {
        SlotPhase::Mark { index } => {
            &&& now.action matches SlotAction::Mark { index: i, sentinel } && i == index
                && sentinel == 0x1234 + index
            &&& w.marked =~= Map::empty()
            &&& found_below(w, index as int)
        },
        SlotPhase::Read { index } => {
            &&& now.action == (SlotAction::Read { index })
            &&& w.marked =~= Map::empty().insert(index as int, (0x1234 + index) as usize)
            &&& found_below(w, index as int)
        },
        SlotPhase::Restore { index, valid } => {
            &&& now.action == (SlotAction::Restore { index })
            &&& w.marked =~= Map::empty().insert(index as int, (0x1234 + index) as usize)
            &&& found_below(w, index as int)
            &&& valid ==> w.found.contains(index as int)
        },
        SlotPhase::Look => {
            &&& now.action == SlotAction::LookForVectorState
            &&& w.marked =~= Map::empty()
            &&& found_below(w, 7)
        },
        SlotPhase::Add => {
            &&& now.action == SlotAction::AddVectorState
            &&& w.marked =~= Map::empty()
            &&& found_below(w, 7)
        },
        SlotPhase::End => match now.action {
            SlotAction::Finish(None) => {
                &&& w.marked =~= Map::empty()
                &&& found_below(w, 7)
                &&& w.vector_state
            },
            SlotAction::Finish(Some(SlotFault::UnsupportedLayout)) => w.marked =~= Map::empty(),
            SlotAction::Finish(Some(SlotFault::Host(error))) => error != 0,
            _ => false,
        },
    }
}

proof fn slot_run_keeps(now: Checking, w: SlotWorld, events: Seq<SlotEvent>)
    requires
        slot_inv(now, w),
        is_slot_run(now, events),
    ensures
        ({
            let (end, world) = after_slots(now, w, events);
            slot_inv(end, world)
        }),
    decreases events.len(),
{
    if events.len() > 0 {
        let next = now.check.next(events[0]);
        let world = w.step(now.action, events[0]);
        slot_run_keeps(next, world, events.drop_first());
    }
}

/// The slots of a thread are used only where each of them was seen to be where it
/// is expected, by a value of its own, and the thread has a vector state. None
/// then holds the value by which it was recognized, nor where the slots turn out
/// to lie elsewhere.
pub proof fn slots_are_used_where_they_are(events: Seq<SlotEvent>, index: int)
    requires
        is_slot_run(marks(0), events),
        0 <= index < 7,
    ensures
        ({
            let (end, w) = after_slots(marks(0), SlotWorld::untouched(), events);
            &&& end.action == SlotAction::Finish(None) ==> w.found.contains(index)
                && w.vector_state
            &&& end.action == SlotAction::Finish(None) || end.action == SlotAction::Finish(
                Some(SlotFault::UnsupportedLayout),
            ) ==> !w.marked.dom().contains(index)
            &&& end.action matches SlotAction::Mark { index: i, sentinel } ==> sentinel - i
                == 0x1234
        }),
{
    slot_run_keeps(marks(0), SlotWorld::untouched(), events);
}

/// A guest cannot be entered from within another.
#[derive(Clone, Copy, Debug, PartialEq, Eq, Structural)]
pub struct NestedEntry;

impl TlsBlock {
    /// Prepares the thread to run a guest, whose context and thread are at the
    /// addresses. The guest starts without a thread pointer.
    pub fn begin_guest(&mut self, active: usize, current_thread: usize) -> (nested: Option<
        NestedEntry,
    >)
        ensures
            nested is Some == (old(self).active != 0),
            *final(self) == if nested is Some {
                *old(self)
            } else {
                (TlsBlock {
                    guest_thread_pointer: 0,
                    guest_x18: 0,
                    active,
                    current_thread,
                    ..*old(self)
                })
            },
    {
        if self.active != 0 {
            return Some(NestedEntry);
        }
        self.set_guest_thread_pointer(0);
        self.set_guest_x18(0);
        self.active = active;
        self.current_thread = current_thread;
        None
    }

    /// Forgets the guest that the thread ran.
    pub fn end_guest(&mut self)
        ensures
            *final(self) == (TlsBlock {
                active: 0,
                current_thread: 0,
                in_guest: 0,
                ..*old(self)
            }),
    {
        self.active = 0;
        self.current_thread = 0;
        self.in_guest = 0;
    }
}

} // verus!
