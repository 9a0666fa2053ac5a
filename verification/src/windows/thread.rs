//! Threads that run guests on Windows.

use vstd::prelude::*;

use crate::windows::context::GuestXstateFormat;
use crate::windows::interrupt::{Interrupting, Interruption};
use crate::windows::sync::{signal_bit, CTRL_C_EVENT, SIGINT};

verus! {

/// How many slots for thread-local storage assembly code can reach.
pub const TLS_SLOT_LIMIT: u32 = 64;

/// The index before a slot was taken.
pub const TLS_INDEX_UNSET: u32 = 0xffff_ffff;

/// Whether assembly code can reach the slot.
pub fn ensure_tls_index(index: u32) -> (reachable: bool)
    ensures
        reachable == (index < TLS_SLOT_LIMIT),
{
    index < TLS_SLOT_LIMIT
}

/// The state of a thread, from what is in its slot; `None` where no slot was
/// taken or nothing is in it.
pub fn get_tls_ptr(index: u32, slot: usize) -> (state: Option<usize>)
    ensures
        state == if index == TLS_INDEX_UNSET || slot == 0 {
            None
        } else {
            Some(slot)
        },
{
    if index == TLS_INDEX_UNSET || slot == 0 {
        None
    } else {
        Some(slot)
    }
}

/// What is done with a thread for which a signal was noted.
#[derive(Clone, Copy, Debug, PartialEq, Eq, Structural)]
pub struct Delivered {
    /// Whether it is woken up.
    pub wakes: bool,
    /// How it is interrupted, once it is awake.
    pub interrupts: Interrupting,
}

/// What is known of a thread that runs a guest.
#[derive(Clone, Copy, Debug, PartialEq, Eq, Structural)]
pub struct TlsState {
    /// Whether the guest runs.
    pub is_in_guest: bool,
    /// Whether the guest is to be interrupted.
    pub interrupt: bool,
    pub guest_xstate_format: GuestXstateFormat,
    /// Signals of the host that the guest has to hear of, one bit each.
    pub pending_host_signals: u32,
    /// Whether the thread waits for something, and can be woken up.
    pub waiting: bool,
}

impl TlsState {
    /// A thread whose guest has not run.
    pub fn new() -> (state: TlsState)
        ensures
            state == (TlsState {
                is_in_guest: false,
                interrupt: false,
                guest_xstate_format: GuestXstateFormat::Native,
                pending_host_signals: 0,
                waiting: false,
            }),
    {
        TlsState {
            is_in_guest: false,
            interrupt: false,
            guest_xstate_format: GuestXstateFormat::Native,
            pending_host_signals: 0,
            waiting: false,
        }
    }

    /// Whether the guest was to be interrupted. It is from now on no longer, as
    /// the shim is about to be entered.
    pub fn call_shim(&mut self) -> (interrupted: bool)
        ensures
            interrupted == old(self).interrupt,
            *final(self) == (TlsState { interrupt: false, ..*old(self) }),
    {
        let interrupted = self.interrupt;
        self.interrupt = false;
        interrupted
    }

    /// Notes a signal for the guest. Returns what is done after that: the
    /// thread is woken up if it waits, and interrupted from without.
    pub fn deliver_signal(&mut self, signal: i32) -> (delivered: Delivered)
        requires
            1 <= signal <= 32,
        ensures
            delivered.wakes == old(self).waiting,
            delivered.interrupts == Interruption::first(false, true),
            *final(self) == (TlsState {
                pending_host_signals: old(self).pending_host_signals | (1u32 << ((signal
                    - 1) as u32)),
                ..*old(self)
            }),
    {
        let bit: u32 = signal_bit(signal);
        self.pending_host_signals = self.pending_host_signals | bit;
        Delivered { wakes: self.waiting, interrupts: Interruption::interrupt(false, true) }
    }

    /// Notes whether the thread waits for something. Returns whether it did
    /// before.
    pub fn update_waker(&mut self, waiting: bool) -> (before: bool)
        ensures
            before == old(self).waiting,
            *final(self) == (TlsState { waiting, ..*old(self) }),
    {
        let before = self.waiting;
        self.waiting = waiting;
        before
    }
}

/// The threads that run guests, the oldest first, by their handles.
#[derive(Debug)]
pub struct ActiveThreads {
    handles: Vec<u64>,
}

impl View for ActiveThreads {
    type V = Seq<u64>;

    closed spec fn view(&self) -> Seq<u64> {
        self.handles@
    }
}

impl ActiveThreads {
    /// No thread runs a guest.
    pub fn new() -> (threads: ActiveThreads)
        ensures
            threads@ == Seq::<u64>::empty(),
    {
        ActiveThreads { handles: Vec::new() }
    }

    /// A thread is about to run a guest.
    pub fn register(&mut self, handle: u64)
        ensures
            final(self)@ == old(self)@.push(handle),
    {
        self.handles.push(handle);
    }

    /// A thread has run its guest.
    pub fn unregister(&mut self, handle: u64)
        ensures
            final(self)@ == old(self)@.filter(|h: u64| h != handle),
    {
        let ghost before = self.handles@;
        let ghost keep = |h: u64| h != handle;
        let mut kept: Vec<u64> = Vec::new();
        let mut i: usize = 0;
        proof {
            reveal(Seq::filter);
        }
        while i < self.handles.len()
            invariant
                i <= self.handles.len(),
                self.handles@ == before,
                keep == (|h: u64| h != handle),
                kept@ == before.take(i as int).filter(keep),
            decreases self.handles.len() - i,
        {
            let h: u64 = self.handles[i];
            proof {
                reveal(Seq::filter);
                assert(before.take(i + 1).drop_last() =~= before.take(i as int));
                assert(before.take(i + 1).last() == h);
            }
            if h != handle {
                kept.push(h);
            }
            i += 1;
        }
        self.handles = kept;
        assert(before.take(i as int) =~= before);
    }

    /// The thread that stands for all: the oldest one.
    pub fn first(&self) -> (handle: Option<u64>)
        ensures
            handle == if self@.len() > 0 {
                Some(self@[0])
            } else {
                None
            },
    {
        if self.handles.len() > 0 {
            Some(self.handles[0])
        } else {
            None
        }
    }
}

/// A signal for a thread, which is known by its handle.
#[derive(Clone, Copy, Debug, PartialEq, Eq, Structural)]
pub struct Delivery {
    pub thread: u64,
    pub signal: i32,
}

/// Who hears of a timer that has fired: any one thread, if there is one.
pub fn threadpool_timer_callback(threads: &ActiveThreads, signal: i32) -> (delivery: Option<
    Delivery,
>)
    ensures
        delivery == if threads@.len() > 0 {
            Some((Delivery { thread: threads@[0], signal }))
        } else {
            None
        },
        delivery matches Some(d) ==> d.signal == signal && threads@.contains(d.thread),
        delivery is None <==> threads@.len() == 0,
{
    match threads.first() {
        Some(thread) => Some(Delivery { thread, signal }),
        None => None,
    }
}

/// What follows an event of the console.
#[derive(Debug)]
pub struct ConsoleReply {
    /// Whether the event is dealt with; otherwise other handlers see to it.
    pub handled: bool,
    pub deliveries: Vec<Delivery>,
}

/// The signal for each of the threads, in order.
pub open spec fn to_all(threads: Seq<u64>, signal: i32) -> Seq<Delivery> {
    threads.map_values(|thread: u64| Delivery { thread, signal })
}

/// What follows an event of the console: an interruption from the keyboard is
/// heard by every thread that runs a guest, any other event by none.
pub fn ctrl_c_handler(event: u32, threads: &ActiveThreads) -> (reply: ConsoleReply)
    ensures
        reply.handled == (event == CTRL_C_EVENT),
        reply.deliveries@ == if reply.handled {
            to_all(threads@, SIGINT)
        } else {
            Seq::empty()
        },
{
    let mut deliveries: Vec<Delivery> = Vec::new();
    if event != CTRL_C_EVENT {
        return ConsoleReply { handled: false, deliveries };
    }
    let mut i: usize = 0;
    while i < threads.handles.len()
        invariant
            i <= threads.handles.len(),
            deliveries@ == to_all(threads@.take(i as int), SIGINT),
        decreases threads.handles.len() - i,
    {
        deliveries.push(Delivery { thread: threads.handles[i], signal: SIGINT });
        i += 1;
        assert(deliveries@ =~= to_all(threads@.take(i as int), SIGINT));
    }
    assert(threads@.take(i as int) =~= threads@);
    ConsoleReply { handled: true, deliveries }
}

/// No thread that runs a guest misses an interruption from the keyboard, and
/// none that does not hears of it.
pub proof fn all_threads_are_interrupted(threads: Seq<u64>, thread: u64)
    ensures
        to_all(threads, SIGINT).contains((Delivery { thread, signal: SIGINT })) == threads.contains(
            thread,
        ),
{
    let all = to_all(threads, SIGINT);
    if threads.contains(thread) {
        let i = choose|i: int| 0 <= i < threads.len() && threads[i] == thread;
        assert(all[i] == (Delivery { thread, signal: SIGINT }));
    }
    if all.contains((Delivery { thread, signal: SIGINT })) {
        let i = choose|i: int|
            0 <= i < all.len() && all[i] == (Delivery { thread, signal: SIGINT });
        assert(threads[i] == thread);
    }
}

/// A thread that has run its guest hears of no signal any more.
pub proof fn finished_threads_are_forgotten(threads: Seq<u64>, handle: u64)
    ensures
        !threads.filter(|h: u64| h != handle).contains(handle),
{
    broadcast use vstd::seq_lib::group_filter_ensures;
    let kept = threads.filter(|h: u64| h != handle);
    if kept.contains(handle) {
        let i = choose|i: int| 0 <= i < kept.len() && kept[i] == handle;
        assert(kept[i] != handle);
    }
}

/// A thread that runs its guest still hears of signals when another has finished,
/// and threads keep their order, so that the oldest stands for all.
pub proof fn other_threads_are_kept(threads: Seq<u64>, handle: u64, other: u64)
    requires
        other != handle,
    ensures
        threads.filter(|h: u64| h != handle).contains(other) <==> threads.contains(other),
        threads.len() > 0 && threads[0] != handle ==> threads.filter(|h: u64| h != handle)[0]
            == threads[0],
    decreases threads.len(),
{
    let keep = |h: u64| h != handle;
    reveal(Seq::filter);
    if threads.len() > 0 {
        let less = threads.drop_last();
        other_threads_are_kept(less, handle, other);
        let kept = less.filter(keep);
        let all = threads.filter(keep);
        if threads.contains(other) {
            let i = choose|i: int| 0 <= i < threads.len() && threads[i] == other;
            if i < less.len() {
                assert(less[i] == other);
                let k = choose|k: int| 0 <= k < kept.len() && kept[k] == other;
                assert(all[k] == other);
            } else {
                assert(all[all.len() - 1] == other);
            }
        }
        if all.contains(other) {
            let k = choose|k: int| 0 <= k < all.len() && all[k] == other;
            if k < kept.len() {
                assert(kept[k] == other);
                let i = choose|i: int| 0 <= i < less.len() && less[i] == other;
                assert(threads[i] == other);
            } else {
                assert(threads[threads.len() - 1] == other);
            }
        }
        if threads[0] != handle && less.len() > 0 {
            assert(less[0] == threads[0]);
            first_is_kept(less, handle);
        }
    }
}

/// Where the first thread stays, there is a first one.
proof fn first_is_kept(threads: Seq<u64>, handle: u64)
    requires
        threads.len() > 0,
        threads[0] != handle,
    ensures
        threads.filter(|h: u64| h != handle).len() > 0,
    decreases threads.len(),
{
    reveal(Seq::filter);
    if threads.len() > 1 {
        first_is_kept(threads.drop_last(), handle);
    } else {
        assert(threads.last() == threads[0]);
    }
}

/// Calls `getrandom::fill`. Claims that it keeps the length, and succeeds where
/// there is nothing to fill. Which bytes come, and whether the host can provide
/// them, is left to chance.
#[verifier::external_body]
fn fill_random(buf: &mut [u8]) -> (filled: bool)
    ensures
        final(buf)@.len() == old(buf)@.len(),
        old(buf)@.len() == 0 ==> filled,
{
    getrandom::fill(buf).is_ok()
}

/// Fills the buffer with random bytes. Returns whether the host could provide
/// them; the process has to stop where it could not.
pub fn fill_bytes_crng(buf: &mut [u8]) -> (filled: bool)
    ensures
        final(buf)@.len() == old(buf)@.len(),
        old(buf)@.len() == 0 ==> filled,
{
    fill_random(buf)
}

} // verus!
