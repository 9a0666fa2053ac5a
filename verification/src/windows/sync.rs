//! Time, timers, waiting and signals on Windows.

use vstd::prelude::*;

use crate::platform::{
    ArchSpecificError, ArchSpecificRegister, UnblockedOrTimedOut, WakePlan,
};

verus! {

/// A point in time, in units of a hundred nanoseconds since the host started.
#[derive(Clone, Copy, Debug, PartialEq, Eq, Structural)]
pub struct Instant {
    pub ticks: u64,
}

impl Instant {
    /// The nanoseconds since an earlier instant; `None` if it is not earlier.
    pub open spec fn since(self, earlier: Instant) -> Option<int> {
        if self.ticks >= earlier.ticks {
            Some((self.ticks - earlier.ticks) * 100)
        } else {
            None
        }
    }

    /// The instant so many nanoseconds later, if it can be told.
    pub open spec fn plus(self, nanos: int) -> Option<Instant> {
        if self.ticks + nanos / 100 <= u64::MAX {
            Some(Instant { ticks: (self.ticks + nanos / 100) as u64 })
        } else {
            None
        }
    }

    /// The nanoseconds since an earlier instant; `None` if it is not earlier.
    pub fn checked_duration_since(&self, earlier: &Instant) -> (nanos: Option<u64>)
        requires
            self.ticks - earlier.ticks <= u64::MAX / 100,
        ensures
            match nanos {
                Some(n) => self.since(*earlier) == Some(n as int),
                None => self.since(*earlier) is None,
            },
    {
        match self.ticks.checked_sub(earlier.ticks) {
            Some(diff) => Some(diff * 100),
            None => None,
        }
    }

    /// The instant so many nanoseconds later, if it can be told.
    pub fn checked_add(&self, nanos: u128) -> (later: Option<Instant>)
        ensures
            later == self.plus(nanos as int),
    {
        let ticks: u128 = nanos / 100;
        if ticks > u64::MAX as u128 {
            return None;
        }
        match self.ticks.checked_add(ticks as u64) {
            Some(ticks) => Some(Instant { ticks }),
            None => None,
        }
    }
}

/// Adding what has passed since an instant leads back to the later one.
pub proof fn durations_add_up(earlier: Instant, later: Instant, nanos: int)
    requires
        later.since(earlier) == Some(nanos),
    ensures
        earlier.plus(nanos) == Some(later),
{
}

/// What has passed since an instant is what was added to it, in whole units of
/// the host. Time is refused only past what can be told, and what has passed only
/// of an instant that was not before.
pub proof fn durations_are_what_was_added(earlier: Instant, nanos: int, other: Instant)
    requires
        nanos >= 0,
    ensures
        earlier.plus(nanos) matches Some(later) ==> {
            &&& later.since(earlier) matches Some(passed) && passed <= nanos < passed + 100
                && passed % 100 == 0
            &&& later.ticks >= earlier.ticks
        },
        earlier.plus(nanos) is None <==> earlier.ticks + nanos / 100 > u64::MAX,
        other.since(earlier) is None <==> other.ticks < earlier.ticks,
{
}

/// A time of day, in units of a hundred nanoseconds since the host's epoch.
#[derive(Clone, Copy, Debug, PartialEq, Eq, Structural)]
pub struct SystemTime {
    pub filetime: u64,
}

/// The epoch of Unix, which is 11,644,473,600 seconds past that of the host.
pub const UNIX_EPOCH_FILETIME: u64 = 116_444_736_000_000_000;

/// A span of time.
#[derive(Clone, Copy, Debug, PartialEq, Eq, Structural)]
pub struct Span {
    pub secs: u64,
    pub nanos: u32,
}

impl Span {
    pub open spec fn wf(self) -> bool {
        self.nanos < 1_000_000_000
    }

    /// The span in nanoseconds.
    pub open spec fn total(self) -> int {
        self.secs * 1_000_000_000 + self.nanos
    }
}

fn span_of(ticks: u64) -> (span: Span)
    requires
        ticks <= u64::MAX / 100,
    ensures
        span.wf(),
        span.total() == ticks * 100,
{
    let nanos: u64 = ticks * 100;
    Span { secs: nanos / 1_000_000_000, nanos: (nanos % 1_000_000_000) as u32 }
}

impl SystemTime {
    /// The time from the two halves in which the host gives it.
    pub fn from_parts(low: u32, high: u32) -> (time: SystemTime)
        ensures
            time.filetime == high * 0x1_0000_0000 + low,
    {
        SystemTime { filetime: high as u64 * 0x1_0000_0000 + low as u64 }
    }

    /// The epoch of Unix.
    pub fn unix_epoch() -> (time: SystemTime)
        ensures
            time.filetime == 11_644_473_600 * 10_000_000,
    {
        SystemTime { filetime: UNIX_EPOCH_FILETIME }
    }

    /// The time since an earlier one, or the time until it if it is later.
    pub fn duration_since(&self, earlier: &SystemTime) -> (span: Result<Span, Span>)
        requires
            self.filetime - earlier.filetime <= u64::MAX / 100,
            earlier.filetime - self.filetime <= u64::MAX / 100,
        ensures
            span is Ok == (self.filetime >= earlier.filetime),
            span matches Ok(s) ==> s.wf() && s.total() == (self.filetime - earlier.filetime) * 100,
            span matches Err(s) ==> s.wf() && s.total() == (earlier.filetime - self.filetime)
                * 100,
    {
        if self.filetime >= earlier.filetime {
            Ok(span_of(self.filetime - earlier.filetime))
        } else {
            Err(span_of(earlier.filetime - self.filetime))
        }
    }
}

/// When a timer fires, as the host wants it: in two halves, negative for a time
/// that is counted from now.
#[derive(Clone, Copy, Debug, PartialEq, Eq, Structural)]
pub struct DueTime {
    pub low: u32,
    pub high: u32,
}

impl DueTime {
    /// The two halves as one number in two's complement.
    pub open spec fn value(self) -> int {
        let bits = self.high * 0x1_0000_0000 + self.low;
        if bits <= i64::MAX {
            bits
        } else {
            bits - 0x1_0000_0000_0000_0000
        }
    }
}

/// When a timer that is set to so many nanoseconds fires; `None` where it is
/// not to fire at all.
pub fn set_timer(nanos: u128) -> (due: Option<DueTime>)
    ensures
        due is None == (nanos == 0),
        due matches Some(d) ==> d.value() == -(if nanos / 100 <= i64::MAX {
            nanos / 100
        } else {
            i64::MAX as u128
        }),
{
    if nanos == 0 {
        return None;
    }
    let intervals: u128 = nanos / 100;
    let ticks: u64 = if intervals <= i64::MAX as u128 {
        intervals as u64
    } else {
        i64::MAX as u64
    };
    let bits: u64 = if ticks == 0 {
        0
    } else {
        u64::MAX - (ticks - 1)
    };
    Some(DueTime { low: (bits % 0x1_0000_0000) as u32, high: (bits / 0x1_0000_0000) as u32 })
}

/// How long to wait where there is no end to it.
pub const INFINITE: u32 = 0xffff_ffff;

/// The error of the host for a wait that was too long.
pub const ERROR_TIMEOUT: u32 = 1460;

/// A value on which threads wait.
#[derive(Clone, Copy, Debug, PartialEq, Eq, Structural)]
pub struct RawMutex {
    pub value: u32,
}

impl RawMutex {
    /// A value of zero.
    pub fn new() -> (mutex: RawMutex)
        ensures
            mutex.value == 0,
    {
        RawMutex { value: 0 }
    }

    /// Which threads are woken up where `n` are to be. How many there were is
    /// not known.
    pub fn wake_many(n: usize) -> (plan: WakePlan)
        requires
            0 < n <= u32::MAX,
        ensures
            plan == if n >= i32::MAX {
                WakePlan::All
            } else {
                WakePlan::Each(n)
            },
    {
        if n >= i32::MAX as usize {
            WakePlan::All
        } else {
            WakePlan::Each(n)
        }
    }

    /// How many milliseconds to wait where the wait is to take so many at most.
    pub fn timeout_ms(timeout: Option<u128>) -> (ms: u32)
        ensures
            ms == match timeout {
                None => INFINITE,
                Some(t) => if t < INFINITE {
                    t as u32
                } else {
                    (INFINITE - 1) as u32
                },
            },
            timeout is None <==> ms == INFINITE,
            timeout matches Some(t) ==> ms <= t,
    {
        match timeout {
            None => INFINITE,
            Some(t) => if t < INFINITE as u128 {
                t as u32
            } else {
                INFINITE - 1
            },
        }
    }

    /// How a wait ended, from whether the host succeeded and its error if it
    /// did not; `None` for an error that no wait has.
    pub fn wait_outcome(ok: bool, error: u32) -> (outcome: Option<UnblockedOrTimedOut>)
        ensures
            outcome == if ok {
                Some(UnblockedOrTimedOut::Unblocked)
            } else if error == ERROR_TIMEOUT {
                Some(UnblockedOrTimedOut::TimedOut)
            } else {
                None
            },
    {
        if ok {
            Some(UnblockedOrTimedOut::Unblocked)
        } else if error == ERROR_TIMEOUT {
            Some(UnblockedOrTimedOut::TimedOut)
        } else {
            None
        }
    }
}

/// The bit of a signal in a set of pending ones.
pub fn signal_bit(signal: i32) -> (bit: u32)
    requires
        1 <= signal <= 32,
    ensures
        bit == 1u32 << ((signal - 1) as u32),
{
    1u32 << ((signal - 1) as u32)
}

/// The signals whose bit is set, in ascending order.
pub open spec fn signals_in(bits: u32, end: int) -> Seq<i32>
    decreases end,
{
    if end <= 0 {
        Seq::empty()
    } else {
        let head = signals_in(bits, end - 1);
        if bits & (1u32 << ((end - 1) as u32)) != 0 {
            head.push(end as i32)
        } else {
            head
        }
    }
}

/// Takes the pending signals, in ascending order. None is pending after that.
pub fn take_pending_signals(pending: &mut u32) -> (signals: Vec<i32>)
    ensures
        signals@ == signals_in(*old(pending), 32),
        *final(pending) == 0,
{
    let bits: u32 = *pending;
    *pending = 0;
    let mut signals: Vec<i32> = Vec::new();
    let mut i: u32 = 0;
    while i < 32
        invariant
            i <= 32,
            signals@ == signals_in(bits, i as int),
            *pending == 0,
        decreases 32 - i,
    {
        if bits & (1u32 << i) != 0 {
            signals.push(i as i32 + 1);
        }
        i += 1;
    }
    signals
}

/// A signal that was delivered is among those that are taken.
pub proof fn delivered_signals_are_taken(pending: u32, signal: i32)
    requires
        1 <= signal <= 32,
    ensures
        signals_in(pending | (1u32 << ((signal - 1) as u32)), 32).contains(signal),
{
    let s = (signal - 1) as u32;
    assert((pending | (1u32 << s)) & (1u32 << s) != 0) by (bit_vector)
        requires
            s < 32,
    ;
    set_bits_are_listed(pending | (1u32 << s), signal as int, 32);
}

/// A signal whose bit is set is listed.
proof fn set_bits_are_listed(bits: u32, signal: int, end: int)
    requires
        1 <= signal <= end <= 32,
        bits & (1u32 << ((signal - 1) as u32)) != 0,
    ensures
        signals_in(bits, end).contains(signal as i32),
    decreases end,
{
    let head = signals_in(bits, end - 1);
    if signal == end {
        assert(signals_in(bits, end)[head.len() as int] == signal as i32);
    } else {
        set_bits_are_listed(bits, signal, end - 1);
        let k = choose|k: int| 0 <= k < head.len() && head[k] == signal as i32;
        assert(signals_in(bits, end)[k] == signal as i32);
    }
}

/// Only signals that were pending are taken, each once, the lowest first.
pub proof fn only_pending_signals_are_taken(bits: u32, end: int, i: int, j: int)
    requires
        0 <= end <= 32,
        0 <= i <= j < signals_in(bits, end).len(),
    ensures
        1 <= signals_in(bits, end)[i] <= end,
        bits & (1u32 << ((signals_in(bits, end)[i] - 1) as u32)) != 0,
        i < j ==> signals_in(bits, end)[i] < signals_in(bits, end)[j],
    decreases end,
{
    let head = signals_in(bits, end - 1);
    if i < head.len() {
        only_pending_signals_are_taken(bits, end - 1, i, i);
        if i < j < head.len() {
            only_pending_signals_are_taken(bits, end - 1, i, j);
        }
    }
}

/// The signal of an interruption from the keyboard.
pub const SIGINT: i32 = 2;

/// The event of the console for that.
pub const CTRL_C_EVENT: u32 = 0;

/// The base of the guest's segment, which the host forgets now and then.
#[derive(Clone, Copy, Debug, PartialEq, Eq, Structural)]
pub struct ThreadFsBase {
    pub base: usize,
}

impl ThreadFsBase {
    /// Reads a register: only the base of one segment can be read, the host
    /// has the other for itself.
    pub fn get_arch_specific_register(&self, reg: ArchSpecificRegister) -> (value: Result<
        usize,
        ArchSpecificError,
    >)
        ensures
            value == match reg {
                ArchSpecificRegister::FsBase => Ok::<usize, ArchSpecificError>(self.base),
                ArchSpecificRegister::GsBase => Err(ArchSpecificError::RegisterReserved),
                ArchSpecificRegister::TpidrEl0 => Err(ArchSpecificError::RegisterUnsupported),
            },
    {
        match reg {
            ArchSpecificRegister::FsBase => Ok(self.base),
            ArchSpecificRegister::GsBase => Err(ArchSpecificError::RegisterReserved),
            ArchSpecificRegister::TpidrEl0 => Err(ArchSpecificError::RegisterUnsupported),
        }
    }

    /// Sets a register: only the base of one segment can be set, and only to a
    /// value that is `valid` for a guest.
    pub fn set_arch_specific_register(
        &mut self,
        reg: ArchSpecificRegister,
        value: usize,
        valid: bool,
    ) -> (error: Option<ArchSpecificError>)
        ensures
            error == match reg {
                ArchSpecificRegister::FsBase => if valid {
                    None
                } else {
                    Some(ArchSpecificError::RegisterUnpermittedValue)
                },
                ArchSpecificRegister::GsBase => Some(ArchSpecificError::RegisterReserved),
                ArchSpecificRegister::TpidrEl0 => Some(ArchSpecificError::RegisterUnsupported),
            },
            final(self).base == if error is None {
                value
            } else {
                old(self).base
            },
    {
        match reg {
            ArchSpecificRegister::FsBase => {
                if valid {
                    self.base = value;
                    None
                } else {
                    Some(ArchSpecificError::RegisterUnpermittedValue)
                }
            },
            ArchSpecificRegister::GsBase => Some(ArchSpecificError::RegisterReserved),
            ArchSpecificRegister::TpidrEl0 => Some(ArchSpecificError::RegisterUnsupported),
        }
    }
}

/// Two to the power of `n`.
pub open spec fn power(n: nat) -> int
    decreases n,
{
    if n == 0 {
        1
    } else {
        2 * power((n - 1) as nat)
    }
}

/// How much memory is asked of the host for an allocation: the next power of
/// two, and no less than twice the alignment or two pages, as the host does not
/// align what it gives.
pub fn alloc_size(size: usize, align: usize) -> (total: usize)
    requires
        size <= usize::MAX / 2 + 1,
        align <= usize::MAX / 2,
    ensures
        exists|n: nat| #[trigger]
            power(n) >= size && (n > 0 ==> power((n - 1) as nat) < size) && total == if power(n)
                >= 2 * align && power(n) >= 0x2000 {
                power(n)
            } else if 2 * align >= 0x2000 {
                2 * align
            } else {
                0x2000
            },
        total >= size,
        total >= 2 * align,
        total >= 0x2000,
{
    let mut next: usize = 1;
    let ghost mut n: nat = 0;
    while next < size
        invariant
            next == power(n),
            n > 0 ==> power((n - 1) as nat) < size,
            next >= 1,
            size <= usize::MAX / 2 + 1,
        decreases 2 * size - next,
    {
        next = next * 2;
        proof {
            n = n + 1;
        }
    }
    let doubled: usize = if align >= 0x1000 {
        align * 2
    } else {
        0x2000
    };
    if next >= doubled {
        next
    } else {
        doubled
    }
}

} // verus!
