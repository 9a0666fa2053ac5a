//! Carrying out the requests of a guest.

use vstd::prelude::*;

use crate::errno::Errno;
use crate::shim::chunked::{ChunkReader, ReadAction, ReadEvent, ReadFailure, ReadPhase, Reading};
use crate::shim::requests::{Handler, Intake, Outlet, Plan, SyscallRequest};

verus! {

/// What a function that carries out a request returns.
#[derive(Clone, Copy, Debug, PartialEq, Eq, Structural)]
pub enum Value {
    /// All went well.
    Unit,
    Size(usize),
    Word(u32),
    Int(i32),
    Seconds(i64),
    /// How many bytes of the buffer were filled.
    Filled(usize),
    /// A record, which the host keeps.
    Record,
    /// Two descriptors, which the host keeps.
    Pair,
    /// A set of so many processors, in so many bytes, which the host keeps.
    CpuSet { bits: usize, bytes: usize },
}

/// The result that a value stands for.
pub open spec fn result_of(value: Value) -> usize {
    match value {
        Value::Size(n) => n,
        Value::Word(n) => n as usize,
        _ => 0,
    }
}

/// The result that a value stands for.
pub fn to_syscall_result(value: Value) -> (result: usize)
    ensures
        result == result_of(value),
{
    match value {
        Value::Size(n) => n,
        Value::Word(n) => n as usize,
        _ => 0,
    }
}

/// The number with the bits of `n`, without sign.
pub open spec fn unsigned32(n: i32) -> int {
    if n >= 0 {
        n as int
    } else {
        n + 0x1_0000_0000
    }
}

/// Whether the value is of the kind that the outlet is for.
pub open spec fn fits(outlet: Outlet, value: Value, buffer: usize) -> bool {
    match outlet {
        Outlet::Nothing | Outlet::ListLength { .. } => value is Unit,
        Outlet::Value => value is Unit || value is Size || value is Word,
        Outlet::Int => value is Int,
        Outlet::Seconds => value is Seconds,
        Outlet::Bytes { .. } => value matches Value::Filled(n) && n <= buffer,
        Outlet::Record { .. } => value is Record,
        Outlet::Pair { .. } => value is Pair,
        Outlet::CpuSet { .. } => value is CpuSet,
    }
}

/// What goes to the guest.
#[derive(Clone, Copy, Debug, PartialEq, Eq, Structural)]
pub enum Parcel {
    /// The first `len` bytes of the buffer.
    Bytes { len: usize },
    /// The record.
    Record,
    /// The first descriptor, and the second, which goes behind it.
    First,
    Second,
    /// The length of a robust list head.
    ListLength,
    /// The set of processors, in `len` bytes.
    CpuSet { len: usize },
}

/// What the host has to do next.
#[derive(Clone, Copy, Debug, PartialEq, Eq)]
pub enum SyscallAction {
    /// Read the path at the guest's pointer.
    TakePath { ptr: usize },
    /// Read bytes at the guest's pointer.
    TakeBytes { ptr: usize, len: usize },
    /// Call the function with the arguments of the request, what was taken,
    /// and a buffer of some bytes.
    Call { request: SyscallRequest, handler: Handler, intake: Intake, buffer: usize },
    /// Write to the guest's pointer.
    Put { ptr: usize, parcel: Parcel },
    /// Read a file piece by piece.
    Read(ReadAction),
    /// The request is carried out.
    Finish(Result<usize, Errno>),
    /// The process has to stop.
    Fatal(ReadFailure),
}

/// What the host answers.
#[derive(Clone, Copy, Debug, PartialEq, Eq)]
pub enum SyscallEvent {
    /// Whether the guest's memory could be read.
    Taken(bool),
    Returned(Result<Value, Errno>),
    /// Whether the guest's memory could be written.
    Put(bool),
    Read(ReadEvent),
}

/// What the dispatcher is waiting for.
#[derive(Clone, Copy, Debug, PartialEq, Eq, Structural)]
pub enum SyscallPhase {
    /// Something is taken, or the error where that faults.
    Take {
        request: SyscallRequest,
        fault: Errno,
        handler: Handler,
        intake: Intake,
        buffer: usize,
        outlet: Outlet,
    },
    Call { buffer: usize, outlet: Outlet },
    /// Something is written, after which the result is known, unless the second
    /// descriptor follows.
    Put { result: usize, second: Option<usize> },
    Read(ChunkReader),
    End,
}

/// A request being carried out.
#[derive(Clone, Copy, Debug, PartialEq, Eq, Structural)]
pub struct Dispatcher {
    pub phase: SyscallPhase,
}

/// A dispatcher and the action that it asks for.
#[derive(Clone, Copy, Debug, PartialEq, Eq)]
pub struct Dispatching {
    pub dispatcher: Dispatcher,
    pub action: SyscallAction,
}

/// The dispatcher in a phase, with the action.
pub open spec fn waits(phase: SyscallPhase, action: SyscallAction) -> Dispatching {
    Dispatching { dispatcher: Dispatcher { phase }, action }
}

/// The dispatcher at its end.
pub open spec fn ends(result: Result<usize, Errno>) -> Dispatching {
    waits(SyscallPhase::End, SyscallAction::Finish(result))
}

fn wait(phase: SyscallPhase, action: SyscallAction) -> (now: Dispatching)
    ensures
        now == waits(phase, action),
{
    Dispatching { dispatcher: Dispatcher { phase }, action }
}

fn end(result: Result<usize, Errno>) -> (now: Dispatching)
    ensures
        now == ends(result),
{
    wait(SyscallPhase::End, SyscallAction::Finish(result))
}

/// What a step of reading a file means for the request.
pub open spec fn reads(reading: Reading) -> Dispatching {
    match reading.action {
        ReadAction::Finish(result) => ends(result),
        ReadAction::Fatal(failure) => waits(SyscallPhase::End, SyscallAction::Fatal(failure)),
        action => waits(SyscallPhase::Read(reading.reader), SyscallAction::Read(action)),
    }
}

fn read(reading: Reading) -> (now: Dispatching)
    ensures
        now == reads(reading),
{
    match reading.action {
        ReadAction::Finish(result) => end(result),
        ReadAction::Fatal(failure) => wait(SyscallPhase::End, SyscallAction::Fatal(failure)),
        action => wait(SyscallPhase::Read(reading.reader), SyscallAction::Read(action)),
    }
}

/// The call itself.
pub open spec fn calls(
    request: SyscallRequest,
    handler: Handler,
    intake: Intake,
    buffer: usize,
    outlet: Outlet,
) -> Dispatching {
    waits(
        SyscallPhase::Call { buffer, outlet },
        SyscallAction::Call { request, handler, intake, buffer },
    )
}

/// The first action of a request, which is carried out as planned.
pub open spec fn begins(request: SyscallRequest) -> Dispatching {
    match request.planned() {
        Plan::Fixed(result) => ends(result),
        Plan::Call { handler, intake, buffer, outlet } => match intake {
            Intake::Path { ptr, fault } => waits(
                SyscallPhase::Take { request, fault, handler, intake, buffer, outlet },
                SyscallAction::TakePath { ptr },
            ),
            Intake::Bytes { ptr, len } => waits(
                SyscallPhase::Take {
                    request,
                    fault: Errno::EFAULT,
                    handler,
                    intake,
                    buffer,
                    outlet,
                },
                SyscallAction::TakeBytes { ptr, len },
            ),
            _ => calls(request, handler, intake, buffer, outlet),
        },
        Plan::Pread { fd, buf, count, offset } => reads(
            Reading {
                reader: ChunkReader {
                    fd,
                    buf,
                    count,
                    offset: Some(offset),
                    moves: false,
                    total: 0,
                    phase: ReadPhase::Resolve,
                },
                action: ReadAction::Resolve { fd },
            },
        ),
        Plan::LargeRead { fd, buf, count } => reads(
            Reading {
                reader: ChunkReader {
                    fd,
                    buf,
                    count,
                    offset: None,
                    moves: true,
                    total: 0,
                    phase: ReadPhase::Resolve,
                },
                action: ReadAction::Resolve { fd },
            },
        ),
    }
}

/// Something is written to the guest, after which the result is known.
pub open spec fn puts(ptr: usize, parcel: Parcel, result: usize) -> Dispatching {
    waits(
        SyscallPhase::Put { result, second: None },
        SyscallAction::Put { ptr, parcel },
    )
}

fn put(ptr: usize, parcel: Parcel, result: usize) -> (now: Dispatching)
    ensures
        now == puts(ptr, parcel, result),
{
    wait(SyscallPhase::Put { result, second: None }, SyscallAction::Put { ptr, parcel })
}

/// How many bits there are in so many bytes, as far as a register can tell.
pub open spec fn bits_in(len: usize) -> int {
    len * 8 % (usize::MAX + 1)
}

/// What follows a value that fits the outlet.
pub open spec fn delivers(outlet: Outlet, value: Value) -> Dispatching {
    match (outlet, value) {
        (Outlet::Int, Value::Int(n)) => ends(Ok(unsigned32(n) as usize)),
        (Outlet::Seconds, Value::Seconds(n)) => if 0 <= n <= usize::MAX {
            ends(Ok(n as usize))
        } else {
            ends(Err(Errno::EOVERFLOW))
        },
        (Outlet::Bytes { ptr }, Value::Filled(len)) => puts(ptr, Parcel::Bytes { len }, len),
        (Outlet::Record { ptr }, _) => puts(ptr, Parcel::Record, 0),
        (Outlet::Pair { ptr }, _) => waits(
            SyscallPhase::Put { result: 0, second: Some(ptr) },
            SyscallAction::Put { ptr, parcel: Parcel::First },
        ),
        (Outlet::ListLength { ptr }, _) => puts(ptr, Parcel::ListLength, 0),
        (Outlet::CpuSet { len, ptr }, Value::CpuSet { bits, bytes }) => if bits_in(len) < bits
            || len % 8 != 0 {
            ends(Err(Errno::EINVAL))
        } else {
            puts(ptr, Parcel::CpuSet { len: bytes }, bytes)
        },
        _ => ends(Ok(result_of(value))),
    }
}

fn deliver(outlet: Outlet, value: Value, buffer: usize) -> (now: Dispatching)
    requires
        fits(outlet, value, buffer),
    ensures
        now == delivers(outlet, value),
{
    match (outlet, value) {
        (Outlet::Int, Value::Int(n)) => {
            let bits: u32 = if n >= 0 {
                n as u32
            } else {
                (n as i64 + 0x1_0000_0000) as u32
            };
            end(Ok(bits as usize))
        },
        (Outlet::Seconds, Value::Seconds(n)) => {
            if n >= 0 && n as u64 <= usize::MAX as u64 {
                end(Ok(n as usize))
            } else {
                end(Err(Errno::EOVERFLOW))
            }
        },
        (Outlet::Bytes { ptr }, Value::Filled(len)) => put(ptr, Parcel::Bytes { len }, len),
        (Outlet::Record { ptr }, _) => put(ptr, Parcel::Record, 0),
        (Outlet::Pair { ptr }, _) => wait(
            SyscallPhase::Put { result: 0, second: Some(ptr) },
            SyscallAction::Put { ptr, parcel: Parcel::First },
        ),
        (Outlet::ListLength { ptr }, _) => put(ptr, Parcel::ListLength, 0),
        (Outlet::CpuSet { len, ptr }, Value::CpuSet { bits, bytes }) => {
            let given: usize = len.wrapping_mul(8);
            if given < bits || len % 8 != 0 {
                end(Err(Errno::EINVAL))
            } else {
                put(ptr, Parcel::CpuSet { len: bytes }, bytes)
            }
        },
        _ => end(Ok(to_syscall_result(value))),
    }
}

impl Dispatcher {
    pub open spec fn wf(self) -> bool {
        self.phase matches SyscallPhase::Read(reader) ==> reader.wf()
    }

    /// Whether the event answers what the dispatcher waits for.
    pub open spec fn accepts(self, event: SyscallEvent) -> bool {
        match self.phase {
            SyscallPhase::Take { .. } => event is Taken,
            SyscallPhase::Call { buffer, outlet } => event matches SyscallEvent::Returned(r) && (
            r matches Ok(v) ==> fits(outlet, v, buffer)),
            SyscallPhase::Put { .. } => event is Put,
            SyscallPhase::Read(reader) => event matches SyscallEvent::Read(e) && reader.accepts(e),
            SyscallPhase::End => false,
        }
    }

    /// Whether the event answers what the dispatcher waits for.
    pub fn is_answered_by(&self, event: SyscallEvent) -> (answered: bool)
        ensures
            answered == self.accepts(event),
    {
        match (self.phase, event) {
            (SyscallPhase::Take { .. }, SyscallEvent::Taken(_)) => true,
            (SyscallPhase::Call { buffer, outlet }, SyscallEvent::Returned(Ok(v))) => {
                match (outlet, v) {
                    (Outlet::Nothing, Value::Unit) => true,
                    (Outlet::ListLength { .. }, Value::Unit) => true,
                    (Outlet::Value, Value::Unit) => true,
                    (Outlet::Value, Value::Size(_)) => true,
                    (Outlet::Value, Value::Word(_)) => true,
                    (Outlet::Int, Value::Int(_)) => true,
                    (Outlet::Seconds, Value::Seconds(_)) => true,
                    (Outlet::Bytes { .. }, Value::Filled(n)) => n <= buffer,
                    (Outlet::Record { .. }, Value::Record) => true,
                    (Outlet::Pair { .. }, Value::Pair) => true,
                    (Outlet::CpuSet { .. }, Value::CpuSet { .. }) => true,
                    _ => false,
                }
            },
            (SyscallPhase::Call { .. }, SyscallEvent::Returned(Err(_))) => true,
            (SyscallPhase::Put { .. }, SyscallEvent::Put(_)) => true,
            (SyscallPhase::Read(reader), SyscallEvent::Read(e)) => reader.is_answered_by(e),
            _ => false,
        }
    }

    /// What follows an event that answers what the dispatcher waits for.
    pub open spec fn next(self, event: SyscallEvent) -> Dispatching {
        match (self.phase, event) {
            (
                SyscallPhase::Take { request, fault, handler, intake, buffer, outlet },
                SyscallEvent::Taken(ok),
            ) => if ok {
                calls(request, handler, intake, buffer, outlet)
            } else {
                ends(Err(fault))
            },
            (SyscallPhase::Call { outlet, .. }, SyscallEvent::Returned(r)) => match r {
                Ok(value) => delivers(outlet, value),
                Err(e) => ends(Err(e)),
            },
            (SyscallPhase::Put { result, second }, SyscallEvent::Put(ok)) => if !ok {
                ends(Err(Errno::EFAULT))
            } else {
                match second {
                    Some(ptr) => puts(ptr, Parcel::Second, result),
                    None => ends(Ok(result)),
                }
            },
            (SyscallPhase::Read(reader), SyscallEvent::Read(e)) => reads(reader.next(e)),
            _ => arbitrary(),
        }
    }

    /// The first action of carrying out a request, or the error if it could
    /// not be made out.
    pub fn do_syscall(decoded: Result<SyscallRequest, Errno>) -> (first: Dispatching)
        ensures
            first == match decoded {
                Ok(request) => begins(request),
                Err(e) => ends(Err(e)),
            },
            first.dispatcher.wf(),
            decoded matches Err(e) ==> first.action == SyscallAction::Finish(Err(e)),
    {
        let request = match decoded {
            Ok(request) => request,
            Err(e) => {
                return end(Err(e));
            },
        };
        match request.plan() {
            Plan::Fixed(result) => end(result),
            Plan::Call { handler, intake, buffer, outlet } => match intake {
                Intake::Path { ptr, fault } => wait(
                    SyscallPhase::Take { request, fault, handler, intake, buffer, outlet },
                    SyscallAction::TakePath { ptr },
                ),
                Intake::Bytes { ptr, len } => wait(
                    SyscallPhase::Take {
                    request,
                    fault: Errno::EFAULT,
                    handler,
                    intake,
                    buffer,
                    outlet,
                },
                    SyscallAction::TakeBytes { ptr, len },
                ),
                _ => wait(
                    SyscallPhase::Call { buffer, outlet },
                    SyscallAction::Call { request, handler, intake, buffer },
                ),
            },
            Plan::Pread { fd, buf, count, offset } => read(
                ChunkReader::pread_with_user_buf(fd, buf, count, offset),
            ),
            Plan::LargeRead { fd, buf, count } => read(
                ChunkReader::read_from_here(fd, buf, count),
            ),
        }
    }

    /// Takes the reply of the host and returns what it has to do next.
    pub fn step(&mut self, event: SyscallEvent) -> (action: SyscallAction)
        requires
            old(self).wf(),
            old(self).accepts(event),
        ensures
            (Dispatching { dispatcher: *final(self), action }) == old(self).next(event),
            final(self).wf(),
    {
        let next = match (self.phase, event) {
            (
                SyscallPhase::Take { request, fault, handler, intake, buffer, outlet },
                SyscallEvent::Taken(ok),
            ) => if ok {
                wait(
                    SyscallPhase::Call { buffer, outlet },
                    SyscallAction::Call { request, handler, intake, buffer },
                )
            } else {
                end(Err(fault))
            },
            (SyscallPhase::Call { buffer, outlet }, SyscallEvent::Returned(r)) => match r {
                Ok(value) => deliver(outlet, value, buffer),
                Err(e) => end(Err(e)),
            },
            (SyscallPhase::Put { result, second }, SyscallEvent::Put(ok)) => if !ok {
                end(Err(Errno::EFAULT))
            } else {
                match second {
                    Some(ptr) => put(ptr, Parcel::Second, result),
                    None => end(Ok(result)),
                }
            },
            (SyscallPhase::Read(reader), SyscallEvent::Read(e)) => {
                let mut reader = reader;
                let action = reader.step(e);
                read(Reading { reader, action })
            },
            _ => end(Err(Errno::ENOSYS)),
        };
        *self = next.dispatcher;
        next.action
    }
}

/// What a request leaves in the register for its result: the result, or the
/// error as a negative number in two's complement.
pub open spec fn register_of(result: Result<usize, Errno>) -> int {
    match result {
        Ok(v) => v as int,
        Err(e) => if e.code() == 0 {
            0
        } else {
            usize::MAX + 1 - e.code()
        },
    }
}

/// What a request leaves in the register for its result.
pub fn handle_syscall_request(result: Result<usize, Errno>) -> (register: usize)
    ensures
        register == register_of(result),
{
    match result {
        Ok(v) => v,
        Err(e) => {
            let code: i32 = -e.as_neg();
            if code == 0 {
                0
            } else {
                usize::MAX - (code as usize - 1)
            }
        },
    }
}

/// A request whose path or bytes cannot be read reaches no function: its
/// result is the error.
pub proof fn unreadable_memory_reaches_no_handler(request: SyscallRequest)
    requires
        request.planned() matches Plan::Call { intake, .. } && (intake is Path || intake is Bytes),
    ensures
        ({
            let first = begins(request);
            &&& first.dispatcher.accepts(SyscallEvent::Taken(false))
            &&& first.dispatcher.next(SyscallEvent::Taken(false)).action == SyscallAction::Finish(
                Err(
                    match request.planned() {
                        Plan::Call { intake: Intake::Path { fault, .. }, .. } => fault,
                        _ => Errno::EFAULT,
                    },
                ),
            )
        }),
{
}

/// Whether the action calls the function that is planned for the request, with
/// the request's arguments.
pub open spec fn calls_for(action: SyscallAction, request: SyscallRequest) -> bool {
    match (action, request.planned()) {
        (
            SyscallAction::Call { request: r, handler, intake, buffer },
            Plan::Call { handler: h, intake: i, buffer: b, .. },
        ) => r == request && handler == h && intake == i && buffer == b,
        _ => false,
    }
}

/// A function is called with the arguments of the request that the guest made,
/// at once or after something was taken for it.
pub proof fn handlers_get_the_request(request: SyscallRequest)
    requires
        request.planned() is Call,
    ensures
        ({
            let first = begins(request);
            if first.dispatcher.phase is Take {
                calls_for(first.dispatcher.next(SyscallEvent::Taken(true)).action, request)
            } else {
                calls_for(first.action, request)
            }
        }),
{
}

/// An error of the function that carries out a request is the request's own.
pub proof fn handler_errors_are_returned(dispatcher: Dispatcher, e: Errno)
    requires
        dispatcher.phase is Call,
    ensures
        dispatcher.next(SyscallEvent::Returned(Err(e))).action == SyscallAction::Finish(Err(e)),
{
}

/// A result that cannot be written to the guest is lost to a fault.
pub proof fn unwritable_memory_is_a_fault(dispatcher: Dispatcher)
    requires
        dispatcher.phase is Put,
    ensures
        dispatcher.next(SyscallEvent::Put(false)).action == SyscallAction::Finish(
            Err(Errno::EFAULT),
        ),
{
}

/// Guests can tell errors apart: an error with a number below 4096 leaves a
/// register that no result short of the last 4095 values leaves, and that no
/// other error leaves.
pub proof fn errors_can_be_told_apart(e: Errno, f: Errno)
    requires
        0 < e.code() < 4096,
        0 < f.code() < 4096,
    ensures
        register_of(Err(e)) > usize::MAX - 4095,
        register_of(Err(e)) <= usize::MAX,
        register_of(Err(e)) + e.code() == usize::MAX + 1,
        register_of(Err(e)) == register_of(Err(f)) ==> e.code() == f.code(),
{
}

/// A guest that succeeds finds the result in its register, as it is.
pub proof fn results_are_left_as_they_are(v: usize, w: usize)
    ensures
        register_of(Ok(v)) == v,
        register_of(Ok(v)) == register_of(Ok(w)) ==> v == w,
{
}

/// How far a dispatcher is from its end, not counting what is read piece by
/// piece: every answer brings the end nearer, or reads on.
pub open spec fn dispatch_rank(phase: SyscallPhase) -> nat {
    match phase {
        SyscallPhase::Take { .. } => 4,
        SyscallPhase::Call { .. } => 3,
        SyscallPhase::Put { second, .. } => if second is Some {
            2
        } else {
            1
        },
        SyscallPhase::Read(_) => 1,
        SyscallPhase::End => 0,
    }
}

/// How many answers a reader still waits for, at most.
pub open spec fn read_rank(reader: ChunkReader) -> nat {
    let left = (reader.count - reader.total) as nat;
    match reader.phase {
        ReadPhase::Resolve => 2 * left + 5,
        ReadPhase::Tell => 2 * left + 4,
        ReadPhase::Read { .. } => 2 * left + 2,
        ReadPhase::Put { .. } => 2 * left + 1,
        ReadPhase::Seek => 1,
        ReadPhase::End => 0,
    }
}

/// Every request comes to an end: each answer brings its dispatcher, or the
/// reader of its file, nearer to it.
pub proof fn requests_come_to_an_end(dispatcher: Dispatcher, event: SyscallEvent)
    requires
        dispatcher.wf(),
        dispatcher.accepts(event),
    ensures
        ({
            let next = dispatcher.next(event).dispatcher;
            ||| dispatch_rank(next.phase) < dispatch_rank(dispatcher.phase)
            ||| {
                &&& dispatcher.phase is Read
                &&& next.phase is Read
                &&& read_rank(next.phase->Read_0) < read_rank(dispatcher.phase->Read_0)
            }
        }),
{
}

} // verus!
