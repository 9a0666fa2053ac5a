//! What a guest gets of the requests that it makes.

use vstd::prelude::*;

use crate::errno::Errno;
use crate::shim::chunked::{begins_to_read, ReadAction};
use crate::shim::dispatch::{
    begins, fits, Dispatcher, Dispatching, Parcel, SyscallAction, SyscallEvent, SyscallPhase, Value,
};
use crate::shim::request_laws::{buffers_fit_the_guest, room_in};
use crate::shim::requests::{Intake, Outlet, Plan, SyscallRequest};

verus! {

/// What has come of a request: what was read of the guest's memory, what the
/// function returned, and what was written to the guest's memory, in order.
pub struct SyscallWorld {
    pub taken: bool,
    pub returned: Option<Result<Value, Errno>>,
    pub put: Seq<(usize, Parcel)>,
    /// Whether memory of the guest could not be read or written.
    pub faulted: bool,
}

impl SyscallWorld {
    /// Nothing has come of it yet.
    pub open spec fn untouched() -> SyscallWorld {
        SyscallWorld { taken: false, returned: None, put: Seq::empty(), faulted: false }
    }

    /// What an action does, given what the host answered.
    pub open spec fn step(self, action: SyscallAction, event: SyscallEvent) -> SyscallWorld {
        match (action, event) {
            (SyscallAction::Call { .. }, SyscallEvent::Returned(r)) => SyscallWorld {
                returned: Some(r),
                ..self
            },
            (SyscallAction::Put { ptr, parcel }, SyscallEvent::Put(true)) => SyscallWorld {
                put: self.put.push((ptr, parcel)),
                ..self
            },
            (_, SyscallEvent::Taken(true)) => SyscallWorld { taken: true, ..self },
            (_, SyscallEvent::Taken(false)) => SyscallWorld { faulted: true, ..self },
            (_, SyscallEvent::Put(false)) => SyscallWorld { faulted: true, ..self },
            _ => self,
        }
    }
}

/// Whether the host can give these answers, one after the other.
pub open spec fn is_syscall_run(now: Dispatching, events: Seq<SyscallEvent>) -> bool
    decreases events.len(),
{
    events.len() > 0 ==> now.dispatcher.accepts(events[0]) && is_syscall_run(
        now.dispatcher.next(events[0]),
        events.drop_first(),
    )
}

/// The dispatcher and the world after these answers.
pub open spec fn after_answers(now: Dispatching, w: SyscallWorld, events: Seq<SyscallEvent>) -> (
    Dispatching,
    SyscallWorld,
)
    decreases events.len(),
{
    if events.len() == 0 {
        (now, w)
    } else {
        after_answers(
            now.dispatcher.next(events[0]),
            w.step(now.action, events[0]),
            events.drop_first(),
        )
    }
}

/// Whether the guest has been given the value, by way of the outlet and with the
/// result.
pub open spec fn is_delivered(
    outlet: Outlet,
    value: Value,
    put: Seq<(usize, Parcel)>,
    result: int,
) -> bool {
    match value {
        Value::Unit => result == 0 && put == match outlet {
            Outlet::ListLength { ptr } => seq![(ptr, Parcel::ListLength)],
            _ => Seq::empty(),
        },
        Value::Size(n) => result == n && put.len() == 0,
        Value::Word(n) => result == n && put.len() == 0,
        Value::Int(n) => put.len() == 0 && 0 <= result <= u32::MAX && (result == n || result - n
            == u32::MAX + 1),
        Value::Seconds(n) => result == n && put.len() == 0,
        Value::Filled(n) => {
            &&& result == n
            &&& outlet matches Outlet::Bytes { ptr } && put == seq![
                (ptr, Parcel::Bytes { len: n }),
            ]
        },
        Value::Record => {
            &&& result == 0
            &&& outlet matches Outlet::Record { ptr } && put == seq![(ptr, Parcel::Record)]
        },
        Value::Pair => {
            &&& result == 0
            &&& outlet matches Outlet::Pair { ptr } && put == seq![
                (ptr, Parcel::First),
                (ptr, Parcel::Second),
            ]
        },
        Value::CpuSet { bits, bytes } => {
            &&& result == bytes
            &&& outlet matches Outlet::CpuSet { len, ptr } && len % 8 == 0 && bits <= len * 8
                && put == seq![(ptr, Parcel::CpuSet { len: bytes })]
        },
    }
}

/// What is put next, and what is put before it, while a value is delivered.
spec fn is_delivering(
    outlet: Outlet,
    value: Value,
    put: Seq<(usize, Parcel)>,
    action: SyscallAction,
    result: usize,
    second: Option<usize>,
) -> bool {
    match action {
        SyscallAction::Put { ptr, parcel } => match second {
            Some(p) => {
                &&& p == ptr
                &&& parcel == Parcel::First
                &&& value is Pair
                &&& result == 0
                &&& put.len() == 0
                &&& outlet == (Outlet::Pair { ptr })
            },
            None => is_delivered(outlet, value, put.push((ptr, parcel)), result as int),
        },
        _ => false,
    }
}

/// Whether a request may end with the error.
pub open spec fn is_error_of(request: SyscallRequest, w: SyscallWorld, e: Errno) -> bool {
    match w.returned {
        Some(Err(told)) => e == told,
        Some(Ok(Value::Seconds(n))) => e == Errno::EOVERFLOW && !(0 <= n <= usize::MAX),
        Some(Ok(Value::CpuSet { bits, .. })) => {
            ||| w.faulted && e == Errno::EFAULT
            ||| e == Errno::EINVAL && (request.planned()->outlet matches Outlet::CpuSet {
                len,
                ..
            } && (len % 8 != 0 || len * 8 % (usize::MAX + 1) < bits))
        },
        Some(Ok(_)) => w.faulted && e == Errno::EFAULT,
        None => w.faulted && e == if request is Chdir {
            Errno::EINVAL
        } else {
            Errno::EFAULT
        },
    }
}

spec fn dispatch_inv(request: SyscallRequest, now: Dispatching, w: SyscallWorld) -> bool {
    match request.planned() {
        Plan::Call { handler, intake, buffer, outlet } => match now.dispatcher.phase {
            SyscallPhase::Take {
                request: r,
                fault,
                handler: h,
                intake: i,
                buffer: b,
                outlet: o,
            } => {
                &&& w == SyscallWorld::untouched()
                &&& r == request && h == handler && i == intake && b == buffer && o == outlet
                &&& fault == if request is Chdir {
                    Errno::EINVAL
                } else {
                    Errno::EFAULT
                }
                &&& match intake {
                    Intake::Path { ptr, .. } => now.action == (SyscallAction::TakePath { ptr }),
                    Intake::Bytes { ptr, len } => now.action == (SyscallAction::TakeBytes {
                        ptr,
                        len,
                    }),
                    _ => false,
                }
            },
            SyscallPhase::Call { buffer: b, outlet: o } => {
                &&& b == buffer && o == outlet
                &&& w == SyscallWorld {
                    taken: intake is Path || intake is Bytes,
                    ..SyscallWorld::untouched()
                }
                &&& now.action == SyscallAction::Call { request, handler, intake, buffer }
            },
            SyscallPhase::Put { result, second } => {
                &&& w.returned matches Some(Ok(value)) && fits(outlet, value, buffer)
                    && !(value is Seconds) && is_delivering(
                    outlet,
                    value,
                    w.put,
                    now.action,
                    result,
                    second,
                )
                &&& !w.faulted
                &&& w.taken == (intake is Path || intake is Bytes)
            },
            SyscallPhase::Read(_) => false,
            SyscallPhase::End => match now.action {
                SyscallAction::Finish(Ok(n)) => {
                    &&& w.returned matches Some(Ok(value)) && is_delivered(
                        outlet,
                        value,
                        w.put,
                        n as int,
                    )
                    &&& w.taken == (intake is Path || intake is Bytes)
                },
                SyscallAction::Finish(Err(e)) => is_error_of(request, w, e),
                _ => false,
            },
        },
        _ => false,
    }
}

proof fn delivering(request: SyscallRequest, now: Dispatching, w: SyscallWorld, value: Value)
    requires
        dispatch_inv(request, now, w),
        now.dispatcher.phase is Call,
        now.dispatcher.accepts(SyscallEvent::Returned(Ok(value))),
    ensures
        dispatch_inv(
            request,
            now.dispatcher.next(SyscallEvent::Returned(Ok(value))),
            w.step(now.action, SyscallEvent::Returned(Ok(value))),
        ),
{
    let after = w.step(now.action, SyscallEvent::Returned(Ok(value)));
    let next = now.dispatcher.next(SyscallEvent::Returned(Ok(value)));
    let outlet = request.planned()->outlet;
    assert(after.put =~= Seq::empty());
    match next.action {
        SyscallAction::Put { ptr, parcel } => {
            assert(after.put.push((ptr, parcel)) =~= seq![(ptr, parcel)]);
            if let Outlet::CpuSet { len, .. } = outlet {
                assert(len * 8 % (usize::MAX + 1) <= len * 8) by (nonlinear_arith)
                    requires
                        len * 8 >= 0,
                ;
            }
        },
        _ => {},
    }
}

proof fn putting(request: SyscallRequest, now: Dispatching, w: SyscallWorld)
    requires
        dispatch_inv(request, now, w),
        now.dispatcher.phase is Put,
    ensures
        dispatch_inv(
            request,
            now.dispatcher.next(SyscallEvent::Put(true)),
            w.step(now.action, SyscallEvent::Put(true)),
        ),
{
    let after = w.step(now.action, SyscallEvent::Put(true));
    let next = now.dispatcher.next(SyscallEvent::Put(true));
    match (now.action, next.action) {
        (SyscallAction::Put { ptr: p, parcel: a }, SyscallAction::Put { ptr, parcel }) => {
            assert(after.put =~= seq![(p, a)]);
            assert(after.put.push((ptr, parcel)) =~= seq![(p, a), (ptr, parcel)]);
        },
        _ => {},
    }
}

proof fn dispatch_run_keeps(
    request: SyscallRequest,
    now: Dispatching,
    w: SyscallWorld,
    events: Seq<SyscallEvent>,
)
    requires
        dispatch_inv(request, now, w),
        is_syscall_run(now, events),
    ensures
        ({
            let (end, world) = after_answers(now, w, events);
            dispatch_inv(request, end, world)
        }),
    decreases events.len(),
{
    if events.len() > 0 {
        let event = events[0];
        match event {
            SyscallEvent::Returned(Ok(value)) => delivering(request, now, w, value),
            SyscallEvent::Put(true) => putting(request, now, w),
            _ => {},
        }
        dispatch_run_keeps(
            request,
            now.dispatcher.next(event),
            w.step(now.action, event),
            events.drop_first(),
        );
    }
}

/// A request that a function carries out ends well only with what the function
/// returned: its value is the guest's result, or it is in the guest's memory
/// where the request points to, whole, in one piece and once, and the result
/// says how much that is.
pub proof fn guests_get_what_was_returned(request: SyscallRequest, events: Seq<SyscallEvent>)
    requires
        request.planned() is Call,
        is_syscall_run(begins(request), events),
    ensures
        ({
            let (end, world) = after_answers(
                begins(request),
                SyscallWorld::untouched(),
                events,
            );
            end.action matches SyscallAction::Finish(Ok(n)) ==> (
            world.returned matches Some(Ok(value)) && is_delivered(
                request.planned()->outlet,
                value,
                world.put,
                n as int,
            ))
        }),
{
    dispatch_run_keeps(request, begins(request), SyscallWorld::untouched(), events);
}

/// A request that a function carries out fails with the function's own error,
/// with a fault where memory of the guest cannot be read or written, or where
/// the value cannot be handed over: it does not fit the result, or not the
/// guest's buffer.
pub proof fn guests_get_the_error(request: SyscallRequest, events: Seq<SyscallEvent>)
    requires
        request.planned() is Call,
        is_syscall_run(begins(request), events),
    ensures
        ({
            let (end, world) = after_answers(
                begins(request),
                SyscallWorld::untouched(),
                events,
            );
            &&& end.action matches SyscallAction::Finish(Err(e)) ==> is_error_of(
                request,
                world,
                e,
            )
            &&& !(end.action is Fatal) && !(end.action is Read)
        }),
{
    dispatch_run_keeps(request, begins(request), SyscallWorld::untouched(), events);
}

/// A function is called once, after what it needs of the guest's memory was
/// read, and before anything is written there.
pub proof fn functions_are_called_once(request: SyscallRequest, events: Seq<SyscallEvent>)
    requires
        request.planned() is Call,
        is_syscall_run(begins(request), events),
    ensures
        ({
            let (end, world) = after_answers(
                begins(request),
                SyscallWorld::untouched(),
                events,
            );
            &&& end.action matches SyscallAction::Call { request: r, intake, .. } ==> {
                &&& r == request
                &&& world.returned is None
                &&& world.put.len() == 0
                &&& intake is Path || intake is Bytes ==> world.taken
            }
            &&& end.action matches SyscallAction::Put { .. } ==> (
            world.returned matches Some(Ok(_)))
        }),
{
    dispatch_run_keeps(request, begins(request), SyscallWorld::untouched(), events);
}

/// A file that is read piece by piece is read for the request, from the start:
/// the place in the file is the one that the guest names, or else the one where
/// the file stands, which is then moved.
pub proof fn large_reads_begin_at_the_start(request: SyscallRequest)
    ensures
        begins(request).dispatcher.phase matches SyscallPhase::Read(reader) ==> {
            &&& begins(request).action == SyscallAction::Read(ReadAction::Resolve { fd: reader.fd })
            &&& reader.wf()
            &&& reader.total == 0
            &&& match request {
                SyscallRequest::Pread64 { fd, buf, count, offset } => !reader.moves && reader.fd
                    == fd && reader.buf == buf && reader.count == count && reader.offset == Some(
                    offset,
                ),
                SyscallRequest::Read { fd, buf, count } => reader.moves && reader.fd == fd
                    && reader.buf == buf && reader.count == count,
                _ => false,
            }
            &&& begins_to_read(
                crate::shim::chunked::Reading {
                    reader,
                    action: ReadAction::Resolve { fd: reader.fd },
                },
            )
        },
{
}

/// What reading piece by piece comes to is what the request comes to.
pub proof fn large_reads_end_the_request(dispatcher: Dispatcher, event: SyscallEvent)
    requires
        dispatcher.phase is Read,
        dispatcher.accepts(event),
    ensures
        ({
            let reading = dispatcher.phase->Read_0.next(event->Read_0);
            let next = dispatcher.next(event);
            &&& next.action == SyscallAction::Finish(
                reading.action->Finish_0,
            ) <==> reading.action is Finish
            &&& next.action is Fatal <==> reading.action is Fatal
            &&& next.action matches SyscallAction::Fatal(failure) ==> reading.action
                == ReadAction::Fatal(failure)
            &&& next.action matches SyscallAction::Read(action) ==> action == reading.action
                && next.dispatcher.phase == SyscallPhase::Read(reading.reader)
            &&& next.action is Finish || next.action is Fatal || next.action is Read
        }),
{
}

/// No more bytes are put to a guest than its request has room for, and no more
/// than the function had a buffer for.
pub proof fn guests_are_not_overrun(request: SyscallRequest, events: Seq<SyscallEvent>)
    requires
        request.planned() is Call,
        is_syscall_run(begins(request), events),
    ensures
        after_answers(
            begins(request),
            SyscallWorld::untouched(),
            events,
        ).0.action matches SyscallAction::Put { parcel: Parcel::Bytes { len }, .. } ==> {
            &&& len <= request.planned()->buffer
            &&& room_in(request) matches Some(room) && len <= room
        },
{
    dispatch_run_keeps(request, begins(request), SyscallWorld::untouched(), events);
    let (end, world) = after_answers(begins(request), SyscallWorld::untouched(), events);
    buffers_fit_the_guest(request);
    if let SyscallAction::Put { ptr, parcel: Parcel::Bytes { len } } = end.action {
        let put = world.put.push((ptr, Parcel::Bytes { len }));
        assert(put.last() == (ptr, Parcel::Bytes { len }));
    }
}

} // verus!
