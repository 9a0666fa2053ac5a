//! What holds of the plans of all requests.

use vstd::prelude::*;

use crate::errno::Errno;
use crate::shim::requests::{
    Handler, Intake, Outlet, Plan, SyscallRequest, AT_EMPTY_PATH, MAX_KERNEL_BUF_SIZE,
};

verus! {

/// Whether the function is the one that is named after the request.
pub open spec fn is_named_after(handler: Handler, request: SyscallRequest) -> bool {
    match handler {
        Handler::SysExit => request is Exit,
        Handler::SysExitGroup => request is ExitGroup,
        Handler::SysExecve => request is Execve,
        Handler::SysRead => request is Read,
        Handler::SysWrite => request is Write,
        Handler::SysClose => request is Close,
        Handler::SysLseek => request is Lseek,
        Handler::SysMkdirat => request is Mkdirat,
        Handler::SysChdir => request is Chdir,
        Handler::SysRtSigprocmask => request is RtSigprocmask,
        Handler::SysRtSigaction => request is RtSigaction,
        Handler::SysRtSigreturn => request is RtSigreturn,
        Handler::SysIoctl => request is Ioctl,
        Handler::SysPwrite64 => request is Pwrite64,
        Handler::SysSendfile => request is Sendfile,
        Handler::SysMmap => request is Mmap,
        Handler::SysMprotect => request is Mprotect,
        Handler::SysMremap => request is Mremap,
        Handler::SysMunmap => request is Munmap,
        Handler::SysBrk => request is Brk,
        Handler::SysReadv => request is Readv,
        Handler::SysWritev => request is Writev,
        Handler::SysPreadv => request is Preadv,
        Handler::SysPwritev => request is Pwritev,
        Handler::SysFaccessat => request is Faccessat,
        Handler::SysMadvise => request is Madvise,
        Handler::SysDup => request is Dup,
        Handler::SysSocket => request is Socket,
        Handler::SysSocketpair => request is Socketpair,
        Handler::SysConnect => request is Connect,
        Handler::SysAccept => request is Accept,
        Handler::SysSendto => request is Sendto,
        Handler::SysSendmsg => request is Sendmsg,
        Handler::SysSendmmsg => request is Sendmmsg,
        Handler::SysRecvfrom => request is Recvfrom,
        Handler::SysRecvmsg => request is Recvmsg,
        Handler::SysRecvmmsg => request is Recvmmsg,
        Handler::SysShutdown => request is Shutdown,
        Handler::SysBind => request is Bind,
        Handler::SysListen => request is Listen,
        Handler::SysSetsockopt => request is Setsockopt,
        Handler::SysGetsockopt => request is Getsockopt,
        Handler::SysGetsockname => request is Getsockname,
        Handler::SysGetpeername => request is Getpeername,
        Handler::SysUname => request is Uname,
        Handler::SysFcntl => request is Fcntl,
        Handler::SysGetcwd => request is Getcwd,
        Handler::SysEpollCtl => request is EpollCtl,
        Handler::SysEpollCreate => request is EpollCreate,
        Handler::SysEpollPwait => request is EpollPwait,
        Handler::SysPrctl => request is Prctl,
        Handler::SysArchPrctl => request is ArchPrctl,
        Handler::SysReadlink => request is Readlink,
        Handler::SysPpoll => request is Ppoll,
        Handler::SysPselect => request is Pselect,
        Handler::SysReadlinkat => request is Readlinkat,
        Handler::SysGettimeofday => request is Gettimeofday,
        Handler::SysClockGettime => request is ClockGettime,
        Handler::SysClockGetres => request is ClockGetres,
        Handler::SysClockNanosleep => request is ClockNanosleep,
        Handler::SysTime => request is Time,
        Handler::SysOpenat => request is Openat,
        Handler::SysFtruncate => request is Ftruncate,
        Handler::SysMknodat => request is Mknodat,
        Handler::SysUnlinkat => request is Unlinkat,
        Handler::SysStat => request is Stat,
        Handler::SysLstat => request is Lstat,
        Handler::SysFstat => request is Fstat,
        Handler::SysNewfstatat => request is Newfstatat,
        Handler::SysStatx => request is Statx,
        Handler::SysEventfd2 => request is Eventfd2,
        Handler::SysPipe2 => request is Pipe2,
        Handler::SysClone => request is Clone,
        Handler::SysClone3 => request is Clone3,
        Handler::SysSetTidAddress => request is SetTidAddress,
        Handler::SysGettid => request is Gettid,
        Handler::SysGetrlimit => request is Getrlimit,
        Handler::SysSetrlimit => request is Setrlimit,
        Handler::SysPrlimit => request is Prlimit,
        Handler::SysSetRobustList => request is SetRobustList,
        Handler::SysGetRobustList => request is GetRobustList,
        Handler::SysGetrandom => request is GetRandom,
        Handler::SysGetpid => request is Getpid,
        Handler::SysGetppid => request is Getppid,
        Handler::SysGetuid => request is Getuid,
        Handler::SysGetgid => request is Getgid,
        Handler::SysGeteuid => request is Geteuid,
        Handler::SysGetegid => request is Getegid,
        Handler::SysSysinfo => request is Sysinfo,
        Handler::SysCapget => request is CapGet,
        Handler::SysGetdirent64 => request is GetDirent64,
        Handler::SysSchedGetaffinity => request is SchedGetAffinity,
        Handler::SysFutex => request is Futex,
        Handler::SysUmask => request is Umask,
        Handler::SysKill => request is Kill,
        Handler::SysTkill => request is Tkill,
        Handler::SysTgkill => request is Tgkill,
        Handler::SysSigaltstack => request is Sigaltstack,
        Handler::SysAlarm => request is Alarm,
        Handler::SysPause => request is Pause,
        Handler::SysGetitimer => request is GetITimer,
        Handler::SysSetitimer => request is SetITimer,
    }
}

/// Each request that is carried out by a function is carried out by the one that
/// is named after it, so no two requests share a function.
pub proof fn requests_go_to_their_own_function(request: SyscallRequest)
    ensures
        request.planned() matches Plan::Call { handler, .. } ==> is_named_after(handler, request),
{
}

/// Two requests that go to one function are requests of one kind: whatever
/// function is named after the one is named after the other.
pub proof fn functions_are_not_shared(a: SyscallRequest, b: SyscallRequest, named: Handler)
    requires
        a.planned() is Call,
        b.planned() is Call,
        a.planned()->handler == b.planned()->handler,
        is_named_after(named, a),
    ensures
        is_named_after(named, b),
        named == a.planned()->handler,
{
    requests_go_to_their_own_function(a);
    requests_go_to_their_own_function(b);
}

/// A request is turned down without calling anything only where it is not known
/// at all, or where it names no clock, no origin or no size. Yielding always
/// works.
pub proof fn known_requests_are_carried_out(request: SyscallRequest)
    ensures
        request.planned() matches Plan::Fixed(result) ==> match result {
            Ok(value) => value == 0 && request is SchedYield,
            Err(Errno::ENOSYS) => request is Unsupported || request is SetThreadArea,
            Err(Errno::EINVAL) => {
                ||| request matches SyscallRequest::Lseek { whence: None, .. }
                ||| request matches SyscallRequest::ClockGettime { clock: None, .. }
                ||| request matches SyscallRequest::ClockGetres { clock: None, .. }
                ||| request matches SyscallRequest::ClockNanosleep { clock: None, .. }
                ||| request matches SyscallRequest::EpollCreate { size, .. } && size <= 0
            },
            _ => false,
        },
        request is SchedYield ==> request.planned() == Plan::Fixed(Ok(0)),
        request is Unsupported || request is SetThreadArea ==> request.planned() == Plan::Fixed(
            Err(Errno::ENOSYS),
        ),
        request matches SyscallRequest::Lseek { whence, .. } ==> (request.planned() is Fixed
            <==> whence is None),
        request matches SyscallRequest::ClockGettime { clock, .. } ==> (request.planned() is Fixed
            <==> clock is None),
        request matches SyscallRequest::ClockGetres { clock, .. } ==> (request.planned() is Fixed
            <==> clock is None),
        request matches SyscallRequest::ClockNanosleep { clock, .. } ==> (request.planned()
            is Fixed <==> clock is None),
        request matches SyscallRequest::EpollCreate { size, .. } ==> (request.planned() is Fixed
            <==> size <= 0),
{
}

/// The path that a request names, where the kernel reads it for the function.
pub open spec fn path_in(request: SyscallRequest) -> Option<usize> {
    match request {
        SyscallRequest::Chdir { pathname } => Some(pathname),
        SyscallRequest::Faccessat { pathname, .. } => Some(pathname),
        SyscallRequest::Lstat { pathname, .. } => Some(pathname),
        SyscallRequest::Mkdirat { pathname, .. } => Some(pathname),
        SyscallRequest::Mknodat { pathname, .. } => Some(pathname),
        SyscallRequest::Newfstatat { pathname, .. } => Some(pathname),
        SyscallRequest::Openat { pathname, .. } => Some(pathname),
        SyscallRequest::Readlink { pathname, .. } => Some(pathname),
        SyscallRequest::Readlinkat { pathname, .. } => Some(pathname),
        SyscallRequest::Stat { pathname, .. } => Some(pathname),
        SyscallRequest::Statx { pathname, .. } => pathname,
        SyscallRequest::Unlinkat { pathname, .. } => Some(pathname),
        _ => None,
    }
}

/// What is taken from a guest is what its request points to: its path, all the
/// bytes that it wants written, its offset.
pub proof fn guests_are_read_where_they_point(request: SyscallRequest)
    ensures
        request.planned() matches Plan::Call { intake, .. } ==> {
            &&& match path_in(request) {
                Some(pathname) => intake matches Intake::Path { ptr, fault } && ptr == pathname
                    && fault == if request is Chdir {
                    Errno::EINVAL
                } else {
                    Errno::EFAULT
                },
                None => !(intake is Path),
            }
            &&& request matches SyscallRequest::Write { buf, count, .. } ==> intake
                == (Intake::Bytes { ptr: buf, len: count })
            &&& request matches SyscallRequest::Pwrite64 { buf, count, .. } ==> intake
                == (Intake::Bytes { ptr: buf, len: count })
            &&& intake is Bytes ==> request is Write || request is Pwrite64
            &&& request matches SyscallRequest::Preadv { pos_l, .. } ==> (intake
                matches Intake::Offset(at) && (pos_l <= i64::MAX ==> at == pos_l) && (pos_l
                > i64::MAX ==> at == pos_l - u64::MAX - 1))
            &&& request matches SyscallRequest::Pwritev { pos_l, .. } ==> (intake
                matches Intake::Offset(at) && (pos_l <= i64::MAX ==> at == pos_l) && (pos_l
                > i64::MAX ==> at == pos_l - u64::MAX - 1))
            &&& intake is Offset ==> request is Preadv || request is Pwritev
        },
{
    assert(usize::MAX <= u64::MAX);
}

/// A request for the status of a file without a path is one for the descriptor
/// itself, with the flag that says so and all others as they were.
pub proof fn missing_path_stands_for_the_descriptor(request: SyscallRequest)
    ensures
        request.planned() matches Plan::Call { intake: Intake::EmptyPath { flags }, .. } ==> (
        request matches SyscallRequest::Statx { pathname: None, flags: given, .. } && flags
            & AT_EMPTY_PATH == AT_EMPTY_PATH && flags & !AT_EMPTY_PATH == given & !AT_EMPTY_PATH),
        request matches SyscallRequest::Statx { pathname: None, .. } ==> (
        request.planned() matches Plan::Call { intake, .. } && intake is EmptyPath),
{
    if let SyscallRequest::Statx { flags: given, .. } = request {
        assert((given | 0x1000u32) & 0x1000u32 == 0x1000u32 && (given | 0x1000u32) & !0x1000u32
            == given & !0x1000u32) by (bit_vector);
    }
}

/// What comes back goes where the request points to, and a request that points
/// nowhere gets it as its result.
pub proof fn guests_are_written_where_they_point(request: SyscallRequest)
    ensures
        request.planned() matches Plan::Call { outlet, .. } ==> match request {
            SyscallRequest::Read { buf, .. } => outlet == (Outlet::Bytes { ptr: buf }),
            SyscallRequest::Getcwd { buf, .. } => outlet == (Outlet::Bytes { ptr: buf }),
            SyscallRequest::Readlink { buf, .. } => outlet == (Outlet::Bytes { ptr: buf }),
            SyscallRequest::Readlinkat { buf, .. } => outlet == (Outlet::Bytes { ptr: buf }),
            SyscallRequest::Stat { buf, .. } => outlet == (Outlet::Record { ptr: buf }),
            SyscallRequest::Lstat { buf, .. } => outlet == (Outlet::Record { ptr: buf }),
            SyscallRequest::Fstat { buf, .. } => outlet == (Outlet::Record { ptr: buf }),
            SyscallRequest::Newfstatat { buf, .. } => outlet == (Outlet::Record { ptr: buf }),
            SyscallRequest::Statx { statxbuf, .. } => outlet == (Outlet::Record { ptr: statxbuf }),
            SyscallRequest::Sysinfo { buf } => outlet == (Outlet::Record { ptr: buf }),
            SyscallRequest::Pipe2 { pipefd, .. } => outlet == (Outlet::Pair { ptr: pipefd }),
            SyscallRequest::GetRobustList { len, .. } => outlet == (Outlet::ListLength {
                ptr: len,
            }),
            SyscallRequest::SchedGetAffinity { len, mask, .. } => outlet == (Outlet::CpuSet {
                len,
                ptr: mask,
            }),
            SyscallRequest::Time { .. } => outlet is Seconds,
            _ => match outlet {
                Outlet::Nothing => request is Exit || request is ExitGroup
                    || request is SetRobustList,
                Outlet::Int => request is Getpid || request is Getppid || request is Gettid
                    || request is SetTidAddress,
                Outlet::Value => !(request is Exit || request is ExitGroup
                    || request is SetRobustList || request is Getpid || request is Getppid
                    || request is Gettid || request is SetTidAddress),
                _ => false,
            },
        },
{
}

/// How many bytes the guest has room for, where a function fills a buffer.
pub open spec fn room_in(request: SyscallRequest) -> Option<usize> {
    match request {
        SyscallRequest::Read { count, .. } => Some(count),
        SyscallRequest::Getcwd { size, .. } => Some(size),
        SyscallRequest::Readlink { bufsiz, .. } => Some(bufsiz),
        SyscallRequest::Readlinkat { bufsiz, .. } => Some(bufsiz),
        _ => None,
    }
}

/// A function gets a buffer no larger than the room that the guest has, and as
/// large as that where the kernel sets that much aside. All others get none.
pub proof fn buffers_fit_the_guest(request: SyscallRequest)
    ensures
        request.planned() matches Plan::Call { buffer, outlet, .. } ==> {
            &&& room_in(request) matches Some(room) ==> {
                &&& buffer <= room
                &&& room <= MAX_KERNEL_BUF_SIZE ==> buffer == room
                &&& room > MAX_KERNEL_BUF_SIZE ==> buffer == MAX_KERNEL_BUF_SIZE
                &&& outlet is Bytes
            }
            &&& room_in(request) is None ==> buffer == 0 && !(outlet is Bytes)
        },
{
}

/// A file is read piece by piece where the guest names the place in the file, or
/// wants more than fits the kernel's buffer: of the descriptor, the place and
/// the length that it names, to the memory that it points to.
pub proof fn large_reads_are_of_the_request(request: SyscallRequest)
    ensures
        request.planned() is Pread <==> request is Pread64,
        request.planned() matches Plan::Pread { fd, buf, count, offset } ==> request == (
        SyscallRequest::Pread64 { fd, buf, count, offset }),
        request.planned() matches Plan::LargeRead { fd, buf, count } ==> request == (
        SyscallRequest::Read { fd, buf, count }) && count > MAX_KERNEL_BUF_SIZE,
        request matches SyscallRequest::Read { count, .. } ==> (count > MAX_KERNEL_BUF_SIZE
            <==> request.planned() is LargeRead),
{
}

} // verus!
