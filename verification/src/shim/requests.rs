//! What a guest asks of the kernel, and how each request is carried out.

use vstd::prelude::*;

use crate::errno::Errno;

verus! {

/// The most that is read or written through a buffer of the kernel at once.
pub const MAX_KERNEL_BUF_SIZE: usize = 0x80_000;

/// Flag by which an empty path stands for the descriptor that goes with it.
pub const AT_EMPTY_PATH: u32 = 0x1000;

/// From where a file offset is counted.
#[derive(Clone, Copy, Debug, PartialEq, Eq, Structural)]
pub enum Whence {
    Beginning,
    Current,
    End,
}

/// A clock that guests can read.
#[derive(Clone, Copy, Debug, PartialEq, Eq, Structural)]
pub enum ClockId {
    RealTime,
    Monotonic,
    MonotonicCoarse,
    /// A clock known by its number.
    Numbered(i32),
}

/// A request that a guest makes of the kernel. Pointers of the guest are
/// addresses; what a descriptor of flags or of a clock means was found out
/// before.
#[allow(inconsistent_fields)]
#[derive(Clone, Copy, Debug, PartialEq, Eq, Structural)]
pub enum SyscallRequest {
    Exit { status: i32 },
    ExitGroup { status: i32 },
    Execve { pathname: usize, argv: usize, envp: usize },
    Read { fd: i32, buf: usize, count: usize },
    Write { fd: i32, buf: usize, count: usize },
    Close { fd: i32 },
    Lseek { fd: i32, offset: isize, whence: Option<Whence> },
    Mkdirat { dirfd: i32, pathname: usize, mode: u32 },
    Chdir { pathname: usize },
    RtSigprocmask { how: i32, set: usize, oldset: usize, sigsetsize: usize },
    RtSigaction { signum: i32, act: usize, oldact: usize, sigsetsize: usize },
    RtSigreturn,
    Ioctl { fd: i32, cmd: u32, arg: usize },
    Pread64 { fd: i32, buf: usize, count: usize, offset: i64 },
    Pwrite64 { fd: i32, buf: usize, count: usize, offset: i64 },
    Sendfile { out_fd: i32, in_fd: i32, offset: usize, count: usize },
    Mmap { addr: usize, length: usize, prot: u32, flags: u32, fd: i32, offset: usize },
    Mprotect { addr: usize, length: usize, prot: u32 },
    Mremap { old_addr: usize, old_size: usize, new_size: usize, flags: u32, new_addr: usize },
    Munmap { addr: usize, length: usize },
    Brk { addr: usize },
    Readv { fd: i32, iovec: usize, iovcnt: usize },
    Writev { fd: i32, iovec: usize, iovcnt: usize },
    Preadv { fd: i32, iovec: usize, iovcnt: usize, pos_l: usize, pos_h: usize },
    Pwritev { fd: i32, iovec: usize, iovcnt: usize, pos_l: usize, pos_h: usize },
    Faccessat { dirfd: i32, pathname: usize, mode: u32, flags: u32 },
    Madvise { addr: usize, length: usize, behavior: i32 },
    Dup { oldfd: i32, newfd: Option<i32>, flags: Option<u32> },
    Socket { domain: u32, type_and_flags: u32, protocol: u8 },
    Socketpair { domain: u32, type_and_flags: u32, protocol: u8, sockvec: usize },
    Connect { sockfd: i32, sockaddr: usize, addrlen: usize },
    Accept { sockfd: i32, addr: usize, addrlen: usize, flags: u32 },
    Sendto { sockfd: i32, buf: usize, len: usize, flags: u32, addr: usize, addrlen: u32 },
    Sendmsg { sockfd: i32, msg: usize, flags: u32 },
    Sendmmsg { sockfd: i32, msgvec: usize, vlen: u32, flags: u32 },
    Recvfrom { sockfd: i32, buf: usize, len: usize, flags: u32, addr: usize, addrlen: usize },
    Recvmsg { sockfd: i32, msg: usize, flags: u32 },
    Recvmmsg { sockfd: i32, msgvec: usize, vlen: u32, flags: u32, timeout: usize },
    Shutdown { sockfd: i32, how: i32 },
    Bind { sockfd: i32, sockaddr: usize, addrlen: usize },
    Listen { sockfd: i32, backlog: u16 },
    Setsockopt { sockfd: i32, level: u32, optname: u32, optval: usize, optlen: usize },
    Getsockopt { sockfd: i32, level: u32, optname: u32, optval: usize, optlen: usize },
    Getsockname { sockfd: i32, addr: usize, addrlen: usize },
    Getpeername { sockfd: i32, addr: usize, addrlen: usize },
    Uname { buf: usize },
    Fcntl { fd: i32, cmd: i32, arg: usize },
    Getcwd { buf: usize, size: usize },
    EpollCtl { epfd: i32, op: i32, fd: i32, event: usize },
    EpollCreate { size: i32, flags: u32 },
    EpollPwait {
        epfd: i32,
        events: usize,
        maxevents: u32,
        timeout: i32,
        sigmask: usize,
        sigsetsize: usize,
    },
    Prctl { option: i32, arg: usize },
    ArchPrctl { code: i32, arg: usize },
    Readlink { pathname: usize, buf: usize, bufsiz: usize },
    Ppoll { fds: usize, nfds: usize, timeout: usize, sigmask: usize, sigsetsize: usize },
    Pselect {
        nfds: u32,
        readfds: usize,
        writefds: usize,
        exceptfds: usize,
        timeout: usize,
        sigsetpack: usize,
    },
    Readlinkat { dirfd: i32, pathname: usize, buf: usize, bufsiz: usize },
    Gettimeofday { tv: usize, tz: usize },
    ClockGettime { clock: Option<ClockId>, tp: usize },
    ClockGetres { clock: Option<ClockId>, res: usize },
    ClockNanosleep { clock: Option<ClockId>, flags: u32, request: usize, remain: usize },
    Time { tloc: usize },
    Openat { dirfd: i32, pathname: usize, flags: u32, mode: u32 },
    Ftruncate { fd: i32, length: usize },
    Mknodat { dirfd: i32, pathname: usize, mode_and_type: u32, dev: u64 },
    Unlinkat { dirfd: i32, pathname: usize, flags: u32 },
    Stat { pathname: usize, buf: usize },
    Lstat { pathname: usize, buf: usize },
    Fstat { fd: i32, buf: usize },
    Newfstatat { dirfd: i32, pathname: usize, buf: usize, flags: u32 },
    Statx { dirfd: i32, pathname: Option<usize>, flags: u32, mask: u32, statxbuf: usize },
    Eventfd2 { initval: u32, flags: u32 },
    Pipe2 { pipefd: usize, flags: u32 },
    Clone { args: usize },
    Clone3 { args: usize },
    SetThreadArea { user_desc: usize },
    SetTidAddress { tidptr: usize },
    Gettid,
    Getrlimit { resource: i32, rlim: usize },
    Setrlimit { resource: i32, rlim: usize },
    Prlimit { pid: Option<i32>, resource: i32, new_limit: usize, old_limit: usize },
    SetRobustList { head: usize },
    GetRobustList { pid: Option<i32>, head: usize, len: usize },
    GetRandom { buf: usize, count: usize, flags: u32 },
    Getpid,
    Getppid,
    Getuid,
    Getgid,
    Geteuid,
    Getegid,
    Sysinfo { buf: usize },
    CapGet { header: usize, data: usize },
    GetDirent64 { fd: i32, dirp: usize, count: usize },
    SchedGetAffinity { pid: Option<i32>, len: usize, mask: usize },
    SchedYield,
    Futex { args: usize },
    Umask { mask: u32 },
    Kill { pid: i32, sig: i32 },
    Tkill { tid: i32, sig: i32 },
    Tgkill { tgid: i32, tid: i32, sig: i32 },
    Sigaltstack { ss: usize, old_ss: usize },
    Alarm { seconds: u32 },
    Pause,
    GetITimer { which: u32, curr_value: usize },
    SetITimer { which: u32, new_value: usize, old_value: usize },
    Unsupported,
}

/// The functions that carry out requests.
#[derive(Clone, Copy, Debug, PartialEq, Eq, Structural)]
pub enum Handler {
    SysExit,
    SysExitGroup,
    SysExecve,
    SysRead,
    SysWrite,
    SysClose,
    SysLseek,
    SysMkdirat,
    SysChdir,
    SysRtSigprocmask,
    SysRtSigaction,
    SysRtSigreturn,
    SysIoctl,
    SysPwrite64,
    SysSendfile,
    SysMmap,
    SysMprotect,
    SysMremap,
    SysMunmap,
    SysBrk,
    SysReadv,
    SysWritev,
    SysPreadv,
    SysPwritev,
    SysFaccessat,
    SysMadvise,
    SysDup,
    SysSocket,
    SysSocketpair,
    SysConnect,
    SysAccept,
    SysSendto,
    SysSendmsg,
    SysSendmmsg,
    SysRecvfrom,
    SysRecvmsg,
    SysRecvmmsg,
    SysShutdown,
    SysBind,
    SysListen,
    SysSetsockopt,
    SysGetsockopt,
    SysGetsockname,
    SysGetpeername,
    SysUname,
    SysFcntl,
    SysGetcwd,
    SysEpollCtl,
    SysEpollCreate,
    SysEpollPwait,
    SysPrctl,
    SysArchPrctl,
    SysReadlink,
    SysPpoll,
    SysPselect,
    SysReadlinkat,
    SysGettimeofday,
    SysClockGettime,
    SysClockGetres,
    SysClockNanosleep,
    SysTime,
    SysOpenat,
    SysFtruncate,
    SysMknodat,
    SysUnlinkat,
    SysStat,
    SysLstat,
    SysFstat,
    SysNewfstatat,
    SysStatx,
    SysEventfd2,
    SysPipe2,
    SysClone,
    SysClone3,
    SysSetTidAddress,
    SysGettid,
    SysGetrlimit,
    SysSetrlimit,
    SysPrlimit,
    SysSetRobustList,
    SysGetRobustList,
    SysGetrandom,
    SysGetpid,
    SysGetppid,
    SysGetuid,
    SysGetgid,
    SysGeteuid,
    SysGetegid,
    SysSysinfo,
    SysCapget,
    SysGetdirent64,
    SysSchedGetaffinity,
    SysFutex,
    SysUmask,
    SysKill,
    SysTkill,
    SysTgkill,
    SysSigaltstack,
    SysAlarm,
    SysPause,
    SysGetitimer,
    SysSetitimer,
}

/// What is taken from the guest before a request is carried out.
#[derive(Clone, Copy, Debug, PartialEq, Eq, Structural)]
pub enum Intake {
    Nothing,
    /// A path, or the error where it cannot be read.
    Path { ptr: usize, fault: Errno },
    /// The empty path, with flags by which it stands for the descriptor itself.
    EmptyPath { flags: u32 },
    /// Bytes.
    Bytes { ptr: usize, len: usize },
    /// A file offset that the guest passed in two halves.
    Offset(i64),
}

/// What is done with the value that comes back.
#[derive(Clone, Copy, Debug, PartialEq, Eq, Structural)]
pub enum Outlet {
    /// There is none.
    Nothing,
    /// It is the result; where it says only that all went well, zero is.
    Value,
    /// It is the result, its bits taken as a number without sign.
    Int,
    /// It is the result, if it is not negative.
    Seconds,
    /// It says how many bytes of the buffer go to the guest.
    Bytes { ptr: usize },
    /// It is written to the guest.
    Record { ptr: usize },
    /// It is two descriptors, which are written to the guest.
    Pair { ptr: usize },
    /// The length of a robust list head is written to the guest.
    ListLength { ptr: usize },
    /// It is a set of processors, which is written to the guest if its buffer
    /// is large enough.
    CpuSet { len: usize, ptr: usize },
}

/// How a request is carried out.
#[derive(Clone, Copy, Debug, PartialEq, Eq)]
pub enum Plan {
    /// The result is known.
    Fixed(Result<usize, Errno>),
    /// A function is called, with a buffer of some bytes for it to fill.
    Call { handler: Handler, intake: Intake, buffer: usize, outlet: Outlet },
    /// The file is read from an offset, piece by piece.
    Pread { fd: i32, buf: usize, count: usize, offset: i64 },
    /// The file is read from where it stands, piece by piece.
    LargeRead { fd: i32, buf: usize, count: usize },
}

/// The number with the bits of `x` in two's complement.
pub open spec fn signed64(x: int) -> int {
    if x <= i64::MAX {
        x
    } else {
        x - 0x1_0000_0000_0000_0000
    }
}

/// The file offset that a guest with 64-bit registers passes in two halves:
/// the low one holds it all.
pub open spec fn offset_of(pos_l: usize, pos_h: usize) -> i64 {
    signed64(pos_l as int) as i64
}

/// The file offset that a guest with 64-bit registers passes in two halves.
pub fn preadv_pwritev_offset(pos_l: usize, pos_h: usize) -> (offset: i64)
    ensures
        offset == signed64(pos_l as int),
        offset == offset_of(pos_l, pos_h),
{
    let low: u64 = pos_l as u64;
    if low <= i64::MAX as u64 {
        low as i64
    } else {
        -((u64::MAX - low) as i64) - 1
    }
}

/// The file offset that a guest with 32-bit registers passes in two halves.
pub fn preadv_pwritev_offset_32(pos_l: u32, pos_h: u32) -> (offset: i64)
    ensures
        offset == signed64(pos_h * 0x1_0000_0000 + pos_l),
{
    let whole: u64 = pos_h as u64 * 0x1_0000_0000 + pos_l as u64;
    if whole <= i64::MAX as u64 {
        whole as i64
    } else {
        -((u64::MAX - whole) as i64) - 1
    }
}

/// The size of a buffer for so many bytes.
pub open spec fn small_spec(len: usize) -> usize {
    if len < MAX_KERNEL_BUF_SIZE {
        len
    } else {
        MAX_KERNEL_BUF_SIZE
    }
}

/// The size of a buffer for so many bytes.
pub fn small(len: usize) -> (size: usize)
    ensures
        size == small_spec(len),
{
    if len < MAX_KERNEL_BUF_SIZE {
        len
    } else {
        MAX_KERNEL_BUF_SIZE
    }
}

impl Plan {
    /// A call that takes nothing from the guest first.
    pub open spec fn calls(handler: Handler, outlet: Outlet) -> Plan {
        Plan::Call { handler, intake: Intake::Nothing, buffer: 0, outlet }
    }

    /// A call that takes nothing from the guest first.
    pub fn call(handler: Handler, outlet: Outlet) -> (plan: Plan)
        ensures
            plan == Plan::calls(handler, outlet),
    {
        Plan::Call { handler, intake: Intake::Nothing, buffer: 0, outlet }
    }

    /// A call with a path of the guest.
    pub open spec fn calls_on_path(handler: Handler, ptr: usize, outlet: Outlet) -> Plan {
        Plan::Call {
            handler,
            intake: Intake::Path { ptr, fault: Errno::EFAULT },
            buffer: 0,
            outlet,
        }
    }

    /// A call with a path of the guest.
    pub fn call_on_path(handler: Handler, ptr: usize, outlet: Outlet) -> (plan: Plan)
        ensures
            plan == Plan::calls_on_path(handler, ptr, outlet),
    {
        Plan::Call {
            handler,
            intake: Intake::Path { ptr, fault: Errno::EFAULT },
            buffer: 0,
            outlet,
        }
    }

    /// A call with bytes of the guest.
    pub open spec fn calls_on_bytes(handler: Handler, ptr: usize, len: usize) -> Plan {
        Plan::Call {
            handler,
            intake: Intake::Bytes { ptr, len },
            buffer: 0,
            outlet: Outlet::Value,
        }
    }

    /// A call with bytes of the guest.
    pub fn call_on_bytes(handler: Handler, ptr: usize, len: usize) -> (plan: Plan)
        ensures
            plan == Plan::calls_on_bytes(handler, ptr, len),
    {
        Plan::Call {
            handler,
            intake: Intake::Bytes { ptr, len },
            buffer: 0,
            outlet: Outlet::Value,
        }
    }
}

impl SyscallRequest {
    /// How the request is carried out.
    pub open spec fn planned(self) -> Plan {
        match self {
            SyscallRequest::Exit { .. } => Plan::calls(Handler::SysExit, Outlet::Nothing),
            SyscallRequest::ExitGroup { .. } => {
                Plan::calls(Handler::SysExitGroup, Outlet::Nothing)
            },
            SyscallRequest::Execve { .. } => Plan::calls(Handler::SysExecve, Outlet::Value),
            SyscallRequest::Read { fd, buf, count } => if count <= MAX_KERNEL_BUF_SIZE {
                Plan::Call {
                    handler: Handler::SysRead,
                    intake: Intake::Nothing,
                    buffer: count,
                    outlet: Outlet::Bytes { ptr: buf },
                }
            } else {
                Plan::LargeRead { fd, buf, count }
            },
            SyscallRequest::Write { buf, count, .. } => {
                Plan::calls_on_bytes(Handler::SysWrite, buf, count)
            },
            SyscallRequest::Close { .. } => Plan::calls(Handler::SysClose, Outlet::Value),
            SyscallRequest::Lseek { whence, .. } => if whence is Some {
                Plan::calls(Handler::SysLseek, Outlet::Value)
            } else {
                Plan::Fixed(Err(Errno::EINVAL))
            },
            SyscallRequest::Mkdirat { pathname, .. } => {
                Plan::calls_on_path(Handler::SysMkdirat, pathname, Outlet::Value)
            },
            SyscallRequest::Chdir { pathname } => Plan::Call {
                handler: Handler::SysChdir,
                intake: Intake::Path { ptr: pathname, fault: Errno::EINVAL },
                buffer: 0,
                outlet: Outlet::Value,
            },
            SyscallRequest::RtSigprocmask { .. } => {
                Plan::calls(Handler::SysRtSigprocmask, Outlet::Value)
            },
            SyscallRequest::RtSigaction { .. } => {
                Plan::calls(Handler::SysRtSigaction, Outlet::Value)
            },
            SyscallRequest::RtSigreturn => Plan::calls(Handler::SysRtSigreturn, Outlet::Value),
            SyscallRequest::Ioctl { .. } => Plan::calls(Handler::SysIoctl, Outlet::Value),
            SyscallRequest::Pread64 { fd, buf, count, offset } => {
                Plan::Pread { fd, buf, count, offset }
            },
            SyscallRequest::Pwrite64 { buf, count, .. } => {
                Plan::calls_on_bytes(Handler::SysPwrite64, buf, count)
            },
            SyscallRequest::Sendfile { .. } => Plan::calls(Handler::SysSendfile, Outlet::Value),
            SyscallRequest::Mmap { .. } => Plan::calls(Handler::SysMmap, Outlet::Value),
            SyscallRequest::Mprotect { .. } => Plan::calls(Handler::SysMprotect, Outlet::Value),
            SyscallRequest::Mremap { .. } => Plan::calls(Handler::SysMremap, Outlet::Value),
            SyscallRequest::Munmap { .. } => Plan::calls(Handler::SysMunmap, Outlet::Value),
            SyscallRequest::Brk { .. } => Plan::calls(Handler::SysBrk, Outlet::Value),
            SyscallRequest::Readv { .. } => Plan::calls(Handler::SysReadv, Outlet::Value),
            SyscallRequest::Writev { .. } => Plan::calls(Handler::SysWritev, Outlet::Value),
            SyscallRequest::Preadv { pos_l, pos_h, .. } => Plan::Call {
                handler: Handler::SysPreadv,
                intake: Intake::Offset(offset_of(pos_l, pos_h)),
                buffer: 0,
                outlet: Outlet::Value,
            },
            SyscallRequest::Pwritev { pos_l, pos_h, .. } => Plan::Call {
                handler: Handler::SysPwritev,
                intake: Intake::Offset(offset_of(pos_l, pos_h)),
                buffer: 0,
                outlet: Outlet::Value,
            },
            SyscallRequest::Faccessat { pathname, .. } => {
                Plan::calls_on_path(Handler::SysFaccessat, pathname, Outlet::Value)
            },
            SyscallRequest::Madvise { .. } => Plan::calls(Handler::SysMadvise, Outlet::Value),
            SyscallRequest::Dup { .. } => Plan::calls(Handler::SysDup, Outlet::Value),
            SyscallRequest::Socket { .. } => Plan::calls(Handler::SysSocket, Outlet::Value),
            SyscallRequest::Socketpair { .. } => {
                Plan::calls(Handler::SysSocketpair, Outlet::Value)
            },
            SyscallRequest::Connect { .. } => Plan::calls(Handler::SysConnect, Outlet::Value),
            SyscallRequest::Accept { .. } => Plan::calls(Handler::SysAccept, Outlet::Value),
            SyscallRequest::Sendto { .. } => Plan::calls(Handler::SysSendto, Outlet::Value),
            SyscallRequest::Sendmsg { .. } => Plan::calls(Handler::SysSendmsg, Outlet::Value),
            SyscallRequest::Sendmmsg { .. } => Plan::calls(Handler::SysSendmmsg, Outlet::Value),
            SyscallRequest::Recvfrom { .. } => Plan::calls(Handler::SysRecvfrom, Outlet::Value),
            SyscallRequest::Recvmsg { .. } => Plan::calls(Handler::SysRecvmsg, Outlet::Value),
            SyscallRequest::Recvmmsg { .. } => Plan::calls(Handler::SysRecvmmsg, Outlet::Value),
            SyscallRequest::Shutdown { .. } => Plan::calls(Handler::SysShutdown, Outlet::Value),
            SyscallRequest::Bind { .. } => Plan::calls(Handler::SysBind, Outlet::Value),
            SyscallRequest::Listen { .. } => Plan::calls(Handler::SysListen, Outlet::Value),
            SyscallRequest::Setsockopt { .. } => {
                Plan::calls(Handler::SysSetsockopt, Outlet::Value)
            },
            SyscallRequest::Getsockopt { .. } => {
                Plan::calls(Handler::SysGetsockopt, Outlet::Value)
            },
            SyscallRequest::Getsockname { .. } => {
                Plan::calls(Handler::SysGetsockname, Outlet::Value)
            },
            SyscallRequest::Getpeername { .. } => {
                Plan::calls(Handler::SysGetpeername, Outlet::Value)
            },
            SyscallRequest::Uname { .. } => Plan::calls(Handler::SysUname, Outlet::Value),
            SyscallRequest::Fcntl { .. } => Plan::calls(Handler::SysFcntl, Outlet::Value),
            SyscallRequest::Getcwd { buf, size } => Plan::Call {
                handler: Handler::SysGetcwd,
                intake: Intake::Nothing,
                buffer: small_spec(size),
                outlet: Outlet::Bytes { ptr: buf },
            },
            SyscallRequest::EpollCtl { .. } => Plan::calls(Handler::SysEpollCtl, Outlet::Value),
            SyscallRequest::EpollCreate { size, .. } => if size > 0 {
                Plan::calls(Handler::SysEpollCreate, Outlet::Value)
            } else {
                Plan::Fixed(Err(Errno::EINVAL))
            },
            SyscallRequest::EpollPwait { .. } => {
                Plan::calls(Handler::SysEpollPwait, Outlet::Value)
            },
            SyscallRequest::Prctl { .. } => Plan::calls(Handler::SysPrctl, Outlet::Value),
            SyscallRequest::ArchPrctl { .. } => Plan::calls(Handler::SysArchPrctl, Outlet::Value),
            SyscallRequest::Readlink { pathname, buf, bufsiz } => Plan::Call {
                handler: Handler::SysReadlink,
                intake: Intake::Path { ptr: pathname, fault: Errno::EFAULT },
                buffer: small_spec(bufsiz),
                outlet: Outlet::Bytes { ptr: buf },
            },
            SyscallRequest::Ppoll { .. } => Plan::calls(Handler::SysPpoll, Outlet::Value),
            SyscallRequest::Pselect { .. } => Plan::calls(Handler::SysPselect, Outlet::Value),
            SyscallRequest::Readlinkat { pathname, buf, bufsiz, .. } => Plan::Call {
                handler: Handler::SysReadlinkat,
                intake: Intake::Path { ptr: pathname, fault: Errno::EFAULT },
                buffer: small_spec(bufsiz),
                outlet: Outlet::Bytes { ptr: buf },
            },
            SyscallRequest::Gettimeofday { .. } => {
                Plan::calls(Handler::SysGettimeofday, Outlet::Value)
            },
            SyscallRequest::ClockGettime { clock, .. } => if clock is Some {
                Plan::calls(Handler::SysClockGettime, Outlet::Value)
            } else {
                Plan::Fixed(Err(Errno::EINVAL))
            },
            SyscallRequest::ClockGetres { clock, .. } => if clock is Some {
                Plan::calls(Handler::SysClockGetres, Outlet::Value)
            } else {
                Plan::Fixed(Err(Errno::EINVAL))
            },
            SyscallRequest::ClockNanosleep { clock, .. } => if clock is Some {
                Plan::calls(Handler::SysClockNanosleep, Outlet::Value)
            } else {
                Plan::Fixed(Err(Errno::EINVAL))
            },
            SyscallRequest::Time { .. } => Plan::calls(Handler::SysTime, Outlet::Seconds),
            SyscallRequest::Openat { pathname, .. } => {
                Plan::calls_on_path(Handler::SysOpenat, pathname, Outlet::Value)
            },
            SyscallRequest::Ftruncate { .. } => Plan::calls(Handler::SysFtruncate, Outlet::Value),
            SyscallRequest::Mknodat { pathname, .. } => {
                Plan::calls_on_path(Handler::SysMknodat, pathname, Outlet::Value)
            },
            SyscallRequest::Unlinkat { pathname, .. } => {
                Plan::calls_on_path(Handler::SysUnlinkat, pathname, Outlet::Value)
            },
            SyscallRequest::Stat { pathname, buf } => {
                Plan::calls_on_path(Handler::SysStat, pathname, Outlet::Record { ptr: buf })
            },
            SyscallRequest::Lstat { pathname, buf } => {
                Plan::calls_on_path(Handler::SysLstat, pathname, Outlet::Record { ptr: buf })
            },
            SyscallRequest::Fstat { buf, .. } => {
                Plan::calls(Handler::SysFstat, Outlet::Record { ptr: buf })
            },
            SyscallRequest::Newfstatat { pathname, buf, .. } => {
                Plan::calls_on_path(Handler::SysNewfstatat, pathname, Outlet::Record { ptr: buf })
            },
            SyscallRequest::Statx { pathname, flags, statxbuf, .. } => match pathname {
                None => Plan::Call {
                    handler: Handler::SysStatx,
                    intake: Intake::EmptyPath { flags: flags | AT_EMPTY_PATH },
                    buffer: 0,
                    outlet: Outlet::Record { ptr: statxbuf },
                },
                Some(ptr) => {
                    Plan::calls_on_path(Handler::SysStatx, ptr, Outlet::Record { ptr: statxbuf })
                },
            },
            SyscallRequest::Eventfd2 { .. } => Plan::calls(Handler::SysEventfd2, Outlet::Value),
            SyscallRequest::Pipe2 { pipefd, .. } => {
                Plan::calls(Handler::SysPipe2, Outlet::Pair { ptr: pipefd })
            },
            SyscallRequest::Clone { .. } => Plan::calls(Handler::SysClone, Outlet::Value),
            SyscallRequest::Clone3 { .. } => Plan::calls(Handler::SysClone3, Outlet::Value),
            SyscallRequest::SetThreadArea { .. } => Plan::Fixed(Err(Errno::ENOSYS)),
            SyscallRequest::SetTidAddress { .. } => {
                Plan::calls(Handler::SysSetTidAddress, Outlet::Int)
            },
            SyscallRequest::Gettid => Plan::calls(Handler::SysGettid, Outlet::Int),
            SyscallRequest::Getrlimit { .. } => Plan::calls(Handler::SysGetrlimit, Outlet::Value),
            SyscallRequest::Setrlimit { .. } => Plan::calls(Handler::SysSetrlimit, Outlet::Value),
            SyscallRequest::Prlimit { .. } => Plan::calls(Handler::SysPrlimit, Outlet::Value),
            SyscallRequest::SetRobustList { .. } => {
                Plan::calls(Handler::SysSetRobustList, Outlet::Nothing)
            },
            SyscallRequest::GetRobustList { len, .. } => {
                Plan::calls(Handler::SysGetRobustList, Outlet::ListLength { ptr: len })
            },
            SyscallRequest::GetRandom { .. } => Plan::calls(Handler::SysGetrandom, Outlet::Value),
            SyscallRequest::Getpid => Plan::calls(Handler::SysGetpid, Outlet::Int),
            SyscallRequest::Getppid => Plan::calls(Handler::SysGetppid, Outlet::Int),
            SyscallRequest::Getuid => Plan::calls(Handler::SysGetuid, Outlet::Value),
            SyscallRequest::Getgid => Plan::calls(Handler::SysGetgid, Outlet::Value),
            SyscallRequest::Geteuid => Plan::calls(Handler::SysGeteuid, Outlet::Value),
            SyscallRequest::Getegid => Plan::calls(Handler::SysGetegid, Outlet::Value),
            SyscallRequest::Sysinfo { buf } => {
                Plan::calls(Handler::SysSysinfo, Outlet::Record { ptr: buf })
            },
            SyscallRequest::CapGet { .. } => Plan::calls(Handler::SysCapget, Outlet::Value),
            SyscallRequest::GetDirent64 { .. } => {
                Plan::calls(Handler::SysGetdirent64, Outlet::Value)
            },
            SyscallRequest::SchedGetAffinity { len, mask, .. } => {
                Plan::calls(Handler::SysSchedGetaffinity, Outlet::CpuSet { len, ptr: mask })
            },
            SyscallRequest::SchedYield => Plan::Fixed(Ok(0)),
            SyscallRequest::Futex { .. } => Plan::calls(Handler::SysFutex, Outlet::Value),
            SyscallRequest::Umask { .. } => Plan::calls(Handler::SysUmask, Outlet::Value),
            SyscallRequest::Kill { .. } => Plan::calls(Handler::SysKill, Outlet::Value),
            SyscallRequest::Tkill { .. } => Plan::calls(Handler::SysTkill, Outlet::Value),
            SyscallRequest::Tgkill { .. } => Plan::calls(Handler::SysTgkill, Outlet::Value),
            SyscallRequest::Sigaltstack { .. } => {
                Plan::calls(Handler::SysSigaltstack, Outlet::Value)
            },
            SyscallRequest::Alarm { .. } => Plan::calls(Handler::SysAlarm, Outlet::Value),
            SyscallRequest::Pause => Plan::calls(Handler::SysPause, Outlet::Value),
            SyscallRequest::GetITimer { .. } => Plan::calls(Handler::SysGetitimer, Outlet::Value),
            SyscallRequest::SetITimer { .. } => Plan::calls(Handler::SysSetitimer, Outlet::Value),
            SyscallRequest::Unsupported => Plan::Fixed(Err(Errno::ENOSYS)),
        }
    }

    /// How the request is carried out.
    pub fn plan(self) -> (plan: Plan)
        ensures
            plan == self.planned(),
    {
        match self {
            SyscallRequest::Exit { .. } => Plan::call(Handler::SysExit, Outlet::Nothing),
            SyscallRequest::ExitGroup { .. } => {
                Plan::call(Handler::SysExitGroup, Outlet::Nothing)
            },
            SyscallRequest::Execve { .. } => Plan::call(Handler::SysExecve, Outlet::Value),
            SyscallRequest::Read { fd, buf, count } => if count <= MAX_KERNEL_BUF_SIZE {
                Plan::Call {
                    handler: Handler::SysRead,
                    intake: Intake::Nothing,
                    buffer: count,
                    outlet: Outlet::Bytes { ptr: buf },
                }
            } else {
                Plan::LargeRead { fd, buf, count }
            },
            SyscallRequest::Write { buf, count, .. } => {
                Plan::call_on_bytes(Handler::SysWrite, buf, count)
            },
            SyscallRequest::Close { .. } => Plan::call(Handler::SysClose, Outlet::Value),
            SyscallRequest::Lseek { whence, .. } => if whence.is_some() {
                Plan::call(Handler::SysLseek, Outlet::Value)
            } else {
                Plan::Fixed(Err(Errno::EINVAL))
            },
            SyscallRequest::Mkdirat { pathname, .. } => {
                Plan::call_on_path(Handler::SysMkdirat, pathname, Outlet::Value)
            },
            SyscallRequest::Chdir { pathname } => Plan::Call {
                handler: Handler::SysChdir,
                intake: Intake::Path { ptr: pathname, fault: Errno::EINVAL },
                buffer: 0,
                outlet: Outlet::Value,
            },
            SyscallRequest::RtSigprocmask { .. } => {
                Plan::call(Handler::SysRtSigprocmask, Outlet::Value)
            },
            SyscallRequest::RtSigaction { .. } => {
                Plan::call(Handler::SysRtSigaction, Outlet::Value)
            },
            SyscallRequest::RtSigreturn => Plan::call(Handler::SysRtSigreturn, Outlet::Value),
            SyscallRequest::Ioctl { .. } => Plan::call(Handler::SysIoctl, Outlet::Value),
            SyscallRequest::Pread64 { fd, buf, count, offset } => {
                Plan::Pread { fd, buf, count, offset }
            },
            SyscallRequest::Pwrite64 { buf, count, .. } => {
                Plan::call_on_bytes(Handler::SysPwrite64, buf, count)
            },
            SyscallRequest::Sendfile { .. } => Plan::call(Handler::SysSendfile, Outlet::Value),
            SyscallRequest::Mmap { .. } => Plan::call(Handler::SysMmap, Outlet::Value),
            SyscallRequest::Mprotect { .. } => Plan::call(Handler::SysMprotect, Outlet::Value),
            SyscallRequest::Mremap { .. } => Plan::call(Handler::SysMremap, Outlet::Value),
            SyscallRequest::Munmap { .. } => Plan::call(Handler::SysMunmap, Outlet::Value),
            SyscallRequest::Brk { .. } => Plan::call(Handler::SysBrk, Outlet::Value),
            SyscallRequest::Readv { .. } => Plan::call(Handler::SysReadv, Outlet::Value),
            SyscallRequest::Writev { .. } => Plan::call(Handler::SysWritev, Outlet::Value),
            SyscallRequest::Preadv { pos_l, pos_h, .. } => Plan::Call {
                handler: Handler::SysPreadv,
                intake: Intake::Offset(preadv_pwritev_offset(pos_l, pos_h)),
                buffer: 0,
                outlet: Outlet::Value,
            },
            SyscallRequest::Pwritev { pos_l, pos_h, .. } => Plan::Call {
                handler: Handler::SysPwritev,
                intake: Intake::Offset(preadv_pwritev_offset(pos_l, pos_h)),
                buffer: 0,
                outlet: Outlet::Value,
            },
            SyscallRequest::Faccessat { pathname, .. } => {
                Plan::call_on_path(Handler::SysFaccessat, pathname, Outlet::Value)
            },
            SyscallRequest::Madvise { .. } => Plan::call(Handler::SysMadvise, Outlet::Value),
            SyscallRequest::Dup { .. } => Plan::call(Handler::SysDup, Outlet::Value),
            SyscallRequest::Socket { .. } => Plan::call(Handler::SysSocket, Outlet::Value),
            SyscallRequest::Socketpair { .. } => {
                Plan::call(Handler::SysSocketpair, Outlet::Value)
            },
            SyscallRequest::Connect { .. } => Plan::call(Handler::SysConnect, Outlet::Value),
            SyscallRequest::Accept { .. } => Plan::call(Handler::SysAccept, Outlet::Value),
            SyscallRequest::Sendto { .. } => Plan::call(Handler::SysSendto, Outlet::Value),
            SyscallRequest::Sendmsg { .. } => Plan::call(Handler::SysSendmsg, Outlet::Value),
            SyscallRequest::Sendmmsg { .. } => Plan::call(Handler::SysSendmmsg, Outlet::Value),
            SyscallRequest::Recvfrom { .. } => Plan::call(Handler::SysRecvfrom, Outlet::Value),
            SyscallRequest::Recvmsg { .. } => Plan::call(Handler::SysRecvmsg, Outlet::Value),
            SyscallRequest::Recvmmsg { .. } => Plan::call(Handler::SysRecvmmsg, Outlet::Value),
            SyscallRequest::Shutdown { .. } => Plan::call(Handler::SysShutdown, Outlet::Value),
            SyscallRequest::Bind { .. } => Plan::call(Handler::SysBind, Outlet::Value),
            SyscallRequest::Listen { .. } => Plan::call(Handler::SysListen, Outlet::Value),
            SyscallRequest::Setsockopt { .. } => {
                Plan::call(Handler::SysSetsockopt, Outlet::Value)
            },
            SyscallRequest::Getsockopt { .. } => {
                Plan::call(Handler::SysGetsockopt, Outlet::Value)
            },
            SyscallRequest::Getsockname { .. } => {
                Plan::call(Handler::SysGetsockname, Outlet::Value)
            },
            SyscallRequest::Getpeername { .. } => {
                Plan::call(Handler::SysGetpeername, Outlet::Value)
            },
            SyscallRequest::Uname { .. } => Plan::call(Handler::SysUname, Outlet::Value),
            SyscallRequest::Fcntl { .. } => Plan::call(Handler::SysFcntl, Outlet::Value),
            SyscallRequest::Getcwd { buf, size } => Plan::Call {
                handler: Handler::SysGetcwd,
                intake: Intake::Nothing,
                buffer: small(size),
                outlet: Outlet::Bytes { ptr: buf },
            },
            SyscallRequest::EpollCtl { .. } => Plan::call(Handler::SysEpollCtl, Outlet::Value),
            SyscallRequest::EpollCreate { size, .. } => if size > 0 {
                Plan::call(Handler::SysEpollCreate, Outlet::Value)
            } else {
                Plan::Fixed(Err(Errno::EINVAL))
            },
            SyscallRequest::EpollPwait { .. } => {
                Plan::call(Handler::SysEpollPwait, Outlet::Value)
            },
            SyscallRequest::Prctl { .. } => Plan::call(Handler::SysPrctl, Outlet::Value),
            SyscallRequest::ArchPrctl { .. } => Plan::call(Handler::SysArchPrctl, Outlet::Value),
            SyscallRequest::Readlink { pathname, buf, bufsiz } => Plan::Call {
                handler: Handler::SysReadlink,
                intake: Intake::Path { ptr: pathname, fault: Errno::EFAULT },
                buffer: small(bufsiz),
                outlet: Outlet::Bytes { ptr: buf },
            },
            SyscallRequest::Ppoll { .. } => Plan::call(Handler::SysPpoll, Outlet::Value),
            SyscallRequest::Pselect { .. } => Plan::call(Handler::SysPselect, Outlet::Value),
            SyscallRequest::Readlinkat { pathname, buf, bufsiz, .. } => Plan::Call {
                handler: Handler::SysReadlinkat,
                intake: Intake::Path { ptr: pathname, fault: Errno::EFAULT },
                buffer: small(bufsiz),
                outlet: Outlet::Bytes { ptr: buf },
            },
            SyscallRequest::Gettimeofday { .. } => {
                Plan::call(Handler::SysGettimeofday, Outlet::Value)
            },
            SyscallRequest::ClockGettime { clock, .. } => if clock.is_some() {
                Plan::call(Handler::SysClockGettime, Outlet::Value)
            } else {
                Plan::Fixed(Err(Errno::EINVAL))
            },
            SyscallRequest::ClockGetres { clock, .. } => if clock.is_some() {
                Plan::call(Handler::SysClockGetres, Outlet::Value)
            } else {
                Plan::Fixed(Err(Errno::EINVAL))
            },
            SyscallRequest::ClockNanosleep { clock, .. } => if clock.is_some() {
                Plan::call(Handler::SysClockNanosleep, Outlet::Value)
            } else {
                Plan::Fixed(Err(Errno::EINVAL))
            },
            SyscallRequest::Time { .. } => Plan::call(Handler::SysTime, Outlet::Seconds),
            SyscallRequest::Openat { pathname, .. } => {
                Plan::call_on_path(Handler::SysOpenat, pathname, Outlet::Value)
            },
            SyscallRequest::Ftruncate { .. } => Plan::call(Handler::SysFtruncate, Outlet::Value),
            SyscallRequest::Mknodat { pathname, .. } => {
                Plan::call_on_path(Handler::SysMknodat, pathname, Outlet::Value)
            },
            SyscallRequest::Unlinkat { pathname, .. } => {
                Plan::call_on_path(Handler::SysUnlinkat, pathname, Outlet::Value)
            },
            SyscallRequest::Stat { pathname, buf } => {
                Plan::call_on_path(Handler::SysStat, pathname, Outlet::Record { ptr: buf })
            },
            SyscallRequest::Lstat { pathname, buf } => {
                Plan::call_on_path(Handler::SysLstat, pathname, Outlet::Record { ptr: buf })
            },
            SyscallRequest::Fstat { buf, .. } => {
                Plan::call(Handler::SysFstat, Outlet::Record { ptr: buf })
            },
            SyscallRequest::Newfstatat { pathname, buf, .. } => {
                Plan::call_on_path(Handler::SysNewfstatat, pathname, Outlet::Record { ptr: buf })
            },
            SyscallRequest::Statx { pathname, flags, statxbuf, .. } => match pathname {
                None => Plan::Call {
                    handler: Handler::SysStatx,
                    intake: Intake::EmptyPath { flags: flags | AT_EMPTY_PATH },
                    buffer: 0,
                    outlet: Outlet::Record { ptr: statxbuf },
                },
                Some(ptr) => {
                    Plan::call_on_path(Handler::SysStatx, ptr, Outlet::Record { ptr: statxbuf })
                },
            },
            SyscallRequest::Eventfd2 { .. } => Plan::call(Handler::SysEventfd2, Outlet::Value),
            SyscallRequest::Pipe2 { pipefd, .. } => {
                Plan::call(Handler::SysPipe2, Outlet::Pair { ptr: pipefd })
            },
            SyscallRequest::Clone { .. } => Plan::call(Handler::SysClone, Outlet::Value),
            SyscallRequest::Clone3 { .. } => Plan::call(Handler::SysClone3, Outlet::Value),
            SyscallRequest::SetThreadArea { .. } => Plan::Fixed(Err(Errno::ENOSYS)),
            SyscallRequest::SetTidAddress { .. } => {
                Plan::call(Handler::SysSetTidAddress, Outlet::Int)
            },
            SyscallRequest::Gettid => Plan::call(Handler::SysGettid, Outlet::Int),
            SyscallRequest::Getrlimit { .. } => Plan::call(Handler::SysGetrlimit, Outlet::Value),
            SyscallRequest::Setrlimit { .. } => Plan::call(Handler::SysSetrlimit, Outlet::Value),
            SyscallRequest::Prlimit { .. } => Plan::call(Handler::SysPrlimit, Outlet::Value),
            SyscallRequest::SetRobustList { .. } => {
                Plan::call(Handler::SysSetRobustList, Outlet::Nothing)
            },
            SyscallRequest::GetRobustList { len, .. } => {
                Plan::call(Handler::SysGetRobustList, Outlet::ListLength { ptr: len })
            },
            SyscallRequest::GetRandom { .. } => Plan::call(Handler::SysGetrandom, Outlet::Value),
            SyscallRequest::Getpid => Plan::call(Handler::SysGetpid, Outlet::Int),
            SyscallRequest::Getppid => Plan::call(Handler::SysGetppid, Outlet::Int),
            SyscallRequest::Getuid => Plan::call(Handler::SysGetuid, Outlet::Value),
            SyscallRequest::Getgid => Plan::call(Handler::SysGetgid, Outlet::Value),
            SyscallRequest::Geteuid => Plan::call(Handler::SysGeteuid, Outlet::Value),
            SyscallRequest::Getegid => Plan::call(Handler::SysGetegid, Outlet::Value),
            SyscallRequest::Sysinfo { buf } => {
                Plan::call(Handler::SysSysinfo, Outlet::Record { ptr: buf })
            },
            SyscallRequest::CapGet { .. } => Plan::call(Handler::SysCapget, Outlet::Value),
            SyscallRequest::GetDirent64 { .. } => {
                Plan::call(Handler::SysGetdirent64, Outlet::Value)
            },
            SyscallRequest::SchedGetAffinity { len, mask, .. } => {
                Plan::call(Handler::SysSchedGetaffinity, Outlet::CpuSet { len, ptr: mask })
            },
            SyscallRequest::SchedYield => Plan::Fixed(Ok(0)),
            SyscallRequest::Futex { .. } => Plan::call(Handler::SysFutex, Outlet::Value),
            SyscallRequest::Umask { .. } => Plan::call(Handler::SysUmask, Outlet::Value),
            SyscallRequest::Kill { .. } => Plan::call(Handler::SysKill, Outlet::Value),
            SyscallRequest::Tkill { .. } => Plan::call(Handler::SysTkill, Outlet::Value),
            SyscallRequest::Tgkill { .. } => Plan::call(Handler::SysTgkill, Outlet::Value),
            SyscallRequest::Sigaltstack { .. } => {
                Plan::call(Handler::SysSigaltstack, Outlet::Value)
            },
            SyscallRequest::Alarm { .. } => Plan::call(Handler::SysAlarm, Outlet::Value),
            SyscallRequest::Pause => Plan::call(Handler::SysPause, Outlet::Value),
            SyscallRequest::GetITimer { .. } => Plan::call(Handler::SysGetitimer, Outlet::Value),
            SyscallRequest::SetITimer { .. } => Plan::call(Handler::SysSetitimer, Outlet::Value),
            SyscallRequest::Unsupported => Plan::Fixed(Err(Errno::ENOSYS)),
        }
    }
}

/// Only whole requests ask for a buffer, and none for more than the kernel
/// sets aside.
pub proof fn buffers_are_small(request: SyscallRequest)
    ensures
        request.planned() matches Plan::Call { buffer, .. } ==> buffer <= MAX_KERNEL_BUF_SIZE,
{
}

} // verus!
