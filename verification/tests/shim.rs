//! The shim: requests of a guest, how they are carried out, and processes.

use litebox::errno::Errno;
use litebox::flags::Arch;
use litebox::shim::chunked::{ChunkReader, ReadAction, ReadEvent, ReadFailure};
use litebox::shim::dispatch::{
    handle_syscall_request, to_syscall_result, Dispatcher, Parcel, SyscallAction, SyscallEvent,
    Value,
};
use litebox::shim::entry::{
    ContinueOperation, EntryAction, EntryEvent, EntryReason, LinuxShimEntrypoints,
    DATA_ABORT_CURRENT_EL, INSTRUCTION_ABORT_CURRENT_EL, PAGE_FAULT,
};
use litebox::shim::process::{
    close_on_exec, raw_descriptor, stdio_entries, typed_fd, ExitStatus, LinuxShimProcess,
    LoadAction, LoadFault, OpenDescriptor, Owners, ProgramLoader, StdioStream, Subsystem,
    TaskParams,
};
use litebox::shim::requests::{
    preadv_pwritev_offset, preadv_pwritev_offset_32, small, ClockId, Handler, Intake, Outlet, Plan,
    SyscallRequest, Whence, AT_EMPTY_PATH, MAX_KERNEL_BUF_SIZE,
};

/// Carries out a request: memory of the guest can be read or not, the function
/// returns the value, memory can be written or not. Returns the actions.
fn carry_out(
    request: SyscallRequest,
    readable: bool,
    value: Result<Value, Errno>,
    writable: bool,
) -> Vec<SyscallAction> {
    let first = Dispatcher::do_syscall(Ok(request));
    let mut dispatcher = first.dispatcher;
    let mut actions = vec![first.action];
    loop {
        let event = match actions[actions.len() - 1] {
            SyscallAction::TakePath { .. } | SyscallAction::TakeBytes { .. } => {
                SyscallEvent::Taken(readable)
            }
            SyscallAction::Call { .. } => SyscallEvent::Returned(value),
            SyscallAction::Put { .. } => SyscallEvent::Put(writable),
            SyscallAction::Read(_) => panic!("no file is read"),
            SyscallAction::Finish(_) | SyscallAction::Fatal(_) => return actions,
        };
        assert!(dispatcher.is_answered_by(event));
        actions.push(dispatcher.step(event));
    }
}

fn result(
    request: SyscallRequest,
    readable: bool,
    value: Result<Value, Errno>,
    writable: bool,
) -> Result<usize, Errno> {
    match carry_out(request, readable, value, writable).pop() {
        Some(SyscallAction::Finish(r)) => r,
        _ => panic!("the request did not finish"),
    }
}

#[test]
fn plain_requests_return_the_value_of_their_function() {
    let close = SyscallRequest::Close { fd: 3 };
    assert_eq!(
        carry_out(close, true, Ok(Value::Unit), true),
        vec![
            SyscallAction::Call {
                request: close,
                handler: Handler::SysClose,
                intake: Intake::Nothing,
                buffer: 0
            },
            SyscallAction::Finish(Ok(0)),
        ]
    );
    assert_eq!(
        result(close, true, Err(Errno::EBADF), true),
        Err(Errno::EBADF)
    );
    let brk = SyscallRequest::Brk { addr: 0 };
    assert_eq!(result(brk, true, Ok(Value::Size(77)), true), Ok(77));
    assert_eq!(
        result(SyscallRequest::Getuid, true, Ok(Value::Word(1000)), true),
        Ok(1000)
    );
    assert_eq!(to_syscall_result(Value::Unit), 0);
    assert_eq!(to_syscall_result(Value::Word(u32::MAX)), 0xffff_ffff);
}

#[test]
fn fixed_results_need_no_function() {
    for (request, expected) in [
        (SyscallRequest::SchedYield, Ok(0)),
        (SyscallRequest::Unsupported, Err(Errno::ENOSYS)),
        (
            SyscallRequest::SetThreadArea { user_desc: 1 },
            Err(Errno::ENOSYS),
        ),
        (
            SyscallRequest::Lseek {
                fd: 0,
                offset: 0,
                whence: None,
            },
            Err(Errno::EINVAL),
        ),
        (
            SyscallRequest::ClockGettime { clock: None, tp: 0 },
            Err(Errno::EINVAL),
        ),
        (
            SyscallRequest::ClockGetres {
                clock: None,
                res: 0,
            },
            Err(Errno::EINVAL),
        ),
        (
            SyscallRequest::ClockNanosleep {
                clock: None,
                flags: 0,
                request: 0,
                remain: 0,
            },
            Err(Errno::EINVAL),
        ),
        (
            SyscallRequest::EpollCreate { size: 0, flags: 0 },
            Err(Errno::EINVAL),
        ),
    ] {
        let first = Dispatcher::do_syscall(Ok(request));
        assert_eq!(first.action, SyscallAction::Finish(expected));
    }
    assert_eq!(
        Dispatcher::do_syscall(Err(Errno::EFAULT)).action,
        SyscallAction::Finish(Err(Errno::EFAULT))
    );
    assert_eq!(
        SyscallRequest::Lseek {
            fd: 0,
            offset: -1,
            whence: Some(Whence::Current)
        }
        .plan(),
        Plan::call(Handler::SysLseek, Outlet::Value)
    );
    assert_eq!(
        SyscallRequest::ClockGetres {
            clock: Some(ClockId::Monotonic),
            res: 0
        }
        .plan(),
        Plan::call(Handler::SysClockGetres, Outlet::Value)
    );
}

#[test]
fn paths_and_bytes_are_taken_first() {
    let open = SyscallRequest::Openat {
        dirfd: -100,
        pathname: 0x10,
        flags: 0,
        mode: 0,
    };
    assert_eq!(
        carry_out(open, true, Ok(Value::Word(3)), true),
        vec![
            SyscallAction::TakePath { ptr: 0x10 },
            SyscallAction::Call {
                request: open,
                handler: Handler::SysOpenat,
                intake: Intake::Path {
                    ptr: 0x10,
                    fault: Errno::EFAULT
                },
                buffer: 0
            },
            SyscallAction::Finish(Ok(3)),
        ]
    );
    assert_eq!(
        result(open, false, Ok(Value::Word(3)), true),
        Err(Errno::EFAULT)
    );
    let chdir = SyscallRequest::Chdir { pathname: 0x10 };
    assert_eq!(
        result(chdir, false, Ok(Value::Unit), true),
        Err(Errno::EINVAL)
    );
    let write = SyscallRequest::Write {
        fd: 1,
        buf: 0x20,
        count: 5,
    };
    assert_eq!(
        carry_out(write, true, Ok(Value::Size(4)), true)[0],
        SyscallAction::TakeBytes { ptr: 0x20, len: 5 }
    );
    assert_eq!(result(write, true, Ok(Value::Size(4)), true), Ok(4));
    assert_eq!(
        result(write, false, Ok(Value::Size(4)), true),
        Err(Errno::EFAULT)
    );
}

#[test]
fn small_reads_go_through_one_buffer() {
    let read = SyscallRequest::Read {
        fd: 0,
        buf: 0x40,
        count: MAX_KERNEL_BUF_SIZE,
    };
    assert_eq!(
        carry_out(read, true, Ok(Value::Filled(9)), true),
        vec![
            SyscallAction::Call {
                request: read,
                handler: Handler::SysRead,
                intake: Intake::Nothing,
                buffer: MAX_KERNEL_BUF_SIZE
            },
            SyscallAction::Put {
                ptr: 0x40,
                parcel: Parcel::Bytes { len: 9 }
            },
            SyscallAction::Finish(Ok(9)),
        ]
    );
    assert_eq!(
        result(read, true, Ok(Value::Filled(9)), false),
        Err(Errno::EFAULT)
    );
    let dispatcher = Dispatcher::do_syscall(Ok(SyscallRequest::Getcwd { buf: 1, size: 4 }));
    let too_many = SyscallEvent::Returned(Ok(Value::Filled(5)));
    assert!(!dispatcher.dispatcher.is_answered_by(too_many));
    assert!(!dispatcher
        .dispatcher
        .is_answered_by(SyscallEvent::Taken(true)));
    assert_eq!(small(5), 5);
    assert_eq!(small(usize::MAX), MAX_KERNEL_BUF_SIZE);
}

#[test]
fn records_and_descriptors_are_written() {
    let fstat = SyscallRequest::Fstat { fd: 0, buf: 0x50 };
    assert_eq!(
        carry_out(fstat, true, Ok(Value::Record), true)[1],
        SyscallAction::Put {
            ptr: 0x50,
            parcel: Parcel::Record
        }
    );
    assert_eq!(result(fstat, true, Ok(Value::Record), true), Ok(0));
    let pipe = SyscallRequest::Pipe2 {
        pipefd: 0x60,
        flags: 0,
    };
    let actions = carry_out(pipe, true, Ok(Value::Pair), true);
    assert_eq!(
        actions[1..],
        [
            SyscallAction::Put {
                ptr: 0x60,
                parcel: Parcel::First
            },
            SyscallAction::Put {
                ptr: 0x60,
                parcel: Parcel::Second
            },
            SyscallAction::Finish(Ok(0)),
        ]
    );
    assert_eq!(
        carry_out(pipe, true, Ok(Value::Pair), false)[2],
        SyscallAction::Finish(Err(Errno::EFAULT))
    );
    let list = SyscallRequest::GetRobustList {
        pid: None,
        head: 0,
        len: 0x70,
    };
    assert_eq!(
        carry_out(list, true, Ok(Value::Unit), true)[1],
        SyscallAction::Put {
            ptr: 0x70,
            parcel: Parcel::ListLength
        }
    );
}

#[test]
fn processor_sets_need_room() {
    let ask = |len| SyscallRequest::SchedGetAffinity {
        pid: None,
        len,
        mask: 0x80,
    };
    let set = Ok(Value::CpuSet { bits: 65, bytes: 9 });
    assert_eq!(result(ask(8), true, set, true), Err(Errno::EINVAL));
    assert_eq!(result(ask(9), true, set, true), Err(Errno::EINVAL));
    assert_eq!(result(ask(16), true, set, true), Ok(9));
    assert_eq!(result(ask(1 << 61), true, set, true), Err(Errno::EINVAL));
    assert_eq!(
        carry_out(ask(16), true, set, true)[1],
        SyscallAction::Put {
            ptr: 0x80,
            parcel: Parcel::CpuSet { len: 9 }
        }
    );
}

#[test]
fn numbers_keep_their_bits() {
    assert_eq!(
        result(SyscallRequest::Getpid, true, Ok(Value::Int(42)), true),
        Ok(42)
    );
    assert_eq!(
        result(SyscallRequest::Gettid, true, Ok(Value::Int(-1)), true),
        Ok(0xffff_ffff)
    );
    let time = SyscallRequest::Time { tloc: 0 };
    assert_eq!(result(time, true, Ok(Value::Seconds(7)), true), Ok(7));
    assert_eq!(
        result(time, true, Ok(Value::Seconds(-7)), true),
        Err(Errno::EOVERFLOW)
    );
}

#[test]
fn missing_paths_stand_for_descriptors() {
    let statx = |pathname| SyscallRequest::Statx {
        dirfd: 3,
        pathname,
        flags: 1,
        mask: 0,
        statxbuf: 0x90,
    };
    let actions = carry_out(statx(None), true, Ok(Value::Record), true);
    assert_eq!(
        actions[0],
        SyscallAction::Call {
            request: statx(None),
            handler: Handler::SysStatx,
            intake: Intake::EmptyPath {
                flags: 1 | AT_EMPTY_PATH
            },
            buffer: 0
        }
    );
    let actions = carry_out(statx(Some(4)), true, Ok(Value::Record), true);
    assert_eq!(actions[0], SyscallAction::TakePath { ptr: 4 });
}

#[test]
fn offsets_come_in_two_halves() {
    assert_eq!(preadv_pwritev_offset(5, 9), 5);
    assert_eq!(preadv_pwritev_offset(usize::MAX, 0), -1);
    assert_eq!(preadv_pwritev_offset_32(5, 1), 0x1_0000_0005);
    assert_eq!(preadv_pwritev_offset_32(u32::MAX, u32::MAX), -1);
    let preadv = SyscallRequest::Preadv {
        fd: 0,
        iovec: 0,
        iovcnt: 0,
        pos_l: 12,
        pos_h: 0,
    };
    assert_eq!(
        carry_out(preadv, true, Ok(Value::Size(1)), true)[0],
        SyscallAction::Call {
            request: preadv,
            handler: Handler::SysPreadv,
            intake: Intake::Offset(12),
            buffer: 0
        }
    );
}

#[test]
fn results_and_errors_share_a_register() {
    assert_eq!(handle_syscall_request(Ok(5)), 5);
    assert_eq!(
        handle_syscall_request(Err(Errno::ENOSYS)),
        (-38isize) as usize
    );
    assert_eq!(
        handle_syscall_request(Err(Errno::EPERM)),
        (-1isize) as usize
    );
    assert_eq!(handle_syscall_request(Err(Errno::Other(0))), 0);
    assert_eq!(
        handle_syscall_request(Err(Errno::Other(133))),
        (-133isize) as usize
    );
    assert_eq!(Errno::EFAULT.as_neg(), -14);
}

/// A file that is read to the memory of a guest.
fn read_file(file: &[u8], mut at: usize, request: SyscallRequest) -> (Result<usize, Errno>, Vec<u8>, usize) {
    let first = Dispatcher::do_syscall(Ok(request));
    let mut dispatcher = first.dispatcher;
    let mut action = first.action;
    let mut buffer: Vec<u8> = Vec::new();
    let mut guest = Vec::new();
    loop {
        let event = match action {
            SyscallAction::Finish(r) => return (r, guest, at),
            SyscallAction::Read(ReadAction::Resolve { fd }) => {
                assert_eq!(fd, 7);
                ReadEvent::Resolved(None)
            }
            SyscallAction::Read(ReadAction::Tell) => ReadEvent::Told(Ok(at)),
            SyscallAction::Read(ReadAction::ReadAt { offset, len }) => {
                assert!(len <= MAX_KERNEL_BUF_SIZE);
                let from = offset.min(file.len());
                buffer = file[from..(from + len).min(file.len())].to_vec();
                ReadEvent::Read(Ok(buffer.len()))
            }
            SyscallAction::Read(ReadAction::Put { ptr, at: place, len }) => {
                assert_eq!((ptr, place), (0x1000, guest.len()));
                guest.extend_from_slice(&buffer[..len]);
                ReadEvent::Put(true)
            }
            SyscallAction::Read(ReadAction::SeekTo { offset }) => {
                at = offset as usize;
                ReadEvent::Sought(true)
            }
            other => panic!("{:?}", other),
        };
        assert!(dispatcher.is_answered_by(SyscallEvent::Read(event)));
        action = dispatcher.step(SyscallEvent::Read(event));
    }
}

#[test]
fn large_reads_come_in_pieces() {
    let file: Vec<u8> = (0..MAX_KERNEL_BUF_SIZE * 3)
        .map(|i| (i % 251) as u8)
        .collect();
    let count = MAX_KERNEL_BUF_SIZE * 2 + 5;
    let read = SyscallRequest::Read {
        fd: 7,
        buf: 0x1000,
        count,
    };
    let (result, guest, at) = read_file(&file, 3, read);
    assert_eq!(result, Ok(count));
    assert_eq!(guest, file[3..3 + count]);
    assert_eq!(at, 3 + count);
    // Less comes back near the end of the file.
    let (result, guest, at) = read_file(&file, file.len() - 10, read);
    assert_eq!(result, Ok(10));
    assert_eq!(guest, file[file.len() - 10..]);
    assert_eq!(at, file.len());
    let pread = SyscallRequest::Pread64 {
        fd: 7,
        buf: 0x1000,
        count,
        offset: 100,
    };
    let (result, guest, at) = read_file(&file, 3, pread);
    assert_eq!(result, Ok(count));
    assert_eq!(guest, file[100..100 + count]);
    // The file itself stays where it was.
    assert_eq!(at, 3);
    let negative = SyscallRequest::Pread64 {
        fd: 7,
        buf: 0x1000,
        count: 1,
        offset: -1,
    };
    assert_eq!(read_file(&file, 3, negative).0, Err(Errno::EINVAL));
}

#[test]
fn reading_stops_where_the_host_fails() {
    let start = || ChunkReader::read_from_here(7, 0x1000, 10).reader;
    let mut r = start();
    assert_eq!(
        r.step(ReadEvent::Resolved(Some(Errno::EBADF))),
        ReadAction::Finish(Err(Errno::EBADF))
    );
    for (error, action) in [
        (Errno::EBADF, ReadAction::Finish(Err(Errno::EBADF))),
        (Errno::ESPIPE, ReadAction::Fatal(ReadFailure::NotSeekable)),
        (Errno::EINVAL, ReadAction::Fatal(ReadFailure::NoOffset)),
        (
            Errno::EPERM,
            ReadAction::Fatal(ReadFailure::UnexpectedSeekError(Errno::EPERM)),
        ),
    ] {
        let mut r = start();
        r.step(ReadEvent::Resolved(None));
        assert_eq!(r.step(ReadEvent::Told(Err(error))), action);
    }
    let mut r = start();
    r.step(ReadEvent::Resolved(None));
    assert_eq!(
        r.step(ReadEvent::Told(Ok(usize::MAX))),
        ReadAction::Fatal(ReadFailure::OffsetTooLarge)
    );
    let mut r = start();
    r.step(ReadEvent::Resolved(None));
    r.step(ReadEvent::Told(Ok(0)));
    assert!(!r.is_answered_by(ReadEvent::Read(Ok(11))));
    assert_eq!(
        r.step(ReadEvent::Read(Err(Errno::EISDIR))),
        ReadAction::Finish(Err(Errno::EISDIR))
    );
    let mut r = start();
    r.step(ReadEvent::Resolved(None));
    r.step(ReadEvent::Told(Ok(0)));
    r.step(ReadEvent::Read(Ok(10)));
    assert_eq!(
        r.step(ReadEvent::Put(false)),
        ReadAction::Finish(Err(Errno::EFAULT))
    );
    let mut r = start();
    r.step(ReadEvent::Resolved(None));
    r.step(ReadEvent::Told(Ok(0)));
    assert_eq!(
        r.step(ReadEvent::Read(Ok(0))),
        ReadAction::SeekTo { offset: 0 }
    );
    assert_eq!(
        r.step(ReadEvent::Sought(false)),
        ReadAction::Fatal(ReadFailure::SeekFailed)
    );
    assert_eq!(
        ReadFailure::NotSeekable.message(),
        "read on non-seekable fds with large buffers"
    );
    assert_eq!(
        ReadFailure::UnexpectedSeekError(Errno::EPERM).message(),
        "unexpected error from lseek: 1"
    );
}

/// The actions of an entry whose guest is ready to run or not.
fn enter(reason: EntryReason, ready: bool) -> Vec<EntryAction> {
    let first = LinuxShimEntrypoints::enter_shim(reason);
    let mut entry = first.entry;
    let mut actions = vec![first.action];
    loop {
        let event = match actions[actions.len() - 1] {
            EntryAction::Finish(_) | EntryAction::Unsupported => return actions,
            EntryAction::PrepareToRun | EntryAction::BringPage => EntryEvent::Ready(ready),
            _ => EntryEvent::Done,
        };
        assert!(entry.is_answered_by(event));
        actions.push(entry.step(event));
    }
}

#[test]
fn the_shim_is_entered_for_a_reason() {
    let resume = EntryAction::Finish(ContinueOperation::Resume);
    let terminate = EntryAction::Finish(ContinueOperation::Terminate);
    let leave = EntryAction::EnterFromGuest;
    let prepare = EntryAction::PrepareToRun;
    assert_eq!(
        enter(EntryReason::Init, true),
        vec![EntryAction::HandleInit, prepare, resume]
    );
    assert_eq!(
        enter(EntryReason::Syscall, false),
        vec![leave, EntryAction::HandleSyscall, prepare, terminate]
    );
    assert_eq!(
        enter(EntryReason::Exception, true),
        vec![leave, EntryAction::HandleException, prepare, resume]
    );
    assert_eq!(
        enter(EntryReason::Interrupt, true),
        vec![leave, prepare, resume]
    );
}

#[test]
fn page_faults_of_the_kernel_are_not_the_guests() {
    let route = |arch, class, kernel| LinuxShimEntrypoints::exception(arch, class, kernel).action;
    let x86 = Arch::X86_64;
    let a64 = Arch::Aarch64;
    assert_eq!(route(x86, PAGE_FAULT, true), EntryAction::BringPage);
    assert_eq!(route(x86, PAGE_FAULT, false), EntryAction::EnterFromGuest);
    assert_eq!(route(x86, 6, true), EntryAction::EnterFromGuest);
    for class in [DATA_ABORT_CURRENT_EL, INSTRUCTION_ABORT_CURRENT_EL] {
        assert_eq!(route(a64, class, true), EntryAction::Unsupported);
        assert_eq!(route(a64, class, false), EntryAction::EnterFromGuest);
    }
    assert_eq!(route(a64, 0x24, true), EntryAction::EnterFromGuest);
    let mut miss = LinuxShimEntrypoints::exception(x86, PAGE_FAULT, true).entry;
    assert_eq!(
        miss.step(EntryEvent::Ready(false)),
        EntryAction::Finish(ContinueOperation::Terminate)
    );
}

#[test]
fn processes_end_with_a_code() {
    let code = |status| {
        let p = LinuxShimProcess { status };
        (p.wait(), p.wait_for_unix_shell_exit_code())
    };
    assert_eq!(code(ExitStatus::Exit(0)), (0, 0));
    assert_eq!(code(ExitStatus::Exit(-1)), (-1, 255));
    assert_eq!(code(ExitStatus::Exit(127)), (127, 127));
    assert_eq!(code(ExitStatus::Signal(9)), (265, 137));
}

#[test]
fn processes_start_with_three_streams() {
    let entries = stdio_entries();
    for (i, (path, stream)) in [
        ("/dev/stdin", StdioStream::Stdin),
        ("/dev/stdout", StdioStream::Stdout),
        ("/dev/stderr", StdioStream::Stderr),
    ]
    .into_iter()
    .enumerate()
    {
        assert_eq!(entries[i].raw_fd, i);
        assert_eq!(entries[i].path, path);
        assert_eq!(entries[i].stream, stream);
        assert_eq!(entries[i].write_only, i > 0);
        let status = entries[i].status;
        assert!(status.append && status.read && status.write);
    }
    let params = TaskParams {
        pid: 5,
        ppid: 1,
        uid: 2,
        euid: 3,
        gid: 4,
        egid: 6,
    };
    let task = params.initial_task();
    assert_eq!((task.pid, task.tid, task.ppid, task.egid), (5, 5, 1, 6));
}

#[test]
fn marked_descriptors_close_on_exec() {
    let open = |raw_fd, close_on_exec| OpenDescriptor {
        raw_fd,
        close_on_exec,
    };
    assert_eq!(
        close_on_exec(&[
            open(0, Some(false)),
            open(3, Some(true)),
            open(4, None),
            open(9, Some(true))
        ]),
        vec![3, 9]
    );
    assert_eq!(close_on_exec(&[]), Vec::<usize>::new());
}

#[test]
fn descriptors_belong_to_the_first_that_knows_them() {
    assert_eq!(raw_descriptor(-1), Err(Errno::EBADF));
    assert_eq!(raw_descriptor(i32::MAX), Ok(0x7fff_ffff));
    let mut owners = Owners {
        fs: false,
        network: false,
        pipes: false,
        eventfd: false,
        epoll: false,
        unix: false,
    };
    assert_eq!(typed_fd(owners), Err(Errno::EBADF));
    owners.unix = true;
    assert_eq!(typed_fd(owners), Ok(Subsystem::Unix));
    owners.epoll = true;
    assert_eq!(typed_fd(owners), Ok(Subsystem::Epoll));
    owners.eventfd = true;
    assert_eq!(typed_fd(owners), Ok(Subsystem::Eventfd));
    owners.pipes = true;
    assert_eq!(typed_fd(owners), Ok(Subsystem::Pipes));
    owners.network = true;
    assert_eq!(typed_fd(owners), Ok(Subsystem::Network));
    owners.fs = true;
    assert_eq!(typed_fd(owners), Ok(Subsystem::Fs));
}

#[test]
fn programs_are_loaded_step_by_step() {
    let (mut loader, action) = ProgramLoader::load_program();
    assert_eq!(action, LoadAction::OpenStdio);
    assert_eq!(loader.step(None), LoadAction::ResolveShebang);
    assert_eq!(loader.step(None), LoadAction::OpenProgram);
    assert_eq!(loader.step(None), LoadAction::MapProgram);
    assert_eq!(loader.step(None), LoadAction::Finish(None));
    let open = LoadAction::Finish(Some(LoadFault::Open(Errno::ENOENT)));
    assert_eq!(
        ProgramLoader::OpenStdio.step(Some(Errno::ENOENT)),
        LoadAction::Fatal
    );
    assert_eq!(
        ProgramLoader::ResolveShebang.step(Some(Errno::ENOENT)),
        open
    );
    assert_eq!(ProgramLoader::OpenProgram.step(Some(Errno::ENOENT)), open);
    assert_eq!(
        ProgramLoader::MapProgram.step(Some(Errno::ENOMEM)),
        LoadAction::Finish(Some(LoadFault::Loader(Errno::ENOMEM)))
    );
}
