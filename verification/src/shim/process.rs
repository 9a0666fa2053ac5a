//! The shim as a whole: how it is built, what a process starts with, and what
//! is left when it ends.

use vstd::prelude::*;

use crate::arith::PAGE_SIZE;
use crate::errno::Errno;
use crate::mm::elf_patch::PatchView;
use crate::mm::patch_cache::ElfPatchCache;
use crate::page_mgmt::PageManagementProvider;

verus! {

/// All that the shim asks of a platform. A platform that can manage pages has
/// it.
pub trait ShimPlatform: PageManagementProvider<PAGE_SIZE> + 'static {

}

impl<T: PageManagementProvider<PAGE_SIZE> + 'static> ShimPlatform for T {

}

/// The services that the shim builds on, for one platform.
pub struct LiteBox<Platform: ShimPlatform> {
    pub platform: &'static Platform,
}

impl<Platform: ShimPlatform> LiteBox<Platform> {
    /// The services for the platform.
    pub fn new(platform: &'static Platform) -> (litebox: LiteBox<Platform>)
        ensures
            litebox.platform == platform,
    {
        LiteBox { platform }
    }
}

/// What a part of the file tree is made of.
pub enum Layer<InMem> {
    /// What is in memory lies over the contents of an archive.
    Overlay { upper: InMem, lower_tar: Vec<u8> },
    /// Devices.
    Devices,
}

/// A part of the file tree.
pub struct MountPoint<InMem> {
    pub path: &'static str,
    /// Whether other parts can lie below it.
    pub nestable: bool,
    pub layer: Layer<InMem>,
}

/// A file system: the parts of its tree, the outer ones first.
pub struct DefaultFS<InMem> {
    pub mounts: Vec<MountPoint<InMem>>,
}

impl<InMem> DefaultFS<InMem> {
    /// Whether this is the default file system with the layer in memory and
    /// the archive: an overlay of both at the root, and the devices below it.
    pub open spec fn is_default(self, in_mem: InMem, tar_data: Seq<u8>) -> bool {
        let root = self.mounts@[0];
        let dev = self.mounts@[1];
        &&& self.mounts@.len() == 2
        &&& root.path@ == "/"@
        &&& root.nestable
        &&& root.layer matches Layer::Overlay { upper, lower_tar } && upper == in_mem
            && lower_tar@ == tar_data
        &&& dev.path@ == "/dev"@
        &&& !dev.nestable
        &&& dev.layer is Devices
    }
}

/// Creates the default file system with the given layer in memory and archive.
pub fn default_fs<Platform: ShimPlatform, InMem>(
    litebox: &LiteBox<Platform>,
    in_mem: InMem,
    tar_data: Vec<u8>,
) -> (fs: DefaultFS<InMem>)
    ensures
        fs.is_default(in_mem, tar_data@),
{
    let mut mounts: Vec<MountPoint<InMem>> = Vec::new();
    mounts.push(
        MountPoint {
            path: "/",
            nestable: true,
            layer: Layer::Overlay { upper: in_mem, lower_tar: tar_data },
        },
    );
    mounts.push(MountPoint { path: "/dev", nestable: false, layer: Layer::Devices });
    DefaultFS { mounts }
}

/// Builds a shim.
pub struct LinuxShimBuilder<Platform: ShimPlatform> {
    platform: &'static Platform,
    litebox: LiteBox<Platform>,
}

impl<Platform: ShimPlatform> LinuxShimBuilder<Platform> {
    /// The platform that the shim is built for.
    pub closed spec fn of_platform(self) -> &'static Platform {
        self.platform
    }

    /// The services that the shim is built on.
    pub closed spec fn on(self) -> LiteBox<Platform> {
        self.litebox
    }

    /// Returns a new shim builder using the given platform.
    pub fn new(platform: &'static Platform) -> (builder: LinuxShimBuilder<Platform>)
        ensures
            builder.of_platform() == platform,
            builder.on().platform == platform,
    {
        LinuxShimBuilder::new_with_litebox(platform, LiteBox::new(platform))
    }

    /// Returns a new shim builder using services that exist already.
    pub fn new_with_litebox(
        platform: &'static Platform,
        litebox: LiteBox<Platform>,
    ) -> (builder: LinuxShimBuilder<Platform>)
        ensures
            builder.of_platform() == platform,
            builder.on() == litebox,
    {
        LinuxShimBuilder { platform, litebox }
    }

    /// Returns the services that the shim is built on.
    pub fn litebox(&self) -> (litebox: &LiteBox<Platform>)
        ensures
            *litebox == self.on(),
    {
        &self.litebox
    }

    /// Creates the default file system with the given layer in memory and
    /// archive.
    pub fn default_fs<InMem>(&self, in_mem: InMem, tar_data: Vec<u8>) -> (fs: DefaultFS<InMem>)
        ensures
            fs.is_default(in_mem, tar_data@),
    {
        default_fs(&self.litebox, in_mem, tar_data)
    }

    /// Builds the shim. The first thread that it starts is number two, as one
    /// is that of the main thread.
    pub fn build(self) -> (shim: LinuxShim<Platform>)
        ensures
            shim.platform == self.of_platform(),
            shim.litebox == self.on(),
            shim.next_thread_id == 2,
            shim.elf_patch_cache.wf(),
            shim.elf_patch_cache@ == Map::<i32, PatchView>::empty(),
    {
        LinuxShim {
            platform: self.platform,
            litebox: self.litebox,
            next_thread_id: 2,
            elf_patch_cache: ElfPatchCache::new(),
        }
    }
}

/// The state of a shim that all its tasks share.
pub struct LinuxShim<Platform: ShimPlatform> {
    pub platform: &'static Platform,
    pub litebox: LiteBox<Platform>,
    /// Number of the next thread.
    pub next_thread_id: i32,
    pub elf_patch_cache: ElfPatchCache,
}

impl<Platform: ShimPlatform> LinuxShim<Platform> {
    /// Returns the services that the shim is built on.
    pub fn litebox(&self) -> (litebox: &LiteBox<Platform>)
        ensures
            *litebox == self.litebox,
    {
        &self.litebox
    }

    /// Returns the platform that the shim was built with.
    pub fn platform(&self) -> (platform: &'static Platform)
        ensures
            platform == self.platform,
    {
        self.platform
    }
}

/// Who a process runs for.
#[derive(Clone, Copy, Debug, PartialEq, Eq, Structural)]
pub struct TaskParams {
    pub pid: i32,
    pub ppid: i32,
    pub uid: u32,
    pub euid: u32,
    pub gid: u32,
    pub egid: u32,
}

/// What the first task of a process starts with.
#[derive(Clone, Copy, Debug, PartialEq, Eq, Structural)]
pub struct InitialTask {
    pub pid: i32,
    pub ppid: i32,
    pub tid: i32,
    pub uid: u32,
    pub euid: u32,
    pub gid: u32,
    pub egid: u32,
}

impl TaskParams {
    /// The first task of the process: its thread has the number of the
    /// process.
    pub fn initial_task(self) -> (task: InitialTask)
        ensures
            task == (InitialTask {
                pid: self.pid,
                ppid: self.ppid,
                tid: self.pid,
                uid: self.uid,
                euid: self.euid,
                gid: self.gid,
                egid: self.egid,
            }),
    {
        InitialTask {
            pid: self.pid,
            ppid: self.ppid,
            tid: self.pid,
            uid: self.uid,
            euid: self.euid,
            gid: self.gid,
            egid: self.egid,
        }
    }
}

/// How a process ended.
#[derive(Clone, Copy, Debug, PartialEq, Eq, Structural)]
pub enum ExitStatus {
    /// By itself, with a code.
    Exit(i8),
    /// By a signal.
    Signal(u8),
}

/// A process that has come to its end.
#[derive(Clone, Copy, Debug, PartialEq, Eq, Structural)]
pub struct LinuxShimProcess {
    pub status: ExitStatus,
}

impl LinuxShimProcess {
    /// The exit code; of a process that a signal ended, the number of the
    /// signal and 256.
    pub open spec fn code(self) -> int {
        match self.status {
            ExitStatus::Exit(v) => v as int,
            ExitStatus::Signal(s) => s + 256,
        }
    }

    /// The exit code as a Unix shell knows it: eight bits; of a process that a
    /// signal ended, the number of the signal and 128.
    pub open spec fn shell_code(self) -> int {
        match self.status {
            ExitStatus::Exit(v) => if v >= 0 {
                v as int
            } else {
                v + 256
            },
            ExitStatus::Signal(s) => s + 128,
        }
    }

    /// The exit code of the process.
    pub fn wait(&self) -> (code: i32)
        ensures
            code == self.code(),
    {
        match self.status {
            ExitStatus::Exit(v) => v as i32,
            ExitStatus::Signal(s) => s as i32 + 256,
        }
    }

    /// The exit code of the process, as a Unix shell knows it.
    pub fn wait_for_unix_shell_exit_code(&self) -> (code: i32)
        ensures
            code == self.shell_code(),
    {
        match self.status {
            ExitStatus::Exit(v) => if v >= 0 {
                v as i32
            } else {
                v as i32 + 256
            },
            ExitStatus::Signal(s) => s as i32 + 128,
        }
    }
}

/// No two ways to end leave one exit code.
pub proof fn exit_codes_tell_ends_apart(a: LinuxShimProcess, b: LinuxShimProcess)
    requires
        a.code() == b.code(),
    ensures
        a == b,
{
}

/// Both exit codes agree in what a shell can see of a process that ended by
/// itself.
pub proof fn shell_sees_low_byte(p: LinuxShimProcess)
    requires
        p.status is Exit,
    ensures
        p.shell_code() == p.code() % 256,
        0 <= p.shell_code() < 256,
{
}

/// A standard stream.
#[derive(Clone, Copy, Debug, PartialEq, Eq, Structural)]
pub enum StdioStream {
    Stdin,
    Stdout,
    Stderr,
}

/// How a descriptor reports itself to be open.
#[derive(Clone, Copy, Debug, PartialEq, Eq, Structural)]
pub struct StatusFlags {
    pub append: bool,
    pub read: bool,
    pub write: bool,
}

/// A standard stream of a new process.
#[derive(Clone, Copy, Debug, PartialEq, Eq)]
pub struct StdioEntry {
    /// Its descriptor.
    pub raw_fd: usize,
    pub path: &'static str,
    /// Whether it is opened for writing, and not for reading.
    pub write_only: bool,
    pub stream: StdioStream,
    /// How it reports itself, however it was opened.
    pub status: StatusFlags,
}

impl StdioEntry {
    /// Whether this is the entry of the stream.
    pub open spec fn is_of(self, stream: StdioStream) -> bool {
        &&& self.stream == stream
        &&& self.status == (StatusFlags { append: true, read: true, write: true })
        &&& match stream {
            StdioStream::Stdin => self.raw_fd == 0 && self.path@ == "/dev/stdin"@
                && !self.write_only,
            StdioStream::Stdout => self.raw_fd == 1 && self.path@ == "/dev/stdout"@
                && self.write_only,
            StdioStream::Stderr => self.raw_fd == 2 && self.path@ == "/dev/stderr"@
                && self.write_only,
        }
    }
}

/// The standard streams of a new process. Each reports itself as open for
/// appending, reading and writing.
pub fn stdio_entries() -> (entries: [StdioEntry; 3])
    ensures
        entries[0].is_of(StdioStream::Stdin),
        entries[1].is_of(StdioStream::Stdout),
        entries[2].is_of(StdioStream::Stderr),
{
    let status = StatusFlags { append: true, read: true, write: true };
    [
        StdioEntry {
            raw_fd: 0,
            path: "/dev/stdin",
            write_only: false,
            stream: StdioStream::Stdin,
            status,
        },
        StdioEntry {
            raw_fd: 1,
            path: "/dev/stdout",
            write_only: true,
            stream: StdioStream::Stdout,
            status,
        },
        StdioEntry {
            raw_fd: 2,
            path: "/dev/stderr",
            write_only: true,
            stream: StdioStream::Stderr,
            status,
        },
    ]
}

/// An open descriptor, and whether it is closed when another program is
/// loaded. `None` where it has gone meanwhile.
#[derive(Clone, Copy, Debug, PartialEq, Eq, Structural)]
pub struct OpenDescriptor {
    pub raw_fd: usize,
    pub close_on_exec: Option<bool>,
}

/// The descriptors to close, of those that are open, in order.
pub open spec fn closed_on_exec(open: Seq<OpenDescriptor>) -> Seq<usize>
    decreases open.len(),
{
    if open.len() == 0 {
        Seq::empty()
    } else {
        let head = closed_on_exec(open.drop_last());
        if open.last().close_on_exec == Some(true) {
            head.push(open.last().raw_fd)
        } else {
            head
        }
    }
}

/// The descriptors to close when another program is loaded.
pub fn close_on_exec(open: &[OpenDescriptor]) -> (closed: Vec<usize>)
    ensures
        closed@ == closed_on_exec(open@),
{
    let mut closed: Vec<usize> = Vec::new();
    let mut i: usize = 0;
    while i < open.len()
        invariant
            i <= open.len(),
            closed@ == closed_on_exec(open@.take(i as int)),
        decreases open.len() - i,
    {
        let d = open[i];
        assert(open@.take(i + 1).drop_last() =~= open@.take(i as int));
        if matches!(d.close_on_exec, Some(true)) {
            closed.push(d.raw_fd);
        }
        i += 1;
    }
    assert(open@.take(i as int) =~= open@);
    closed
}

/// What a descriptor belongs to.
#[derive(Clone, Copy, Debug, PartialEq, Eq, Structural)]
pub enum Subsystem {
    Fs,
    Network,
    Pipes,
    Eventfd,
    Epoll,
    Unix,
}

/// Which subsystems know a descriptor.
#[derive(Clone, Copy, Debug, PartialEq, Eq, Structural)]
pub struct Owners {
    pub fs: bool,
    pub network: bool,
    pub pipes: bool,
    pub eventfd: bool,
    pub epoll: bool,
    pub unix: bool,
}

/// The descriptor of a guest as a number without sign; a negative one is not
/// valid.
pub fn raw_descriptor(fd: i32) -> (raw: Result<usize, Errno>)
    ensures
        raw == if fd < 0 {
            Err::<usize, Errno>(Errno::EBADF)
        } else {
            Ok(fd as usize)
        },
        raw is Ok <==> fd >= 0,
        raw matches Ok(n) ==> n == fd,
{
    if fd < 0 {
        Err(Errno::EBADF)
    } else {
        Ok(fd as usize)
    }
}

/// The first subsystem that knows the descriptor; one that none knows is not
/// valid.
pub fn typed_fd(owners: Owners) -> (subsystem: Result<Subsystem, Errno>)
    ensures
        subsystem == if owners.fs {
            Ok::<Subsystem, Errno>(Subsystem::Fs)
        } else if owners.network {
            Ok(Subsystem::Network)
        } else if owners.pipes {
            Ok(Subsystem::Pipes)
        } else if owners.eventfd {
            Ok(Subsystem::Eventfd)
        } else if owners.epoll {
            Ok(Subsystem::Epoll)
        } else if owners.unix {
            Ok(Subsystem::Unix)
        } else {
            Err(Errno::EBADF)
        },
        subsystem matches Ok(s) ==> match s {
            Subsystem::Fs => owners.fs,
            Subsystem::Network => owners.network,
            Subsystem::Pipes => owners.pipes,
            Subsystem::Eventfd => owners.eventfd,
            Subsystem::Epoll => owners.epoll,
            Subsystem::Unix => owners.unix,
        },
        subsystem is Err <==> !(owners.fs || owners.network || owners.pipes || owners.eventfd
            || owners.epoll || owners.unix),
{
    if owners.fs {
        Ok(Subsystem::Fs)
    } else if owners.network {
        Ok(Subsystem::Network)
    } else if owners.pipes {
        Ok(Subsystem::Pipes)
    } else if owners.eventfd {
        Ok(Subsystem::Eventfd)
    } else if owners.epoll {
        Ok(Subsystem::Epoll)
    } else if owners.unix {
        Ok(Subsystem::Unix)
    } else {
        Err(Errno::EBADF)
    }
}

/// What has to be done next to load a program.
#[derive(Clone, Copy, Debug, PartialEq, Eq)]
pub enum LoadAction {
    /// Open the standard streams.
    OpenStdio,
    /// Find the interpreter of a script, if the program is one.
    ResolveShebang,
    /// Open the program.
    OpenProgram,
    /// Map the program and set up its stack.
    MapProgram,
    /// The program is loaded, or not.
    Finish(Option<LoadFault>),
    /// The process has to stop: a standard stream is missing.
    Fatal,
}

/// Why a program cannot be loaded.
#[derive(Clone, Copy, Debug, PartialEq, Eq, Structural)]
pub enum LoadFault {
    /// The program, or its interpreter, cannot be opened.
    Open(Errno),
    /// The program cannot be mapped.
    Loader(Errno),
}

/// A program being loaded.
#[derive(Clone, Copy, Debug, PartialEq, Eq, Structural)]
pub enum ProgramLoader {
    OpenStdio,
    ResolveShebang,
    OpenProgram,
    MapProgram,
    End,
}

impl ProgramLoader {
    /// The first action of loading a program.
    pub fn load_program() -> (first: (ProgramLoader, LoadAction))
        ensures
            first.0 is OpenStdio,
            first.1 is OpenStdio,
    {
        (ProgramLoader::OpenStdio, LoadAction::OpenStdio)
    }

    /// What follows an action that came to an error, or did not.
    pub open spec fn next(self, error: Option<Errno>) -> (ProgramLoader, LoadAction) {
        match (self, error) {
            (ProgramLoader::OpenStdio, None) => (
                ProgramLoader::ResolveShebang,
                LoadAction::ResolveShebang,
            ),
            (ProgramLoader::OpenStdio, Some(_)) => (ProgramLoader::End, LoadAction::Fatal),
            (ProgramLoader::ResolveShebang, None) => (
                ProgramLoader::OpenProgram,
                LoadAction::OpenProgram,
            ),
            (ProgramLoader::ResolveShebang, Some(e)) => (
                ProgramLoader::End,
                LoadAction::Finish(Some(LoadFault::Open(e))),
            ),
            (ProgramLoader::OpenProgram, None) => (
                ProgramLoader::MapProgram,
                LoadAction::MapProgram,
            ),
            (ProgramLoader::OpenProgram, Some(e)) => (
                ProgramLoader::End,
                LoadAction::Finish(Some(LoadFault::Open(e))),
            ),
            (_, None) => (ProgramLoader::End, LoadAction::Finish(None)),
            (_, Some(e)) => (ProgramLoader::End, LoadAction::Finish(Some(LoadFault::Loader(e)))),
        }
    }

    /// Takes the error that the last action came to, if it did, and returns
    /// what has to be done next.
    pub fn step(&mut self, error: Option<Errno>) -> (action: LoadAction)
        requires
            *old(self) != ProgramLoader::End,
        ensures
            (*final(self), action) == old(self).next(error),
    {
        let (next, action) = match (*self, error) {
            (ProgramLoader::OpenStdio, None) => (
                ProgramLoader::ResolveShebang,
                LoadAction::ResolveShebang,
            ),
            (ProgramLoader::OpenStdio, Some(_)) => (ProgramLoader::End, LoadAction::Fatal),
            (ProgramLoader::ResolveShebang, None) => (
                ProgramLoader::OpenProgram,
                LoadAction::OpenProgram,
            ),
            (ProgramLoader::ResolveShebang, Some(e)) => (
                ProgramLoader::End,
                LoadAction::Finish(Some(LoadFault::Open(e))),
            ),
            (ProgramLoader::OpenProgram, None) => (
                ProgramLoader::MapProgram,
                LoadAction::MapProgram,
            ),
            (ProgramLoader::OpenProgram, Some(e)) => (
                ProgramLoader::End,
                LoadAction::Finish(Some(LoadFault::Open(e))),
            ),
            (_, None) => (ProgramLoader::End, LoadAction::Finish(None)),
            (_, Some(e)) => (ProgramLoader::End, LoadAction::Finish(Some(LoadFault::Loader(e)))),
        };
        *self = next;
        action
    }
}

/// A process that ended by itself is known by its own code, and one that a signal
/// ended by the number of the signal, which no process that ended by itself can
/// leave.
pub proof fn exit_codes_are_those_of_the_process(p: LinuxShimProcess, s: u8, v: i8)
    ensures
        p.status == ExitStatus::Exit(v) ==> p.code() == v,
        p.status == ExitStatus::Signal(s) ==> p.code() % 256 == s && p.code() >= 256,
        p.status == ExitStatus::Signal(s) ==> p.shell_code() - s == 128,
        p.status == ExitStatus::Signal(s) ==> p.code() - p.shell_code() == 128,
{
}

/// When another program is loaded, the descriptors that are marked for it are
/// closed, all of them and no others.
pub proof fn marked_descriptors_are_closed(open: Seq<OpenDescriptor>, raw_fd: usize)
    ensures
        closed_on_exec(open).contains(raw_fd) <==> open.contains(
            OpenDescriptor { raw_fd, close_on_exec: Some(true) },
        ),
        closed_on_exec(open).len() <= open.len(),
    decreases open.len(),
{
    let marked = OpenDescriptor { raw_fd, close_on_exec: Some(true) };
    if open.len() > 0 {
        let less = open.drop_last();
        marked_descriptors_are_closed(less, raw_fd);
        let head = closed_on_exec(less);
        let all = closed_on_exec(open);
        if all.contains(raw_fd) {
            let i = choose|i: int| 0 <= i < all.len() && all[i] == raw_fd;
            if i < head.len() {
                assert(head[i] == raw_fd);
                let k = choose|k: int| 0 <= k < less.len() && less[k] == marked;
                assert(open[k] == marked);
            } else {
                assert(open[open.len() - 1] == marked);
            }
        }
        if open.contains(marked) {
            let k = choose|k: int| 0 <= k < open.len() && open[k] == marked;
            if k < less.len() {
                assert(less[k] == marked);
                let i = choose|i: int| 0 <= i < head.len() && head[i] == raw_fd;
                assert(all[i] == raw_fd);
            } else {
                assert(all[all.len() - 1] == raw_fd);
            }
        }
    }
}

/// A program is loaded only once its streams are open, the interpreter of a
/// script is found, the program is open and it is mapped, in this order. The
/// first error ends it and is the one that is reported; a stream that is missing
/// stops the process.
pub proof fn programs_are_loaded_in_order(loader: ProgramLoader, error: Option<Errno>)
    requires
        loader != ProgramLoader::End,
    ensures
        ({
            let (next, action) = loader.next(error);
            &&& error is None ==> match action {
                LoadAction::ResolveShebang => loader is OpenStdio && next is ResolveShebang,
                LoadAction::OpenProgram => loader is ResolveShebang && next is OpenProgram,
                LoadAction::MapProgram => loader is OpenProgram && next is MapProgram,
                LoadAction::Finish(fault) => loader is MapProgram && fault is None && next is End,
                _ => false,
            }
            &&& error matches Some(e) ==> next is End && match action {
                LoadAction::Fatal => loader is OpenStdio,
                LoadAction::Finish(Some(LoadFault::Open(told))) => told == e && (
                loader is ResolveShebang || loader is OpenProgram),
                LoadAction::Finish(Some(LoadFault::Loader(told))) => told == e
                    && loader is MapProgram,
                _ => false,
            }
        }),
{
}

} // verus!
