//! Decisions of `mmap`: what is asked for, and how a file is mapped.

use vstd::prelude::*;

use crate::arith::{align_up, align_up_spec, page_size_is_pow2, wrap_add, PAGE_SIZE};
use crate::errno::Errno;
use crate::flags::{MapFlags, MemoryRegionPermissions, ProtFlags};
use crate::page_mgmt::FixedAddressBehavior;

verus! {

/// Why a mapping fails.
#[derive(Clone, Copy, Debug, PartialEq, Eq, Structural)]
pub enum MappingError {
    /// The file descriptor is not valid.
    BadFD(i32),
    /// The file descriptor is that of a directory.
    NotAFile,
    /// The file is not open for reading.
    NotForReading,
    OutOfMemory,
}

/// What a mapping is to hold.
#[derive(Clone, Copy, Debug, PartialEq, Eq, Structural)]
pub enum Backing {
    Anonymous,
    /// A file, from an offset on.
    File { fd: i32, offset: usize },
}

/// A mapping to be made.
#[derive(Clone, Copy, Debug, PartialEq, Eq, Structural)]
pub struct MmapPlan {
    /// Where to put it, if the guest cares.
    pub suggested_addr: Option<usize>,
    /// Its length, in whole pages.
    pub len: usize,
    pub backing: Backing,
}

/// Whether `addr`, `len` and `offset` are such that a mapping can be made of
/// them at all.
pub open spec fn is_mappable(addr: usize, len: usize, offset: usize) -> bool {
    offset % PAGE_SIZE == 0 && addr % PAGE_SIZE == 0 && len != 0
}

/// Whether mappings with this protection and these flags are supported: a file
/// that is shared cannot be written, and some flags have no meaning here.
pub open spec fn is_supported(prot: ProtFlags, flags: MapFlags) -> bool {
    &&& !(flags.shared && prot.write && !flags.anonymous)
    &&& !flags.has_unsupported()
}

/// Whether mappings with this protection and these flags are supported.
pub fn mmap_is_supported(prot: ProtFlags, flags: MapFlags) -> (supported: bool)
    ensures
        supported == is_supported(prot, flags),
{
    !(flags.shared && prot.write && !flags.anonymous) && !flags.is_unsupported()
}

/// Plans the mapping that a guest asks for, or says why there is none.
pub fn sys_mmap(
    addr: usize,
    len: usize,
    prot: ProtFlags,
    flags: MapFlags,
    fd: i32,
    offset: usize,
) -> (plan: Result<MmapPlan, Errno>)
    requires
        is_mappable(addr, len, offset) ==> is_supported(prot, flags),
    ensures
        plan == if !is_mappable(addr, len, offset) {
            Err::<MmapPlan, Errno>(Errno::EINVAL)
        } else if align_up_spec(len, PAGE_SIZE) == 0 {
            Err(Errno::ENOMEM)
        } else if offset + align_up_spec(len, PAGE_SIZE) > usize::MAX {
            Err(Errno::EOVERFLOW)
        } else {
            Ok(
                (MmapPlan {
                    suggested_addr: if addr == 0 {
                        None
                    } else {
                        Some(addr)
                    },
                    len: align_up_spec(len, PAGE_SIZE),
                    backing: if flags.anonymous {
                        Backing::Anonymous
                    } else {
                        Backing::File { fd, offset }
                    },
                }),
            )
        },
        plan matches Ok(p) ==> {
            &&& p.len >= len && p.len > 0
            &&& p.suggested_addr matches Some(at) ==> at == addr
            &&& p.suggested_addr is None <==> addr == 0
            &&& p.backing is Anonymous <==> flags.anonymous
            &&& p.backing matches Backing::File { fd: file, offset: from } ==> file == fd && from
                == offset && from + p.len <= usize::MAX
        },
        plan matches Err(e) ==> e == Errno::EINVAL || e == Errno::ENOMEM || e == Errno::EOVERFLOW,
        plan == Err::<MmapPlan, Errno>(Errno::EINVAL) <==> offset % PAGE_SIZE != 0 || addr
            % PAGE_SIZE != 0 || len == 0,
{
    if offset % PAGE_SIZE != 0 || addr % PAGE_SIZE != 0 || len == 0 {
        return Err(Errno::EINVAL);
    }
    proof {
        page_size_is_pow2();
    }
    let aligned_len: usize = align_up(len, PAGE_SIZE);
    if aligned_len == 0 {
        return Err(Errno::ENOMEM);
    }
    proof {
        planned_length_is_tight(len);
    }
    if offset.checked_add(aligned_len).is_none() {
        return Err(Errno::EOVERFLOW);
    }
    let suggested_addr = if addr == 0 {
        None
    } else {
        Some(addr)
    };
    let backing = if flags.anonymous {
        Backing::Anonymous
    } else {
        Backing::File { fd, offset }
    };
    Ok(MmapPlan { suggested_addr, len: aligned_len, backing })
}

/// A planned mapping is as long as was asked for, in whole pages and with less
/// than a page to spare.
pub proof fn planned_length_is_tight(len: usize)
    requires
        align_up_spec(len, PAGE_SIZE) != 0,
    ensures
        align_up_spec(len, PAGE_SIZE) % PAGE_SIZE == 0,
        len <= align_up_spec(len, PAGE_SIZE) < len + PAGE_SIZE,
{
    reveal(align_up_spec);
    crate::arith::ceil_to_is_least_multiple(len as int, PAGE_SIZE as int);
}

/// How the flags want an address to be taken.
pub open spec fn behavior_of(flags: MapFlags) -> FixedAddressBehavior {
    if flags.fixed_noreplace {
        FixedAddressBehavior::NoReplace
    } else if flags.fixed {
        FixedAddressBehavior::Replace
    } else {
        FixedAddressBehavior::Hint
    }
}

/// How the flags want an address to be taken.
pub fn fixed_behavior(flags: MapFlags) -> (behavior: FixedAddressBehavior)
    ensures
        behavior == behavior_of(flags),
{
    if flags.fixed_noreplace {
        FixedAddressBehavior::NoReplace
    } else if flags.fixed {
        FixedAddressBehavior::Replace
    } else {
        FixedAddressBehavior::Hint
    }
}

/// A copy-on-write mapping to be tried.
#[derive(Clone, Copy, Debug, PartialEq, Eq, Structural)]
pub struct CowPlan {
    pub suggested_start: usize,
    /// Which part of the file's data is mapped.
    pub data_start: usize,
    pub data_end: usize,
    pub permissions: MemoryRegionPermissions,
    pub behavior: FixedAddressBehavior,
    /// Whether mappings that are there give way.
    pub replace: bool,
    pub shared: bool,
}

/// Plans a copy-on-write mapping of a file whose data has a fixed place of
/// `static_len` bytes; `None` where the data does not fill the mapping or has
/// no fixed place.
pub fn try_cow_mmap_file(
    suggested_addr: Option<usize>,
    len: usize,
    prot: ProtFlags,
    flags: MapFlags,
    static_len: Option<usize>,
    offset: usize,
) -> (plan: Option<CowPlan>)
    ensures
        plan == match static_len {
            Some(available) if len % PAGE_SIZE == 0 && offset + len <= available => Some(
                (CowPlan {
                    suggested_start: match suggested_addr {
                        Some(addr) => addr,
                        None => 0,
                    },
                    data_start: offset,
                    data_end: (offset + len) as usize,
                    permissions: prot.as_permissions(),
                    behavior: behavior_of(flags),
                    replace: behavior_of(flags) == FixedAddressBehavior::Replace,
                    shared: flags.shared,
                }),
            ),
            _ => None,
        },
        plan matches Some(p) ==> {
            &&& p.data_start == offset && p.data_end - p.data_start == len
            &&& static_len matches Some(available) && p.data_end <= available
            &&& p.replace ==> flags.fixed && !flags.fixed_noreplace
            &&& p.permissions.read == prot.read && p.permissions.write == prot.write
                && p.permissions.execute == prot.execute
            &&& suggested_addr matches Some(at) ==> p.suggested_start == at
        },
{
    if len % PAGE_SIZE != 0 {
        return None;
    }
    let Some(available) = static_len else {
        return None;
    };
    if offset > available {
        return None;
    }
    if available - offset < len {
        return None;
    }
    let behavior = fixed_behavior(flags);
    Some(
        CowPlan {
            suggested_start: match suggested_addr {
                Some(addr) => addr,
                None => 0,
            },
            data_start: offset,
            data_end: offset + len,
            permissions: prot.permissions(),
            behavior,
            replace: matches!(behavior, FixedAddressBehavior::Replace),
            shared: flags.shared,
        },
    )
}

/// Whether the memory past a mapping of a file has to be free, so that a
/// trampoline can follow it.
pub fn needs_space_after(flags: MapFlags, offset: usize) -> (needed: bool)
    ensures
        needed == (offset == 0 && !flags.fixed && !flags.fixed_noreplace),
{
    offset == 0 && !(flags.fixed || flags.fixed_noreplace)
}

/// What the host has to do next to copy a file to memory.
#[derive(Clone, Copy, Debug, PartialEq, Eq)]
pub enum CopyAction {
    /// Read at most a page of the file to the buffer.
    Read { file_offset: usize },
    /// Write the first `len` bytes of the buffer to the mapping.
    Write { at: usize, len: usize },
    /// The copy is over, with so many bytes or with an error.
    Finish(Result<usize, MappingError>),
    /// Reading failed in a way that is not supported.
    Unsupported(Errno),
    /// The fresh mapping could not be written.
    WriteFault,
}

/// What the host answers.
#[derive(Clone, Copy, Debug, PartialEq, Eq)]
pub enum CopyEvent {
    Read(Result<usize, Errno>),
    Written(bool),
}

/// A file being copied to memory, page by page.
#[derive(Clone, Copy, Debug, PartialEq, Eq, Structural)]
pub struct FileCopier {
    pub len: usize,
    pub file_offset: usize,
    pub copied: usize,
    /// How many bytes are being written, if the host is writing.
    pub writing: Option<usize>,
    pub ended: bool,
}

/// A copier and the action that it asks for.
#[derive(Clone, Copy, Debug, PartialEq, Eq)]
pub struct Copying {
    pub copier: FileCopier,
    pub action: CopyAction,
}

/// What an error of reading means for a mapping, if it is supported.
pub open spec fn read_error(e: Errno) -> Option<MappingError> {
    match e {
        Errno::EBADF => Some(MappingError::BadFD(-1i32)),
        Errno::EISDIR => Some(MappingError::NotAFile),
        Errno::EACCES => Some(MappingError::NotForReading),
        _ => None,
    }
}

impl FileCopier {
    /// Whether the event answers what the copier waits for.
    pub open spec fn accepts(self, event: CopyEvent) -> bool {
        !self.ended && (event is Written) == (self.writing is Some)
    }

    /// Whether the event answers what the copier waits for.
    pub fn is_answered_by(&self, event: CopyEvent) -> (answered: bool)
        ensures
            answered == self.accepts(event),
    {
        !self.ended && matches!(event, CopyEvent::Written(_)) == self.writing.is_some()
    }

    /// Ends with the action.
    pub open spec fn ends(self, action: CopyAction) -> Copying {
        Copying { copier: FileCopier { ended: true, ..self }, action }
    }

    /// Reads on, unless all has been copied.
    pub open spec fn reads_on(self) -> Copying {
        if self.copied < self.len {
            Copying { copier: self, action: CopyAction::Read { file_offset: self.file_offset } }
        } else {
            self.ends(CopyAction::Finish(Ok(self.copied)))
        }
    }

    /// What follows an event that answers what the copier waits for.
    pub open spec fn next(self, event: CopyEvent) -> Copying {
        match event {
            CopyEvent::Read(Ok(size)) => if size == 0 {
                self.ends(CopyAction::Finish(Ok(self.copied)))
            } else {
                Copying {
                    copier: FileCopier { writing: Some(size), ..self },
                    action: CopyAction::Write { at: self.copied, len: size },
                }
            },
            CopyEvent::Read(Err(e)) => match read_error(e) {
                Some(m) => self.ends(CopyAction::Finish(Err(m))),
                None => self.ends(CopyAction::Unsupported(e)),
            },
            CopyEvent::Written(done) => if done {
                FileCopier {
                    copied: wrap_add(self.copied, self.writing->0),
                    file_offset: wrap_add(self.file_offset, self.writing->0),
                    writing: None,
                    ..self
                }.reads_on()
            } else {
                self.ends(CopyAction::WriteFault)
            },
        }
    }

    fn end(self, action: CopyAction) -> (next: Copying)
        ensures
            next == self.ends(action),
    {
        Copying { copier: FileCopier { ended: true, ..self }, action }
    }

    fn read_on(self) -> (next: Copying)
        ensures
            next == self.reads_on(),
    {
        if self.copied < self.len {
            Copying { copier: self, action: CopyAction::Read { file_offset: self.file_offset } }
        } else {
            self.end(CopyAction::Finish(Ok(self.copied)))
        }
    }

    /// The first action of copying `len` bytes of a file from `offset` on.
    pub fn start(len: usize, offset: usize) -> (first: Copying)
        ensures
            first == (FileCopier {
                len,
                file_offset: offset,
                copied: 0,
                writing: None,
                ended: false,
            }).reads_on(),
    {
        let copier = FileCopier {
            len,
            file_offset: offset,
            copied: 0,
            writing: None,
            ended: false,
        };
        copier.read_on()
    }

    /// Takes the reply of the host and returns what it has to do next.
    pub fn step(&mut self, event: CopyEvent) -> (action: CopyAction)
        requires
            old(self).accepts(event),
        ensures
            (Copying { copier: *final(self), action }) == old(self).next(event),
    {
        let now = *self;
        let next = match event {
            CopyEvent::Read(Ok(size)) => if size == 0 {
                now.end(CopyAction::Finish(Ok(now.copied)))
            } else {
                Copying {
                    copier: FileCopier { writing: Some(size), ..now },
                    action: CopyAction::Write { at: now.copied, len: size },
                }
            },
            CopyEvent::Read(Err(e)) => match e {
                Errno::EBADF => now.end(CopyAction::Finish(Err(MappingError::BadFD(-1)))),
                Errno::EISDIR => now.end(CopyAction::Finish(Err(MappingError::NotAFile))),
                Errno::EACCES => now.end(CopyAction::Finish(Err(MappingError::NotForReading))),
                _ => now.end(CopyAction::Unsupported(e)),
            },
            CopyEvent::Written(done) => match now.writing {
                Some(size) => if done {
                    let on = FileCopier {
                        copied: now.copied.wrapping_add(size),
                        file_offset: now.file_offset.wrapping_add(size),
                        writing: None,
                        ..now
                    };
                    on.read_on()
                } else {
                    now.end(CopyAction::WriteFault)
                },
                None => now.end(CopyAction::WriteFault),
            },
        };
        *self = next.copier;
        next.action
    }
}

/// The place in the file and the place in memory advance together: whatever
/// was read is written at the same distance from the start.
pub proof fn copy_advances_together(copier: FileCopier, event: CopyEvent)
    requires
        copier.accepts(event),
        copier.writing matches Some(size) ==> copier.file_offset + size <= usize::MAX
            && copier.copied + size <= usize::MAX,
    ensures
        ({
            let next = copier.next(event);
            &&& next.copier.file_offset - next.copier.copied == copier.file_offset - copier.copied
            &&& next.action matches CopyAction::Write { at, len } ==> at == copier.copied
                && event == CopyEvent::Read(Ok(len))
            &&& next.action matches CopyAction::Read { file_offset } ==> file_offset
                == next.copier.file_offset && next.copier.copied < copier.len
        }),
{
}

/// What the host has to do next to map a file.
#[derive(Clone, Copy, Debug, PartialEq, Eq)]
pub enum FileMapAction {
    /// Find the file of the descriptor.
    Resolve,
    /// Try to map the file copy-on-write.
    TryCow,
    /// Map fresh memory and copy the file to it.
    CopyFile,
    /// Patch the code that was mapped at `addr`.
    Patch { addr: usize },
    /// Take the mapping at `addr` back.
    Unmap { addr: usize },
    /// Learn of the file, if it is not known, and note the mapping at `addr`.
    Note { addr: usize },
    Finish(Result<usize, MappingError>),
}

/// What the host answers.
#[derive(Clone, Copy, Debug, PartialEq, Eq)]
pub enum FileMapEvent {
    /// Whether the descriptor is that of a file.
    Resolved(bool),
    /// Where the file was mapped copy-on-write, if it was.
    Cow(Option<usize>),
    /// Where the file was copied to.
    Copied(Result<usize, MappingError>),
    /// Whether the code can run.
    Patched(bool),
    /// The action is done.
    Done,
}

/// What the mapper is waiting for.
#[derive(Clone, Copy, Debug, PartialEq, Eq, Structural)]
pub enum FileMapPhase {
    Resolve,
    TryCow,
    CopyFile,
    Patch { addr: usize },
    Unmap,
    Note { addr: usize },
    End,
}

/// A file being mapped.
#[derive(Clone, Copy, Debug, PartialEq, Eq, Structural)]
pub struct FileMapper {
    pub fd: i32,
    /// Whether the mapping is executable.
    pub executable: bool,
    /// The syscall entry point of the platform, zero if it has none.
    pub entry: usize,
    pub phase: FileMapPhase,
}

/// A mapper and the action that it asks for.
#[derive(Clone, Copy, Debug, PartialEq, Eq)]
pub struct FileMapStep {
    pub mapper: FileMapper,
    pub action: FileMapAction,
}

impl FileMapper {
    /// Whether the event answers what the mapper waits for.
    pub open spec fn accepts(self, event: FileMapEvent) -> bool {
        match self.phase {
            FileMapPhase::Resolve => event is Resolved,
            FileMapPhase::TryCow => event is Cow,
            FileMapPhase::CopyFile => event is Copied,
            FileMapPhase::Patch { .. } => event is Patched,
            FileMapPhase::Unmap | FileMapPhase::Note { .. } => event is Done,
            FileMapPhase::End => false,
        }
    }

    /// Whether the event answers what the mapper waits for.
    pub fn is_answered_by(&self, event: FileMapEvent) -> (answered: bool)
        ensures
            answered == self.accepts(event),
    {
        match self.phase {
            FileMapPhase::Resolve => matches!(event, FileMapEvent::Resolved(_)),
            FileMapPhase::TryCow => matches!(event, FileMapEvent::Cow(_)),
            FileMapPhase::CopyFile => matches!(event, FileMapEvent::Copied(_)),
            FileMapPhase::Patch { .. } => matches!(event, FileMapEvent::Patched(_)),
            FileMapPhase::Unmap | FileMapPhase::Note { .. } => matches!(event, FileMapEvent::Done),
            FileMapPhase::End => false,
        }
    }

    pub open spec fn goes(self, phase: FileMapPhase, action: FileMapAction) -> FileMapStep {
        FileMapStep { mapper: FileMapper { phase, ..self }, action }
    }

    pub open spec fn finishes(self, result: Result<usize, MappingError>) -> FileMapStep {
        self.goes(FileMapPhase::End, FileMapAction::Finish(result))
    }

    /// What follows once the file is mapped at `addr`: code is patched if the
    /// platform has an entry point, other mappings are noted, so that they can
    /// be patched when they become executable.
    pub open spec fn after_mapped(self, addr: usize) -> FileMapStep {
        if !self.executable {
            self.goes(FileMapPhase::Note { addr }, FileMapAction::Note { addr })
        } else if self.entry != 0 {
            self.goes(FileMapPhase::Patch { addr }, FileMapAction::Patch { addr })
        } else {
            self.finishes(Ok(addr))
        }
    }

    /// What follows an event that answers what the mapper waits for.
    pub open spec fn next(self, event: FileMapEvent) -> FileMapStep {
        match (self.phase, event) {
            (FileMapPhase::Resolve, FileMapEvent::Resolved(found)) => if found {
                self.goes(FileMapPhase::TryCow, FileMapAction::TryCow)
            } else {
                self.finishes(Err(MappingError::BadFD(self.fd)))
            },
            (FileMapPhase::TryCow, FileMapEvent::Cow(at)) => match at {
                Some(addr) => self.after_mapped(addr),
                None => self.goes(FileMapPhase::CopyFile, FileMapAction::CopyFile),
            },
            (FileMapPhase::CopyFile, FileMapEvent::Copied(at)) => match at {
                Ok(addr) => self.after_mapped(addr),
                Err(e) => self.finishes(Err(e)),
            },
            (FileMapPhase::Patch { addr }, FileMapEvent::Patched(usable)) => if usable {
                self.finishes(Ok(addr))
            } else {
                self.goes(FileMapPhase::Unmap, FileMapAction::Unmap { addr })
            },
            (FileMapPhase::Unmap, FileMapEvent::Done) => self.finishes(
                Err(MappingError::OutOfMemory),
            ),
            (FileMapPhase::Note { addr }, FileMapEvent::Done) => self.finishes(Ok(addr)),
            _ => arbitrary(),
        }
    }

    fn go(self, phase: FileMapPhase, action: FileMapAction) -> (next: FileMapStep)
        ensures
            next == self.goes(phase, action),
    {
        FileMapStep { mapper: FileMapper { phase, ..self }, action }
    }

    fn finish(self, result: Result<usize, MappingError>) -> (next: FileMapStep)
        ensures
            next == self.finishes(result),
    {
        self.go(FileMapPhase::End, FileMapAction::Finish(result))
    }

    fn on_mapped(self, addr: usize) -> (next: FileMapStep)
        ensures
            next == self.after_mapped(addr),
    {
        if !self.executable {
            self.go(FileMapPhase::Note { addr }, FileMapAction::Note { addr })
        } else if self.entry != 0 {
            self.go(FileMapPhase::Patch { addr }, FileMapAction::Patch { addr })
        } else {
            self.finish(Ok(addr))
        }
    }

    /// The first action of mapping a file.
    pub fn start(fd: i32, prot: ProtFlags, entry: usize) -> (first: FileMapStep)
        ensures
            first == (FileMapStep {
                mapper: FileMapper {
                    fd,
                    executable: prot.execute,
                    entry,
                    phase: FileMapPhase::Resolve,
                },
                action: FileMapAction::Resolve,
            }),
            begins_to_map(first),
            prot.execute <==> first.mapper.executable,
            first.mapper.entry == entry,
            first.mapper.fd == fd,
    {
        FileMapStep {
            mapper: FileMapper {
                fd,
                executable: prot.execute,
                entry,
                phase: FileMapPhase::Resolve,
            },
            action: FileMapAction::Resolve,
        }
    }

    /// Takes the reply of the host and returns what it has to do next.
    pub fn step(&mut self, event: FileMapEvent) -> (action: FileMapAction)
        requires
            old(self).accepts(event),
        ensures
            (FileMapStep { mapper: *final(self), action }) == old(self).next(event),
    {
        let now = *self;
        let next = match (now.phase, event) {
            (FileMapPhase::Resolve, FileMapEvent::Resolved(found)) => if found {
                now.go(FileMapPhase::TryCow, FileMapAction::TryCow)
            } else {
                now.finish(Err(MappingError::BadFD(now.fd)))
            },
            (FileMapPhase::TryCow, FileMapEvent::Cow(at)) => match at {
                Some(addr) => now.on_mapped(addr),
                None => now.go(FileMapPhase::CopyFile, FileMapAction::CopyFile),
            },
            (FileMapPhase::CopyFile, FileMapEvent::Copied(at)) => match at {
                Ok(addr) => now.on_mapped(addr),
                Err(e) => now.finish(Err(e)),
            },
            (FileMapPhase::Patch { addr }, FileMapEvent::Patched(usable)) => if usable {
                now.finish(Ok(addr))
            } else {
                now.go(FileMapPhase::Unmap, FileMapAction::Unmap { addr })
            },
            (FileMapPhase::Note { addr }, FileMapEvent::Done) => now.finish(Ok(addr)),
            _ => now.finish(Err(MappingError::OutOfMemory)),
        };
        *self = next.mapper;
        next.action
    }
}

/// Executable code that cannot run is never handed out: where patching fails,
/// the mapping is taken back and the request fails for want of memory.
pub proof fn unusable_code_is_unmapped(mapper: FileMapper, addr: usize)
    requires
        mapper.phase == (FileMapPhase::Patch { addr }),
    ensures
        ({
            let back = mapper.next(FileMapEvent::Patched(false));
            &&& back.action == (FileMapAction::Unmap { addr })
            &&& back.mapper.next(FileMapEvent::Done).action == FileMapAction::Finish(
                Err(MappingError::OutOfMemory),
            )
        }),
{
}

/// What has come of mapping a file: where the host put it, and what was done
/// with the mapping since.
pub struct MapWorld {
    pub mapped: Option<usize>,
    pub patched: Set<usize>,
    pub noted: Set<usize>,
    /// What the last copy gave, if it failed.
    pub refused: Option<MappingError>,
}

impl MapWorld {
    /// Nothing is mapped yet.
    pub open spec fn untouched() -> MapWorld {
        MapWorld { mapped: None, patched: Set::empty(), noted: Set::empty(), refused: None }
    }

    /// What an action does, given what the host answered.
    pub open spec fn step(self, action: FileMapAction, event: FileMapEvent) -> MapWorld {
        match (action, event) {
            (FileMapAction::TryCow, FileMapEvent::Cow(Some(addr))) => MapWorld {
                mapped: Some(addr),
                ..self
            },
            (FileMapAction::CopyFile, FileMapEvent::Copied(Ok(addr))) => MapWorld {
                mapped: Some(addr),
                ..self
            },
            (FileMapAction::CopyFile, FileMapEvent::Copied(Err(e))) => MapWorld {
                refused: Some(e),
                ..self
            },
            (FileMapAction::Patch { addr }, FileMapEvent::Patched(true)) => MapWorld {
                patched: self.patched.insert(addr),
                ..self
            },
            (FileMapAction::Unmap { addr }, FileMapEvent::Done) => MapWorld {
                mapped: if self.mapped == Some(addr) {
                    None
                } else {
                    self.mapped
                },
                ..self
            },
            (FileMapAction::Note { addr }, FileMapEvent::Done) => MapWorld {
                noted: self.noted.insert(addr),
                ..self
            },
            _ => self,
        }
    }
}

/// Whether the host can give these answers, one after the other.
pub open spec fn is_map_run(now: FileMapStep, events: Seq<FileMapEvent>) -> bool
    decreases events.len(),
{
    events.len() > 0 ==> now.mapper.accepts(events[0]) && is_map_run(
        now.mapper.next(events[0]),
        events.drop_first(),
    )
}

/// The mapper and the world after these answers.
pub open spec fn after_mapping(now: FileMapStep, w: MapWorld, events: Seq<FileMapEvent>) -> (
    FileMapStep,
    MapWorld,
)
    decreases events.len(),
{
    if events.len() == 0 {
        (now, w)
    } else {
        after_mapping(
            now.mapper.next(events[0]),
            w.step(now.action, events[0]),
            events.drop_first(),
        )
    }
}

/// Whether mapping a file begins here.
pub open spec fn begins_to_map(first: FileMapStep) -> bool {
    first.mapper.phase == FileMapPhase::Resolve && first.action == FileMapAction::Resolve
}

spec fn map_inv(first: FileMapStep, now: FileMapStep, w: MapWorld) -> bool {
    let m = now.mapper;
    &&& m.fd == first.mapper.fd && m.executable == first.mapper.executable && m.entry
        == first.mapper.entry
    &&& match m.phase {
        FileMapPhase::Resolve => now.action == FileMapAction::Resolve && w
            == MapWorld::untouched(),
        FileMapPhase::TryCow => now.action == FileMapAction::TryCow && w == MapWorld::untouched(),
        FileMapPhase::CopyFile => now.action == FileMapAction::CopyFile && w
            == MapWorld::untouched(),
        FileMapPhase::Patch { addr } => {
            &&& now.action == (FileMapAction::Patch { addr })
            &&& w == MapWorld { mapped: Some(addr), ..MapWorld::untouched() }
            &&& m.executable && m.entry != 0
        },
        FileMapPhase::Unmap => {
            &&& now.action matches FileMapAction::Unmap { addr } && w == (MapWorld {
                mapped: Some(addr),
                ..MapWorld::untouched()
            })
            &&& m.executable && m.entry != 0
        },
        FileMapPhase::Note { addr } => {
            &&& now.action == (FileMapAction::Note { addr })
            &&& w == MapWorld { mapped: Some(addr), ..MapWorld::untouched() }
            &&& !m.executable
        },
        FileMapPhase::End => match now.action {
            FileMapAction::Finish(Ok(addr)) => {
                &&& w.mapped == Some(addr)
                &&& m.executable && m.entry != 0 ==> w.patched.contains(addr)
                &&& !m.executable ==> w.noted.contains(addr)
            },
            FileMapAction::Finish(Err(e)) => {
                &&& w.mapped is None
                &&& e == MappingError::BadFD(m.fd) || w.refused == Some(e) || (e
                    == MappingError::OutOfMemory && m.executable && m.entry != 0)
            },
            _ => false,
        },
    }
}

proof fn map_run_keeps(
    first: FileMapStep,
    now: FileMapStep,
    w: MapWorld,
    events: Seq<FileMapEvent>,
)
    requires
        map_inv(first, now, w),
        is_map_run(now, events),
    ensures
        ({
            let (end, world) = after_mapping(now, w, events);
            map_inv(first, end, world)
        }),
    decreases events.len(),
{
    if events.len() > 0 {
        map_run_keeps(
            first,
            now.mapper.next(events[0]),
            w.step(now.action, events[0]),
            events.drop_first(),
        );
    }
}

/// Code is patched before it is handed out: whenever mapping an executable file
/// ends well on a platform with a syscall entry point, the mapping that is
/// returned was patched and found usable, however the file got there.
pub proof fn executable_mappings_are_patched(first: FileMapStep, events: Seq<FileMapEvent>)
    requires
        begins_to_map(first),
        is_map_run(first, events),
        first.mapper.executable,
        first.mapper.entry != 0,
    ensures
        ({
            let (end, world) = after_mapping(first, MapWorld::untouched(), events);
            end.action matches FileMapAction::Finish(Ok(addr)) ==> world.patched.contains(addr)
        }),
{
    map_run_keeps(first, first, MapWorld::untouched(), events);
}

/// A mapping that is not executable is noted before it is handed out, so that
/// it can be patched once it becomes executable. It is not patched before.
pub proof fn other_mappings_are_noted(first: FileMapStep, events: Seq<FileMapEvent>)
    requires
        begins_to_map(first),
        is_map_run(first, events),
        !first.mapper.executable,
    ensures
        ({
            let (end, world) = after_mapping(first, MapWorld::untouched(), events);
            &&& end.action matches FileMapAction::Finish(Ok(addr)) ==> world.noted.contains(addr)
            &&& !(end.action is Patch)
        }),
{
    map_run_keeps(first, first, MapWorld::untouched(), events);
}

/// What is returned is where the host put the file, and it is still there. A
/// request that fails leaves nothing mapped, and its error is that of the
/// descriptor, that of the copy, or want of memory where code cannot be patched.
pub proof fn mapping_is_all_or_nothing(first: FileMapStep, events: Seq<FileMapEvent>)
    requires
        begins_to_map(first),
        is_map_run(first, events),
    ensures
        ({
            let (end, world) = after_mapping(first, MapWorld::untouched(), events);
            match end.action {
                FileMapAction::Finish(Ok(addr)) => world.mapped == Some(addr),
                FileMapAction::Finish(Err(e)) => {
                    &&& world.mapped is None
                    &&& e == MappingError::BadFD(first.mapper.fd) || world.refused == Some(e) || (e
                        == MappingError::OutOfMemory && first.mapper.executable
                        && first.mapper.entry != 0)
                },
                FileMapAction::Patch { addr } => world.mapped == Some(addr),
                FileMapAction::Note { addr } => world.mapped == Some(addr),
                FileMapAction::Unmap { addr } => world.mapped == Some(addr),
                _ => world.mapped is None,
            }
        }),
{
    map_run_keeps(first, first, MapWorld::untouched(), events);
}

/// A file is copied only where it cannot be mapped copy-on-write.
pub proof fn files_are_copied_as_a_last_resort(mapper: FileMapper, event: FileMapEvent)
    requires
        mapper.accepts(event),
    ensures
        mapper.next(event).action == FileMapAction::CopyFile <==> event == FileMapEvent::Cow(None),
        mapper.next(event).action == FileMapAction::TryCow <==> event == FileMapEvent::Resolved(
            true,
        ),
        event == FileMapEvent::Resolved(false) ==> mapper.next(event).action
            == FileMapAction::Finish(Err(MappingError::BadFD(mapper.fd))),
{
}

/// What has come of copying a file: how many bytes are in memory, and whether the
/// file has come to its end.
pub struct CopyWorld {
    pub written: int,
    pub at_end: bool,
    /// How many bytes of the file the buffer holds, and where they come from.
    pub buffer: Option<(int, int)>,
}

impl CopyWorld {
    /// Nothing is copied yet.
    pub open spec fn untouched() -> CopyWorld {
        CopyWorld { written: 0, at_end: false, buffer: None }
    }

    /// What an action does, given what the host answered. Bytes count as copied
    /// only where they continue the ones before.
    pub open spec fn step(self, offset: usize, action: CopyAction, event: CopyEvent) -> CopyWorld {
        match (action, event) {
            (CopyAction::Read { file_offset }, CopyEvent::Read(Ok(size))) => CopyWorld {
                at_end: size == 0,
                buffer: Some((file_offset as int, size as int)),
                ..self
            },
            (CopyAction::Write { at, len }, CopyEvent::Written(true)) => CopyWorld {
                written: if at == self.written && self.buffer == Some((offset + at, len as int)) {
                    self.written + len
                } else {
                    self.written
                },
                buffer: None,
                ..self
            },
            _ => self,
        }
    }
}

/// Whether the host can give these answers, one after the other: no more comes of
/// a file than there are addresses for.
pub open spec fn is_copy_run(now: Copying, events: Seq<CopyEvent>) -> bool
    decreases events.len(),
{
    events.len() > 0 ==> {
        &&& now.copier.accepts(events[0])
        &&& events[0] matches CopyEvent::Read(Ok(size)) ==> now.copier.copied + size <= usize::MAX
            && now.copier.file_offset + size <= usize::MAX
        &&& is_copy_run(now.copier.next(events[0]), events.drop_first())
    }
}

/// The copier and the world after these answers.
pub open spec fn after_copy(
    now: Copying,
    w: CopyWorld,
    offset: usize,
    events: Seq<CopyEvent>,
) -> (Copying, CopyWorld)
    decreases events.len(),
{
    if events.len() == 0 {
        (now, w)
    } else {
        after_copy(
            now.copier.next(events[0]),
            w.step(offset, now.action, events[0]),
            offset,
            events.drop_first(),
        )
    }
}

spec fn copy_inv(len: usize, offset: usize, now: Copying, w: CopyWorld) -> bool {
    let c = now.copier;
    &&& c.len == len
    &&& c.copied == w.written
    &&& c.file_offset == offset + c.copied
    &&& if c.ended {
        match now.action {
            CopyAction::Finish(Ok(n)) => n == w.written && (w.at_end || w.written >= len),
            CopyAction::Finish(Err(_)) => true,
            CopyAction::Unsupported(_) => true,
            CopyAction::WriteFault => true,
            _ => false,
        }
    } else {
        &&& !w.at_end
        &&& w.written < len
        &&& match c.writing {
            None => now.action == (CopyAction::Read { file_offset: c.file_offset }),
            Some(size) => {
                &&& now.action == (CopyAction::Write { at: c.copied, len: size })
                &&& w.buffer == Some((offset + c.copied, size as int))
                &&& c.copied + size <= usize::MAX
                &&& c.file_offset + size <= usize::MAX
            },
        }
    }
}

proof fn copy_run_keeps(
    len: usize,
    offset: usize,
    now: Copying,
    w: CopyWorld,
    events: Seq<CopyEvent>,
)
    requires
        copy_inv(len, offset, now, w),
        is_copy_run(now, events),
    ensures
        ({
            let (end, world) = after_copy(now, w, offset, events);
            copy_inv(len, offset, end, world)
        }),
    decreases events.len(),
{
    if events.len() > 0 {
        copy_run_keeps(
            len,
            offset,
            now.copier.next(events[0]),
            w.step(offset, now.action, events[0]),
            events.drop_first(),
        );
    }
}

/// A file is copied from its offset on, each byte as far behind the start of the
/// memory as it is behind the offset, and the copy ends well only once the memory
/// is full or the file has come to its end. What it returns is how many bytes
/// were copied.
pub proof fn files_are_copied_whole(len: usize, offset: usize, events: Seq<CopyEvent>)
    requires
        ({
            let copier = FileCopier {
                len,
                file_offset: offset,
                copied: 0,
                writing: None,
                ended: false,
            };
            is_copy_run(copier.reads_on(), events)
        }),
    ensures
        ({
            let copier = FileCopier {
                len,
                file_offset: offset,
                copied: 0,
                writing: None,
                ended: false,
            };
            let (end, w) = after_copy(copier.reads_on(), CopyWorld::untouched(), offset, events);
            &&& end.action matches CopyAction::Finish(Ok(n)) ==> n == w.written && (w.at_end || n
                >= len)
            &&& end.action matches CopyAction::Read { file_offset } ==> file_offset == offset
                + w.written && w.written < len && !w.at_end
            &&& end.action matches CopyAction::Write { at, len: size } ==> at == w.written
                && w.buffer == Some((offset + at, size as int))
        }),
{
    let copier = FileCopier { len, file_offset: offset, copied: 0, writing: None, ended: false };
    copy_run_keeps(len, offset, copier.reads_on(), CopyWorld::untouched(), events);
}

/// A copy fails with the error of reading the file: that there is no such file,
/// that it is a directory, or that it cannot be read. Other errors of reading,
/// and memory that cannot be written, are no result of a mapping.
pub proof fn copy_errors_come_from_reading(copier: FileCopier, event: CopyEvent)
    requires
        copier.accepts(event),
    ensures
        match copier.next(event).action {
            CopyAction::Finish(Err(MappingError::BadFD(_))) => event == CopyEvent::Read(
                Err(Errno::EBADF),
            ),
            CopyAction::Finish(Err(MappingError::NotAFile)) => event == CopyEvent::Read(
                Err(Errno::EISDIR),
            ),
            CopyAction::Finish(Err(MappingError::NotForReading)) => event == CopyEvent::Read(
                Err(Errno::EACCES),
            ),
            CopyAction::Finish(Err(MappingError::OutOfMemory)) => false,
            CopyAction::Unsupported(e) => event == CopyEvent::Read(Err(e)) && e != Errno::EBADF
                && e != Errno::EISDIR && e != Errno::EACCES,
            CopyAction::WriteFault => event == CopyEvent::Written(false),
            _ => !(event matches CopyEvent::Read(Err(_))) && event != CopyEvent::Written(false),
        },
{
}

/// Nothing gives way to a mapping unless the guest insists on its address, and
/// does not ask that nothing be replaced.
pub proof fn only_fixed_mappings_replace(flags: MapFlags)
    ensures
        behavior_of(flags) is Replace <==> flags.fixed && !flags.fixed_noreplace,
        behavior_of(flags) is NoReplace <==> flags.fixed_noreplace,
        behavior_of(flags) is Hint <==> !flags.fixed && !flags.fixed_noreplace,
{
}

/// A file that is shared is never mapped to be written, and no flag is passed
/// over that would change what a mapping is.
pub proof fn shared_files_are_not_written(prot: ProtFlags, flags: MapFlags)
    requires
        is_supported(prot, flags),
    ensures
        prot.write && !flags.anonymous ==> !flags.shared,
        !flags.grows_down && !flags.locked && !flags.huge_tlb && !flags.low_32bit && !flags.sync
            && !flags.nonblock && !flags.huge_2mb && !flags.huge_1gb,
{
}

} // verus!
