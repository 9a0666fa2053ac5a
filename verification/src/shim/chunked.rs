//! Reading a file to the memory of a guest, piece by piece.

use vstd::prelude::*;
use vstd::string::StringExecFns;

use crate::arith::wrap_add;
use crate::errno::Errno;
use crate::shim::requests::{signed64, small, MAX_KERNEL_BUF_SIZE};
use crate::text::{decimal, decimal_digits};

verus! {

/// Why reading cannot go on and the process has to stop.
#[derive(Clone, Copy, Debug, PartialEq, Eq, Structural)]
pub enum ReadFailure {
    NotSeekable,
    NoOffset,
    UnexpectedSeekError(Errno),
    OffsetTooLarge,
    SeekFailed,
}

impl ReadFailure {
    /// The failure in words.
    pub open spec fn text(self) -> Seq<char> {
        match self {
            ReadFailure::NotSeekable => "read on non-seekable fds with large buffers"@,
            ReadFailure::NoOffset =>
                "seekable file should not return EINVAL when getting current offset"@,
            ReadFailure::UnexpectedSeekError(e) => "unexpected error from lseek: "@
                + decimal_digits(e.code() as nat),
            ReadFailure::OffsetTooLarge => "file offset is out of range"@,
            ReadFailure::SeekFailed => "lseek failed"@,
        }
    }

    /// The failure in words.
    pub fn message(self) -> (message: String)
        ensures
            message@ == self.text(),
    {
        match self {
            ReadFailure::NotSeekable => String::from_str(
                "read on non-seekable fds with large buffers",
            ),
            ReadFailure::NoOffset => String::from_str(
                "seekable file should not return EINVAL when getting current offset",
            ),
            ReadFailure::UnexpectedSeekError(e) => {
                let mut text = String::from_str("unexpected error from lseek: ");
                let number: i32 = -e.as_neg();
                text.append(decimal(number as u64).as_str());
                text
            },
            ReadFailure::OffsetTooLarge => String::from_str("file offset is out of range"),
            ReadFailure::SeekFailed => String::from_str("lseek failed"),
        }
    }
}

/// What the host has to do next.
#[allow(inconsistent_fields)]
#[derive(Clone, Copy, Debug, PartialEq, Eq)]
pub enum ReadAction {
    /// Find the file of the descriptor.
    Resolve { fd: i32 },
    /// Tell where the file stands.
    Tell,
    /// Read at most `len` bytes of the file to the buffer.
    ReadAt { offset: usize, len: usize },
    /// Write the first `len` bytes of the buffer to the guest, `at` bytes past
    /// its pointer.
    Put { ptr: usize, at: usize, len: usize },
    /// Move the file to the offset, counted from its beginning.
    SeekTo { offset: i64 },
    Finish(Result<usize, Errno>),
    Fatal(ReadFailure),
}

/// What the host answers.
#[derive(Clone, Copy, Debug, PartialEq, Eq)]
pub enum ReadEvent {
    /// The error, if the descriptor is not that of a file.
    Resolved(Option<Errno>),
    Told(Result<usize, Errno>),
    Read(Result<usize, Errno>),
    /// Whether the guest's memory could be written.
    Put(bool),
    /// Whether the file was moved.
    Sought(bool),
}

/// What the reader is waiting for.
#[derive(Clone, Copy, Debug, PartialEq, Eq, Structural)]
pub enum ReadPhase {
    Resolve,
    Tell,
    Read { len: usize },
    Put { len: usize },
    Seek,
    End,
}

/// A file being read to the memory of a guest.
#[derive(Clone, Copy, Debug, PartialEq, Eq, Structural)]
pub struct ChunkReader {
    pub fd: i32,
    /// Where the bytes go, and how many are wanted.
    pub buf: usize,
    pub count: usize,
    /// Where in the file they come from. `None` until the file has told where
    /// it stands; then it is moved when all is read.
    pub offset: Option<i64>,
    pub moves: bool,
    /// How many bytes have been read.
    pub total: usize,
    pub phase: ReadPhase,
}

/// A reader and the action that it asks for.
#[derive(Clone, Copy, Debug, PartialEq, Eq)]
pub struct Reading {
    pub reader: ChunkReader,
    pub action: ReadAction,
}

impl ChunkReader {
    pub open spec fn wf(self) -> bool {
        &&& self.total <= self.count
        &&& match self.phase {
            ReadPhase::Read { len } => len <= self.count - self.total && len
                <= MAX_KERNEL_BUF_SIZE && self.offset is Some,
            ReadPhase::Put { len } => 0 < len <= self.count - self.total && self.offset is Some,
            ReadPhase::Seek => self.offset is Some,
            ReadPhase::Resolve => self.moves == self.offset is None,
            ReadPhase::Tell => self.moves,
            ReadPhase::End => true,
        }
    }

    /// Whether the event answers what the reader waits for. No more comes back
    /// than was asked for.
    pub open spec fn accepts(self, event: ReadEvent) -> bool {
        match self.phase {
            ReadPhase::Resolve => event is Resolved,
            ReadPhase::Tell => event is Told,
            ReadPhase::Read { len } => event matches ReadEvent::Read(r) && (r matches Ok(n) ==> n
                <= len),
            ReadPhase::Put { .. } => event is Put,
            ReadPhase::Seek => event is Sought,
            ReadPhase::End => false,
        }
    }

    /// Whether the event answers what the reader waits for.
    pub fn is_answered_by(&self, event: ReadEvent) -> (answered: bool)
        ensures
            answered == self.accepts(event),
    {
        match self.phase {
            ReadPhase::Resolve => matches!(event, ReadEvent::Resolved(_)),
            ReadPhase::Tell => matches!(event, ReadEvent::Told(_)),
            ReadPhase::Read { len } => match event {
                ReadEvent::Read(Ok(n)) => n <= len,
                ReadEvent::Read(Err(_)) => true,
                _ => false,
            },
            ReadPhase::Put { .. } => matches!(event, ReadEvent::Put(_)),
            ReadPhase::Seek => matches!(event, ReadEvent::Sought(_)),
            ReadPhase::End => false,
        }
    }

    pub open spec fn goes(self, phase: ReadPhase, action: ReadAction) -> Reading {
        Reading { reader: ChunkReader { phase, ..self }, action }
    }

    pub open spec fn finishes(self, result: Result<usize, Errno>) -> Reading {
        self.goes(ReadPhase::End, ReadAction::Finish(result))
    }

    pub open spec fn fails(self, failure: ReadFailure) -> Reading {
        self.goes(ReadPhase::End, ReadAction::Fatal(failure))
    }

    /// How much is read next: all that is left, as far as the buffer goes.
    pub open spec fn piece(self) -> usize {
        let left = (self.count - self.total) as usize;
        if left < MAX_KERNEL_BUF_SIZE {
            left
        } else {
            MAX_KERNEL_BUF_SIZE
        }
    }

    /// Where in the file the next piece is.
    pub open spec fn place(self) -> int {
        self.offset->0 + signed64(self.total as int)
    }

    /// What follows once all is read, or the file has come to its end.
    pub open spec fn has_read(self) -> Reading {
        if self.moves {
            self.goes(
                ReadPhase::Seek,
                ReadAction::SeekTo {
                    offset: signed64(
                        wrap_add(self.offset->0 as usize, self.total) as int,
                    ) as i64,
                },
            )
        } else {
            self.finishes(Ok(self.total))
        }
    }

    /// Reads on, unless all is read.
    pub open spec fn reads_on(self) -> Reading {
        if self.total >= self.count {
            self.has_read()
        } else if 0 <= self.place() <= i64::MAX {
            self.goes(
                ReadPhase::Read { len: self.piece() },
                ReadAction::ReadAt { offset: self.place() as usize, len: self.piece() },
            )
        } else {
            self.finishes(Err(Errno::EINVAL))
        }
    }

    /// What follows an event that answers what the reader waits for.
    pub open spec fn next(self, event: ReadEvent) -> Reading {
        match event {
            ReadEvent::Resolved(error) => match error {
                Some(e) => self.finishes(Err(e)),
                None => if self.moves {
                    self.goes(ReadPhase::Tell, ReadAction::Tell)
                } else {
                    self.reads_on()
                },
            },
            ReadEvent::Told(place) => match place {
                Ok(at) => if at <= i64::MAX {
                    ChunkReader { offset: Some(at as i64), ..self }.reads_on()
                } else {
                    self.fails(ReadFailure::OffsetTooLarge)
                },
                Err(Errno::EBADF) => self.finishes(Err(Errno::EBADF)),
                Err(Errno::ESPIPE) => self.fails(ReadFailure::NotSeekable),
                Err(Errno::EINVAL) => self.fails(ReadFailure::NoOffset),
                Err(e) => self.fails(ReadFailure::UnexpectedSeekError(e)),
            },
            ReadEvent::Read(read) => match read {
                Ok(n) => if n == 0 {
                    self.has_read()
                } else {
                    self.goes(
                        ReadPhase::Put { len: n },
                        ReadAction::Put { ptr: self.buf, at: self.total, len: n },
                    )
                },
                Err(e) => self.finishes(Err(e)),
            },
            ReadEvent::Put(done) => if done {
                ChunkReader { total: (self.total + self.put_len()) as usize, ..self }.reads_on()
            } else {
                self.finishes(Err(Errno::EFAULT))
            },
            ReadEvent::Sought(done) => if done {
                self.finishes(Ok(self.total))
            } else {
                self.fails(ReadFailure::SeekFailed)
            },
        }
    }

    /// How many bytes are being written to the guest.
    pub open spec fn put_len(self) -> usize {
        match self.phase {
            ReadPhase::Put { len } => len,
            _ => 0,
        }
    }

    fn go(self, phase: ReadPhase, action: ReadAction) -> (next: Reading)
        ensures
            next == self.goes(phase, action),
    {
        Reading { reader: ChunkReader { phase, ..self }, action }
    }

    fn finish(self, result: Result<usize, Errno>) -> (next: Reading)
        ensures
            next == self.finishes(result),
    {
        self.go(ReadPhase::End, ReadAction::Finish(result))
    }

    fn fail(self, failure: ReadFailure) -> (next: Reading)
        ensures
            next == self.fails(failure),
    {
        self.go(ReadPhase::End, ReadAction::Fatal(failure))
    }

    fn done_reading(self, start: i64) -> (next: Reading)
        requires
            self.wf(),
            self.offset == Some(start),
        ensures
            next == self.has_read(),
            next.reader.wf(),
    {
        if self.moves {
            let end: u64 = (start as usize).wrapping_add(self.total) as u64;
            let offset: i64 = if end <= i64::MAX as u64 {
                end as i64
            } else {
                -((u64::MAX - end) as i64) - 1
            };
            self.go(ReadPhase::Seek, ReadAction::SeekTo { offset })
        } else {
            self.finish(Ok(self.total))
        }
    }

    fn read_on(self, start: i64) -> (next: Reading)
        requires
            self.total <= self.count,
            self.offset == Some(start),
        ensures
            next == self.reads_on(),
            next.reader.wf(),
    {
        if self.total >= self.count {
            let ended = ChunkReader { phase: ReadPhase::Seek, ..self };
            return ended.done_reading(start);
        }
        let total: u64 = self.total as u64;
        let gone: i64 = if total <= i64::MAX as u64 {
            total as i64
        } else {
            -((u64::MAX - total) as i64) - 1
        };
        let Some(place) = start.checked_add(gone) else {
            return self.finish(Err(Errno::EINVAL));
        };
        if place < 0 {
            return self.finish(Err(Errno::EINVAL));
        }
        let left: usize = self.count - self.total;
        let len: usize = small(left);
        self.go(ReadPhase::Read { len }, ReadAction::ReadAt { offset: place as usize, len })
    }

    /// The first action of reading `count` bytes of the file from `offset` on.
    pub fn pread_with_user_buf(fd: i32, buf: usize, count: usize, offset: i64) -> (first: Reading)
        ensures
            first == (Reading {
                reader: ChunkReader {
                    fd,
                    buf,
                    count,
                    offset: Some(offset),
                    moves: false,
                    total: 0,
                    phase: ReadPhase::Resolve,
                },
                action: ReadAction::Resolve { fd },
            }),
            first.reader.wf(),
            begins_to_read(first),
            first.reader.buf == buf && first.reader.count == count,
    {
        Reading {
            reader: ChunkReader {
                fd,
                buf,
                count,
                offset: Some(offset),
                moves: false,
                total: 0,
                phase: ReadPhase::Resolve,
            },
            action: ReadAction::Resolve { fd },
        }
    }

    /// The first action of reading `count` bytes of the file from where it
    /// stands.
    pub fn read_from_here(fd: i32, buf: usize, count: usize) -> (first: Reading)
        ensures
            first == (Reading {
                reader: ChunkReader {
                    fd,
                    buf,
                    count,
                    offset: None,
                    moves: true,
                    total: 0,
                    phase: ReadPhase::Resolve,
                },
                action: ReadAction::Resolve { fd },
            }),
            first.reader.wf(),
            begins_to_read(first),
            first.reader.buf == buf && first.reader.count == count,
    {
        Reading {
            reader: ChunkReader {
                fd,
                buf,
                count,
                offset: None,
                moves: true,
                total: 0,
                phase: ReadPhase::Resolve,
            },
            action: ReadAction::Resolve { fd },
        }
    }

    /// Takes the reply of the host and returns what it has to do next.
    pub fn step(&mut self, event: ReadEvent) -> (action: ReadAction)
        requires
            old(self).wf(),
            old(self).accepts(event),
        ensures
            (Reading { reader: *final(self), action }) == old(self).next(event),
            final(self).wf(),
    {
        let now = *self;
        let next = match event {
            ReadEvent::Resolved(Some(e)) => now.finish(Err(e)),
            ReadEvent::Resolved(None) => match now.offset {
                None => now.go(ReadPhase::Tell, ReadAction::Tell),
                Some(start) => now.read_on(start),
            },
            ReadEvent::Told(Ok(at)) => {
                if at as u64 <= i64::MAX as u64 {
                    let placed = ChunkReader { offset: Some(at as i64), ..now };
                    placed.read_on(at as i64)
                } else {
                    now.fail(ReadFailure::OffsetTooLarge)
                }
            },
            ReadEvent::Told(Err(e)) => match e {
                Errno::EBADF => now.finish(Err(Errno::EBADF)),
                Errno::ESPIPE => now.fail(ReadFailure::NotSeekable),
                Errno::EINVAL => now.fail(ReadFailure::NoOffset),
                _ => now.fail(ReadFailure::UnexpectedSeekError(e)),
            },
            ReadEvent::Read(Ok(n)) => {
                if n == 0 {
                    match now.offset {
                        Some(start) => now.done_reading(start),
                        None => now.finish(Err(Errno::EINVAL)),
                    }
                } else {
                    now.go(
                        ReadPhase::Put { len: n },
                        ReadAction::Put { ptr: now.buf, at: now.total, len: n },
                    )
                }
            },
            ReadEvent::Read(Err(e)) => now.finish(Err(e)),
            ReadEvent::Put(done) => match (now.phase, now.offset) {
                (ReadPhase::Put { len }, Some(start)) => if done {
                    let on = ChunkReader { total: now.total + len, ..now };
                    on.read_on(start)
                } else {
                    now.finish(Err(Errno::EFAULT))
                },
                _ => now.finish(Err(Errno::EFAULT)),
            },
            ReadEvent::Sought(done) => if done {
                now.finish(Ok(now.total))
            } else {
                now.fail(ReadFailure::SeekFailed)
            },
        };
        *self = next.reader;
        next.action
    }
}

/// Reading never hands over more than was asked for, and each piece goes to
/// the guest right behind those before it, from the same place in the file.
pub proof fn pieces_are_contiguous(reader: ChunkReader, event: ReadEvent)
    requires
        reader.wf(),
        reader.accepts(event),
    ensures
        ({
            let next = reader.next(event);
            &&& next.reader.count == reader.count
            &&& next.reader.total >= reader.total
            &&& next.action matches ReadAction::Finish(Ok(n)) ==> n <= reader.count
            &&& next.action matches ReadAction::Put { ptr, at, len } ==> ptr == reader.buf && at
                == reader.total && at + len <= reader.count
            &&& next.action matches ReadAction::ReadAt { offset, len } ==> {
                &&& offset == next.reader.place() as usize
                &&& len <= MAX_KERNEL_BUF_SIZE
                &&& next.reader.total + len <= reader.count
            }
        }),
{
}

/// A file that is read from where it stands is moved by what was read, and by
/// nothing else.
pub proof fn file_moves_by_what_was_read(reader: ChunkReader)
    requires
        reader.wf(),
        reader.moves,
        reader.offset matches Some(at) && at >= 0 && at + reader.total <= i64::MAX,
        i64::MAX <= usize::MAX,
    ensures
        reader.has_read().action == (ReadAction::SeekTo {
            offset: (reader.offset->0 + reader.total) as i64,
        }),
        reader.has_read().reader.next(ReadEvent::Sought(true)).action == ReadAction::Finish(
            Ok(reader.total),
        ),
{
}

/// What has come of reading a file: where it was first found to stand, how many
/// bytes the guest has been given, whether the file has come to its end, and
/// where it was moved to.
pub struct ReadWorld {
    pub told: Option<usize>,
    pub put: int,
    pub at_end: bool,
    pub moved: Option<i64>,
}

impl ReadWorld {
    /// Nothing has been read yet.
    pub open spec fn untouched() -> ReadWorld {
        ReadWorld { told: None, put: 0, at_end: false, moved: None }
    }

    /// What an action does, given what the host answered.
    pub open spec fn step(self, action: ReadAction, event: ReadEvent) -> ReadWorld {
        match (action, event) {
            (ReadAction::Tell, ReadEvent::Told(Ok(at))) => ReadWorld { told: Some(at), ..self },
            (ReadAction::ReadAt { .. }, ReadEvent::Read(Ok(n))) => ReadWorld {
                at_end: n == 0,
                ..self
            },
            (ReadAction::Put { len, .. }, ReadEvent::Put(true)) => ReadWorld {
                put: self.put + len,
                ..self
            },
            (ReadAction::SeekTo { offset }, ReadEvent::Sought(true)) => ReadWorld {
                moved: Some(offset),
                ..self
            },
            _ => self,
        }
    }
}

/// Whether the host can give these answers, one after the other.
pub open spec fn is_read_run(now: Reading, events: Seq<ReadEvent>) -> bool
    decreases events.len(),
{
    events.len() > 0 ==> now.reader.accepts(events[0]) && is_read_run(
        now.reader.next(events[0]),
        events.drop_first(),
    )
}

/// The reader and the world after these answers.
pub open spec fn after_reading(now: Reading, w: ReadWorld, events: Seq<ReadEvent>) -> (
    Reading,
    ReadWorld,
)
    decreases events.len(),
{
    if events.len() == 0 {
        (now, w)
    } else {
        after_reading(
            now.reader.next(events[0]),
            w.step(now.action, events[0]),
            events.drop_first(),
        )
    }
}

/// Whether nothing has been read yet.
pub open spec fn begins_to_read(first: Reading) -> bool {
    &&& first.reader.wf()
    &&& first.reader.total == 0
    &&& first.reader.phase == ReadPhase::Resolve
    &&& first.action == (ReadAction::Resolve { fd: first.reader.fd })
}

/// Where the bytes come from: the place that was asked for, or the one where
/// the file was found to stand.
pub open spec fn starts_at(first: Reading, w: ReadWorld) -> Option<int> {
    if first.reader.moves {
        match w.told {
            Some(at) => Some(at as int),
            None => None,
        }
    } else {
        Some(first.reader.offset->0 as int)
    }
}

spec fn read_inv(first: Reading, now: Reading, w: ReadWorld) -> bool {
    let r = now.reader;
    &&& r.wf()
    &&& r.fd == first.reader.fd && r.buf == first.reader.buf && r.count == first.reader.count
        && r.moves == first.reader.moves
    &&& r.total == w.put
    &&& r.moves ==> (r.offset is Some) == (w.told is Some) || r.phase is End
    &&& r.offset matches Some(at) ==> starts_at(first, w) == Some(at as int)
    &&& !r.moves ==> w.moved is None && r.offset == first.reader.offset
    &&& match r.phase {
        ReadPhase::Resolve => {
            &&& now.action == (ReadAction::Resolve { fd: r.fd })
            &&& w.moved is None
            &&& !w.at_end
        },
        ReadPhase::Tell => {
            &&& now.action == ReadAction::Tell
            &&& w.moved is None
            &&& r.offset is None
            &&& !w.at_end
        },
        ReadPhase::Read { len } => {
            &&& now.action matches ReadAction::ReadAt { offset, len: asked } && asked == len
                && offset == r.place() as usize && 0 <= r.place() <= i64::MAX
            &&& 0 < len
            &&& w.moved is None
            &&& !w.at_end
        },
        ReadPhase::Put { len } => now.action == (ReadAction::Put { ptr: r.buf, at: r.total, len })
            && w.moved is None && !w.at_end,
        ReadPhase::Seek => {
            &&& r.moves
            &&& w.at_end || w.put == r.count
            &&& w.moved is None
            &&& now.action == (ReadAction::SeekTo {
                offset: signed64(wrap_add(r.offset->0 as usize, r.total) as int) as i64,
            })
        },
        ReadPhase::End => match now.action {
            ReadAction::Finish(Ok(n)) => {
                &&& n == w.put
                &&& w.at_end || w.put == r.count
                &&& r.offset is Some
                &&& r.moves ==> w.moved == Some(
                    signed64(wrap_add(r.offset->0 as usize, r.total) as int) as i64,
                )
            },
            ReadAction::Finish(Err(_)) => w.moved is None,
            ReadAction::Fatal(_) => r.moves && w.moved is None,
            _ => false,
        },
    }
}

proof fn read_run_keeps(first: Reading, now: Reading, w: ReadWorld, events: Seq<ReadEvent>)
    requires
        read_inv(first, now, w),
        is_read_run(now, events),
        first.reader.wf(),
        first.reader.phase is Resolve,
    ensures
        ({
            let (end, world) = after_reading(now, w, events);
            read_inv(first, end, world)
        }),
    decreases events.len(),
{
    if events.len() > 0 {
        let next = now.reader.next(events[0]);
        assert(read_inv(first, next, w.step(now.action, events[0])));
        read_run_keeps(first, next, w.step(now.action, events[0]), events.drop_first());
    }
}

/// Whoever reads is told how many bytes were put to the guest, no more and no
/// less, whether all that was asked for was read or the file came to its end,
/// and whether or not the file is moved. A success always means one of these
/// two.
pub proof fn reading_reports_what_was_put(first: Reading, events: Seq<ReadEvent>)
    requires
        begins_to_read(first),
        is_read_run(first, events),
    ensures
        ({
            let (end, world) = after_reading(first, ReadWorld::untouched(), events);
            end.action matches ReadAction::Finish(Ok(n)) ==> {
                &&& n == world.put
                &&& n <= first.reader.count
                &&& n < first.reader.count ==> world.at_end
            }
        }),
{
    read_run_keeps(first, first, ReadWorld::untouched(), events);
}

/// Every piece comes from the place in the file that lies as far behind the
/// start as the guest has been given bytes, and goes to the guest as far behind
/// its pointer.
pub proof fn pieces_follow_one_another(first: Reading, events: Seq<ReadEvent>)
    requires
        begins_to_read(first),
        is_read_run(first, events),
    ensures
        ({
            let (now, world) = after_reading(first, ReadWorld::untouched(), events);
            &&& now.action matches ReadAction::ReadAt { offset, len } ==> {
                &&& world.put <= i64::MAX ==> offset == (starts_at(first, world)->0
                    + world.put) as usize
                &&& 0 < len <= first.reader.count - world.put
                &&& !world.at_end
            }
            &&& now.action matches ReadAction::Put { ptr, at, len } ==> {
                &&& ptr == first.reader.buf
                &&& at == world.put
                &&& 0 < len <= first.reader.count - world.put
                &&& events.last() == ReadEvent::Read(Ok(len))
            }
        }),
{
    read_run_keeps(first, first, ReadWorld::untouched(), events);
    last_answer(first, ReadWorld::untouched(), events);
}

/// A reader that finishes well leaves the file behind what it read if it reads
/// from where the file stands. In every other case the file is not moved.
pub proof fn only_finished_readers_move_the_file(first: Reading, events: Seq<ReadEvent>)
    requires
        begins_to_read(first),
        is_read_run(first, events),
        i64::MAX <= usize::MAX,
    ensures
        ({
            let (end, world) = after_reading(first, ReadWorld::untouched(), events);
            &&& end.action is Finish && end.action->Finish_0 is Ok && first.reader.moves ==> {
                &&& world.told matches Some(at) && (at + world.put <= i64::MAX ==> world.moved
                    == Some((at + world.put) as i64))
                &&& world.moved is Some
            }
            &&& !(end.action is Finish && end.action->Finish_0 is Ok) || !first.reader.moves
                ==> world.moved is None
        }),
{
    read_run_keeps(first, first, ReadWorld::untouched(), events);
}

proof fn last_answer(now: Reading, w: ReadWorld, events: Seq<ReadEvent>)
    requires
        is_read_run(now, events),
        now.reader.wf(),
    ensures
        events.len() > 0 ==> {
            let (end, world) = after_reading(now, w, events);
            let (before, _) = after_reading(now, w, events.drop_last());
            &&& before.reader.wf()
            &&& before.reader.accepts(events.last())
            &&& end == before.reader.next(events.last())
        },
    decreases events.len(),
{
    if events.len() > 0 {
        let next = now.reader.next(events[0]);
        let rest = events.drop_first();
        last_answer(next, w.step(now.action, events[0]), rest);
        if rest.len() > 0 {
            assert(events.drop_last().drop_first() =~= rest.drop_last());
            assert(rest.last() == events.last());
            assert(events.drop_last()[0] == events[0]);
        } else {
            assert(events.drop_last() =~= Seq::empty());
        }
    }
}

/// An error comes from the host: from finding the file, from telling where it
/// stands, from reading it, or from memory of the guest that cannot be written.
/// The only one besides is that the place to read from is no place in a file.
pub proof fn read_errors_come_from_the_host(reader: ChunkReader, event: ReadEvent, e: Errno)
    requires
        reader.wf(),
        reader.accepts(event),
        reader.next(event).action == ReadAction::Finish(Err(e)),
    ensures
        match event {
            ReadEvent::Resolved(Some(told)) => e == told,
            ReadEvent::Told(Err(told)) => e == told && e == Errno::EBADF,
            ReadEvent::Read(Err(told)) => e == told,
            ReadEvent::Put(false) => e == Errno::EFAULT,
            _ => e == Errno::EINVAL && reader.next(event).reader.total < reader.count,
        },
        !(event is Sought),
        event matches ReadEvent::Read(read) ==> read is Err,
{
}

/// A process is stopped only where it reads from where a file stands that
/// cannot tell its place or cannot be moved there.
pub proof fn reading_is_fatal_without_a_place(
    reader: ChunkReader,
    event: ReadEvent,
    failure: ReadFailure,
)
    requires
        reader.wf(),
        reader.accepts(event),
        reader.next(event).action == ReadAction::Fatal(failure),
    ensures
        match failure {
            ReadFailure::SeekFailed => event == ReadEvent::Sought(false),
            ReadFailure::NotSeekable => event == ReadEvent::Told(Err(Errno::ESPIPE)),
            ReadFailure::NoOffset => event == ReadEvent::Told(Err(Errno::EINVAL)),
            ReadFailure::UnexpectedSeekError(e) => event == ReadEvent::Told(Err(e)),
            ReadFailure::OffsetTooLarge => event matches ReadEvent::Told(Ok(at)) && at > i64::MAX,
        },
{
}

} // verus!
