//! Error numbers of Linux.

use vstd::prelude::*;

verus! {

/// An error that a syscall returns.
#[derive(Clone, Copy, Debug, PartialEq, Eq, Structural)]
pub enum Errno {
    EPERM,
    ENOENT,
    EINTR,
    EBADF,
    ENOMEM,
    EACCES,
    EFAULT,
    EEXIST,
    EISDIR,
    ESPIPE,
    EINVAL,
    ENOSYS,
    EOVERFLOW,
    /// An error that has no name here.
    Other(u16),
}

impl Errno {
    /// The number of the error.
    pub open spec fn code(self) -> int {
        match self {
            Errno::EPERM => 1,
            Errno::ENOENT => 2,
            Errno::EINTR => 4,
            Errno::EBADF => 9,
            Errno::ENOMEM => 12,
            Errno::EACCES => 13,
            Errno::EFAULT => 14,
            Errno::EEXIST => 17,
            Errno::EISDIR => 21,
            Errno::ESPIPE => 29,
            Errno::EINVAL => 22,
            Errno::ENOSYS => 38,
            Errno::EOVERFLOW => 75,
            Errno::Other(n) => n as int,
        }
    }

    /// The number of the error, negated, as a syscall returns it.
    pub fn as_neg(self) -> (neg: i32)
        ensures
            neg == -self.code(),
    {
        match self {
            Errno::EPERM => -1,
            Errno::ENOENT => -2,
            Errno::EINTR => -4,
            Errno::EBADF => -9,
            Errno::ENOMEM => -12,
            Errno::EACCES => -13,
            Errno::EFAULT => -14,
            Errno::EEXIST => -17,
            Errno::EISDIR => -21,
            Errno::ESPIPE => -29,
            Errno::EINVAL => -22,
            Errno::ENOSYS => -38,
            Errno::EOVERFLOW => -75,
            Errno::Other(n) => -(n as i32),
        }
    }
}

/// Named errors have the numbers that Linux gives them, and no two have one.
pub proof fn named_errors_are_told_apart(e: Errno, f: Errno)
    requires
        !(e is Other),
        !(f is Other),
        e.code() == f.code(),
    ensures
        e == f,
        e == Errno::EPERM <==> e.code() == 1,
        e == Errno::ENOENT <==> e.code() == 2,
        e == Errno::EINTR <==> e.code() == 4,
        e == Errno::EBADF <==> e.code() == 9,
        e == Errno::ENOMEM <==> e.code() == 12,
        e == Errno::EACCES <==> e.code() == 13,
        e == Errno::EFAULT <==> e.code() == 14,
        e == Errno::EEXIST <==> e.code() == 17,
        e == Errno::EISDIR <==> e.code() == 21,
        e == Errno::EINVAL <==> e.code() == 22,
        e == Errno::ESPIPE <==> e.code() == 29,
        e == Errno::ENOSYS <==> e.code() == 38,
        e == Errno::EOVERFLOW <==> e.code() == 75,
{
}

} // verus!
