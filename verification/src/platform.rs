//! What differs between the systems that a session runs on.
//!
//! The operating system and its error numbers are values here, so that every decision is stated
//! for all of them.
use vstd::prelude::*;

verus! {

/// An operating system.
#[derive(Debug, Clone, Copy, PartialEq, Eq, Structural)]
pub enum Os {
    /// Linux.
    Linux,
    /// macOS, whose kernel knows a few operations more.
    MacOs,
    /// Any other.
    Other,
}

/// The error numbers that a session meets or answers with.
#[derive(Debug, Clone, Copy, PartialEq, Eq, Structural)]
pub struct Errnos {
    /// Operation not permitted.
    pub eperm: i32,
    /// No such file or directory.
    pub enoent: i32,
    /// Interrupted system call.
    pub eintr: i32,
    /// Input/output error.
    pub eio: i32,
    /// Try again.
    pub eagain: i32,
    /// Permission denied.
    pub eacces: i32,
    /// No such device.
    pub enodev: i32,
    /// Function not implemented.
    pub enosys: i32,
    /// Protocol error.
    pub eproto: i32,
}

impl Errnos {
    /// Whether each of the numbers can be negated, as replies carry them, those that tell why a
    /// session refuses a request differ, and that of a device that is gone is none of those
    /// after which a reader tries again.
    pub open spec fn is_valid(self) -> bool {
        &&& self.eperm != i32::MIN
        &&& self.enoent != i32::MIN
        &&& self.eintr != i32::MIN
        &&& self.eio != i32::MIN
        &&& self.eagain != i32::MIN
        &&& self.eacces != i32::MIN
        &&& self.enodev != i32::MIN
        &&& self.enosys != i32::MIN
        &&& self.eproto != i32::MIN
        &&& self.enosys != self.eacces
        &&& self.enosys != self.eproto
        &&& self.enosys != self.eio
        &&& self.eacces != self.eproto
        &&& self.eacces != self.eio
        &&& self.eproto != self.eio
        &&& self.enodev != self.enoent
        &&& self.enodev != self.eintr
        &&& self.enodev != self.eagain
    }

    /// Whether these are the error numbers of a Linux. Seven of them are the same on every
    /// architecture; `ENOSYS` and `EPROTO` are others on MIPS and on SPARC than elsewhere.
    pub open spec fn is_of_linux(self) -> bool {
        &&& self.eperm == 1
        &&& self.enoent == 2
        &&& self.eintr == 4
        &&& self.eio == 5
        &&& self.eagain == 11
        &&& self.eacces == 13
        &&& self.enodev == 19
        &&& {
            ||| self.enosys == 38 && self.eproto == 71
            ||| self.enosys == 89 && self.eproto == 71
            ||| self.enosys == 90 && self.eproto == 86
        }
    }

    /// The error numbers of the system that this code is built for.
    pub fn native() -> (r: Errnos)
        ensures
            r.is_of_linux(),
            r.is_valid(),
    {
        libc_errnos()
    }
}

/// Reads the constants of the crate `libc` for the nine errors.
///
/// Trusted: they are the error numbers of a Linux. Which of the three sets it is depends on the
/// architecture that this code is built for.
#[verifier::external_body]
fn libc_errnos() -> (r: Errnos)
    ensures
        r.is_of_linux(),
{
    Errnos {
        eperm: libc::EPERM,
        enoent: libc::ENOENT,
        eintr: libc::EINTR,
        eio: libc::EIO,
        eagain: libc::EAGAIN,
        eacces: libc::EACCES,
        enodev: libc::ENODEV,
        enosys: libc::ENOSYS,
        eproto: libc::EPROTO,
    }
}

/// The error numbers of a Linux can be sent, and tell apart what a session has to.
pub proof fn law_linux_numbers_are_valid(errnos: Errnos)
    requires
        errnos.is_of_linux(),
    ensures
        errnos.is_valid(),
{
}

/// On every Linux, the errors that a reader or a worker acts on, and that of a user who is not
/// allowed, have the same numbers; those of what is not there and of a protocol that is too old
/// are told by the architecture, and by each other.
pub proof fn law_numbers_of_linux(errnos: Errnos)
    requires
        errnos.is_of_linux(),
    ensures
        errnos.eperm == 1,
        errnos.enoent == 2,
        errnos.eintr == 4,
        errnos.eio == 5,
        errnos.eagain == 11,
        errnos.eacces == 13,
        errnos.enodev == 19,
        errnos.enosys == 38 || errnos.enosys == 89 || errnos.enosys == 90,
        errnos.eproto == if errnos.enosys == 90 {
            86int
        } else {
            71int
        },
{
}

/// A system that a session runs on.
#[derive(Debug, Clone, Copy, PartialEq, Eq, Structural)]
pub struct Platform {
    /// The operating system.
    pub os: Os,
    /// Its error numbers.
    pub errnos: Errnos,
}

impl Platform {
    /// The system that this code is built for. That is a Linux: io_uring, which this library
    /// builds submissions for, is part of Linux alone.
    pub fn native() -> (r: Platform)
        ensures
            r.os == Os::Linux,
            r.errnos.is_of_linux(),
            r.errnos.is_valid(),
    {
        Platform { os: Os::Linux, errnos: Errnos::native() }
    }
}

} // verus!
