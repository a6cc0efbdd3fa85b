//! FUSE operations and their arguments, read from the bytes after a request's header.
//!
//! The layouts are those of the kernel's FUSE interface on Linux at protocol 7.28. Where that of
//! macOS has more, it is told apart by the operating system.
use crate::platform::Os;
use crate::wire::{self, ByteOrder};
use vstd::prelude::*;
use vstd::slice::slice_subrange;

verus! {

/// A point in time, in seconds and nanoseconds since the Unix epoch.
#[derive(Debug, Clone, Copy, PartialEq, Eq, Structural)]
pub struct Timestamp {
    /// Seconds, negative before the epoch.
    pub secs: i64,
    /// Nanoseconds.
    pub nanos: u32,
}

/// A time to set: a given one, or that at which the request is handled.
#[derive(Debug, Clone, Copy, PartialEq, Eq, Structural)]
pub enum TimeOrNow {
    /// The time given.
    SpecificTime(Timestamp),
    /// The time at which the request is handled.
    Now,
}

/// One inode of a batch to forget.
#[derive(Debug, Clone, Copy, PartialEq, Eq, Structural)]
pub struct ForgetOne {
    /// The inode.
    pub nodeid: u64,
    /// The number of lookups to forget.
    pub nlookup: u64,
}

/// A lock that a request is about.
#[derive(Debug, Clone, Copy, PartialEq, Eq, Structural)]
pub struct FileLock {
    /// First byte of the locked range.
    pub start: u64,
    /// Last byte of the locked range.
    pub end: u64,
    /// Kind of lock.
    pub typ: i32,
    /// Process that owns the lock.
    pub pid: u32,
}

/// The attributes that a request sets; `None` leaves one as it is.
#[derive(Debug, Clone, Copy, PartialEq, Eq, Structural)]
pub struct SetAttrs {
    /// Mode.
    pub mode: Option<u32>,
    /// Owner.
    pub uid: Option<u32>,
    /// Group.
    pub gid: Option<u32>,
    /// Size.
    pub size: Option<u64>,
    /// Time of the last access.
    pub atime: Option<TimeOrNow>,
    /// Time of the last modification.
    pub mtime: Option<TimeOrNow>,
    /// Time of the last status change.
    pub ctime: Option<Timestamp>,
    /// Open file through which the attributes are set.
    pub fh: Option<u64>,
    /// Time of creation (macOS).
    pub crtime: Option<Timestamp>,
    /// Time of the last change (macOS).
    pub chgtime: Option<Timestamp>,
    /// Time of the last backup (macOS).
    pub bkuptime: Option<Timestamp>,
    /// Flags of the file (macOS).
    pub flags: Option<u32>,
}

/// An operation and its arguments.
///
/// `B` holds names and data, `N` a list of inodes: borrowed bytes and a vector when an
/// operation is read from a request, sequences when contracts speak of it.
#[derive(Debug, Clone, PartialEq, Eq)]
#[allow(inconsistent_fields)]
pub enum Operation<B, N> {
    /// Look up a directory entry by name.
    Lookup {
        /// Name of the entry.
        name: B,
    },
    /// Forget about an inode.
    Forget {
        /// Number of lookups to forget.
        nlookup: u64,
    },
    /// Get file attributes.
    GetAttr {
        /// Open file, if the request names one.
        fh: Option<u64>,
    },
    /// Set file attributes.
    SetAttr {
        /// The attributes to set.
        attrs: SetAttrs,
    },
    /// Read a symbolic link.
    ReadLink,
    /// Create a symbolic link.
    SymLink {
        /// Name of the link.
        link_name: B,
        /// What the link points to.
        target: B,
    },
    /// Create a file node.
    MkNod {
        /// Mode.
        mode: u32,
        /// Device number.
        rdev: u32,
        /// Umask of the caller.
        umask: u32,
        /// Name of the node.
        name: B,
    },
    /// Create a directory.
    MkDir {
        /// Mode.
        mode: u32,
        /// Umask of the caller.
        umask: u32,
        /// Name of the directory.
        name: B,
    },
    /// Remove a file.
    Unlink {
        /// Name of the file.
        name: B,
    },
    /// Remove a directory.
    RmDir {
        /// Name of the directory.
        name: B,
    },
    /// Rename a file.
    Rename {
        /// Directory to move to.
        newdir: u64,
        /// Old name.
        name: B,
        /// New name.
        newname: B,
    },
    /// Create a hard link.
    Link {
        /// Inode to link to.
        oldnodeid: u64,
        /// Name of the link.
        name: B,
    },
    /// Open a file.
    Open {
        /// Open flags.
        flags: i32,
    },
    /// Read data.
    Read {
        /// Open file.
        fh: u64,
        /// Where to read.
        offset: i64,
        /// How much to read.
        size: u32,
        /// Owner of the lock, if the request names one.
        lock_owner: Option<u64>,
        /// Open flags.
        flags: i32,
    },
    /// Write data.
    Write {
        /// Open file.
        fh: u64,
        /// Where to write.
        offset: i64,
        /// Flags of the write.
        write_flags: u32,
        /// Owner of the lock, if the request names one.
        lock_owner: Option<u64>,
        /// Open flags.
        flags: i32,
        /// Bytes to write.
        data: B,
    },
    /// Get file system statistics.
    StatFs,
    /// Release an open file.
    Release {
        /// Open file.
        fh: u64,
        /// Open flags.
        flags: i32,
        /// Whether to flush.
        flush: bool,
        /// Owner of the lock, if the request names one.
        lock_owner: Option<u64>,
    },
    /// Synchronize file contents.
    FSync {
        /// Open file.
        fh: u64,
        /// Whether only the data is meant.
        datasync: bool,
    },
    /// Set an extended attribute.
    SetXAttr {
        /// Flags.
        flags: i32,
        /// Name of the attribute.
        name: B,
        /// Value of the attribute.
        value: B,
        /// Position in the attribute, zero but on macOS.
        position: u32,
    },
    /// Get an extended attribute.
    GetXAttr {
        /// Room for the value.
        size: u32,
        /// Name of the attribute.
        name: B,
    },
    /// List extended attribute names.
    ListXAttr {
        /// Room for the names.
        size: u32,
    },
    /// Remove an extended attribute.
    RemoveXAttr {
        /// Name of the attribute.
        name: B,
    },
    /// Flush an open file.
    Flush {
        /// Open file.
        fh: u64,
        /// Owner of the lock.
        lock_owner: u64,
    },
    /// Initialize the connection.
    Init {
        /// Major protocol version of the kernel.
        major: u32,
        /// Minor protocol version of the kernel.
        minor: u32,
        /// Largest readahead that the kernel offers.
        max_readahead: u32,
        /// Capabilities that the kernel offers.
        capabilities: u64,
    },
    /// Open a directory.
    OpenDir {
        /// Open flags.
        flags: i32,
    },
    /// Read a directory.
    ReadDir {
        /// Open directory.
        fh: u64,
        /// Where to go on.
        offset: i64,
        /// Room for the entries.
        size: u32,
    },
    /// Release an open directory.
    ReleaseDir {
        /// Open directory.
        fh: u64,
        /// Open flags.
        flags: i32,
    },
    /// Synchronize directory contents.
    FSyncDir {
        /// Open directory.
        fh: u64,
        /// Whether only the data is meant.
        datasync: bool,
    },
    /// Test for a POSIX file lock.
    GetLk {
        /// Open file.
        fh: u64,
        /// Owner of the lock.
        lock_owner: u64,
        /// The lock.
        lock: FileLock,
    },
    /// Acquire, modify or release a POSIX file lock.
    SetLk {
        /// Open file.
        fh: u64,
        /// Owner of the lock.
        lock_owner: u64,
        /// The lock.
        lock: FileLock,
    },
    /// Acquire, modify or release a POSIX file lock, and wait for it.
    SetLkW {
        /// Open file.
        fh: u64,
        /// Owner of the lock.
        lock_owner: u64,
        /// The lock.
        lock: FileLock,
    },
    /// Check file access permissions.
    Access {
        /// Permissions to check.
        mask: i32,
    },
    /// Create and open a file.
    Create {
        /// Open flags.
        flags: i32,
        /// Mode.
        mode: u32,
        /// Umask of the caller.
        umask: u32,
        /// Name of the file.
        name: B,
    },
    /// Interrupt another request.
    Interrupt {
        /// Identifier of the request to interrupt.
        unique: u64,
    },
    /// Map a block index within a file to one within the device.
    BMap {
        /// Block index within the file.
        block: u64,
        /// Size of a block.
        block_size: u32,
    },
    /// Close the connection.
    Destroy,
    /// Control a device.
    IoCtl {
        /// Open file.
        fh: u64,
        /// Flags of the call.
        flags: u32,
        /// Command.
        command: u32,
        /// Room for the answer.
        out_size: u32,
        /// Data of the command.
        in_data: B,
    },
    /// Poll for events.
    Poll {
        /// Open file.
        fh: u64,
        /// Handle by which the kernel is notified.
        kernel_handle: u64,
        /// Flags of the poll.
        flags: u32,
        /// Events asked for.
        events: u32,
    },
    /// Answer to a notification.
    NotifyReply {
        /// Data of the answer.
        data: B,
    },
    /// Forget about several inodes.
    BatchForget {
        /// The inodes.
        nodes: N,
    },
    /// Preallocate or deallocate space.
    FAllocate {
        /// Open file.
        fh: u64,
        /// Start of the range.
        offset: i64,
        /// Length of the range.
        len: i64,
        /// What to do.
        mode: i32,
    },
    /// Read a directory with attributes.
    ReadDirPlus {
        /// Open directory.
        fh: u64,
        /// Where to go on.
        offset: i64,
        /// Room for the entries.
        size: u32,
    },
    /// Rename a file, with flags.
    Rename2 {
        /// Directory to move to.
        newdir: u64,
        /// Flags of the rename.
        flags: u32,
        /// Old name.
        name: B,
        /// New name.
        newname: B,
    },
    /// Reposition the offset of an open file.
    Lseek {
        /// Open file.
        fh: u64,
        /// Offset.
        offset: i64,
        /// What the offset counts from.
        whence: i32,
    },
    /// Copy a range from one file to another.
    CopyFileRange {
        /// Open source file.
        fh_in: u64,
        /// Where to read.
        offset_in: i64,
        /// Destination inode.
        nodeid_out: u64,
        /// Open destination file.
        fh_out: u64,
        /// Where to write.
        offset_out: i64,
        /// How much to copy.
        len: u64,
        /// Flags of the copy.
        flags: u64,
    },
    /// Initialize a character device.
    CuseInit,
    /// Rename the volume (macOS).
    SetVolName {
        /// New name of the volume.
        name: B,
    },
    /// Query extended times (macOS).
    GetXTimes,
    /// Exchange the data of two files (macOS).
    Exchange {
        /// Directory of the first file.
        olddir: u64,
        /// Directory of the second file.
        newdir: u64,
        /// Options of the exchange.
        options: u64,
        /// Name of the first file.
        name: B,
        /// Name of the second file.
        newname: B,
    },
}

/// An operation as it is read from a request.
pub type Op<'a> = Operation<&'a [u8], Vec<ForgetOne>>;

/// An operation as contracts speak of it.
pub type OpView = Operation<Seq<u8>, Seq<ForgetOne>>;

impl<'a> View for Operation<&'a [u8], Vec<ForgetOne>> {
    type V = Operation<Seq<u8>, Seq<ForgetOne>>;

    open spec fn view(&self) -> Self::V {
        match *self {
            Operation::Lookup { name } => Operation::Lookup { name: name@ },
            Operation::Forget { nlookup } => Operation::Forget { nlookup },
            Operation::GetAttr { fh } => Operation::GetAttr { fh },
            Operation::SetAttr { attrs } => Operation::SetAttr { attrs },
            Operation::ReadLink => Operation::ReadLink,
            Operation::SymLink { link_name, target } => {
                Operation::SymLink { link_name: link_name@, target: target@ }
            },
            Operation::MkNod { mode, rdev, umask, name } => {
                Operation::MkNod { mode, rdev, umask, name: name@ }
            },
            Operation::MkDir { mode, umask, name } => Operation::MkDir { mode, umask, name: name@ },
            Operation::Unlink { name } => Operation::Unlink { name: name@ },
            Operation::RmDir { name } => Operation::RmDir { name: name@ },
            Operation::Rename { newdir, name, newname } => {
                Operation::Rename { newdir, name: name@, newname: newname@ }
            },
            Operation::Link { oldnodeid, name } => Operation::Link { oldnodeid, name: name@ },
            Operation::Open { flags } => Operation::Open { flags },
            Operation::Read { fh, offset, size, lock_owner, flags } => {
                Operation::Read { fh, offset, size, lock_owner, flags }
            },
            Operation::Write { fh, offset, write_flags, lock_owner, flags, data } => {
                Operation::Write { fh, offset, write_flags, lock_owner, flags, data: data@ }
            },
            Operation::StatFs => Operation::StatFs,
            Operation::Release { fh, flags, flush, lock_owner } => {
                Operation::Release { fh, flags, flush, lock_owner }
            },
            Operation::FSync { fh, datasync } => Operation::FSync { fh, datasync },
            Operation::SetXAttr { flags, name, value, position } => {
                Operation::SetXAttr { flags, name: name@, value: value@, position }
            },
            Operation::GetXAttr { size, name } => Operation::GetXAttr { size, name: name@ },
            Operation::ListXAttr { size } => Operation::ListXAttr { size },
            Operation::RemoveXAttr { name } => Operation::RemoveXAttr { name: name@ },
            Operation::Flush { fh, lock_owner } => Operation::Flush { fh, lock_owner },
            Operation::Init { major, minor, max_readahead, capabilities } => {
                Operation::Init { major, minor, max_readahead, capabilities }
            },
            Operation::OpenDir { flags } => Operation::OpenDir { flags },
            Operation::ReadDir { fh, offset, size } => Operation::ReadDir { fh, offset, size },
            Operation::ReleaseDir { fh, flags } => Operation::ReleaseDir { fh, flags },
            Operation::FSyncDir { fh, datasync } => Operation::FSyncDir { fh, datasync },
            Operation::GetLk { fh, lock_owner, lock } => Operation::GetLk { fh, lock_owner, lock },
            Operation::SetLk { fh, lock_owner, lock } => Operation::SetLk { fh, lock_owner, lock },
            Operation::SetLkW { fh, lock_owner, lock } => {
                Operation::SetLkW { fh, lock_owner, lock }
            },
            Operation::Access { mask } => Operation::Access { mask },
            Operation::Create { flags, mode, umask, name } => {
                Operation::Create { flags, mode, umask, name: name@ }
            },
            Operation::Interrupt { unique } => Operation::Interrupt { unique },
            Operation::BMap { block, block_size } => Operation::BMap { block, block_size },
            Operation::Destroy => Operation::Destroy,
            Operation::IoCtl { fh, flags, command, out_size, in_data } => {
                Operation::IoCtl { fh, flags, command, out_size, in_data: in_data@ }
            },
            Operation::Poll { fh, kernel_handle, flags, events } => {
                Operation::Poll { fh, kernel_handle, flags, events }
            },
            Operation::NotifyReply { data } => Operation::NotifyReply { data: data@ },
            Operation::BatchForget { nodes } => Operation::BatchForget { nodes: nodes@ },
            Operation::FAllocate { fh, offset, len, mode } => {
                Operation::FAllocate { fh, offset, len, mode }
            },
            Operation::ReadDirPlus { fh, offset, size } => {
                Operation::ReadDirPlus { fh, offset, size }
            },
            Operation::Rename2 { newdir, flags, name, newname } => {
                Operation::Rename2 { newdir, flags, name: name@, newname: newname@ }
            },
            Operation::Lseek { fh, offset, whence } => Operation::Lseek { fh, offset, whence },
            Operation::CopyFileRange {
                fh_in,
                offset_in,
                nodeid_out,
                fh_out,
                offset_out,
                len,
                flags,
            } => {
                Operation::CopyFileRange {
                    fh_in,
                    offset_in,
                    nodeid_out,
                    fh_out,
                    offset_out,
                    len,
                    flags,
                }
            },
            Operation::CuseInit => Operation::CuseInit,
            Operation::SetVolName { name } => Operation::SetVolName { name: name@ },
            Operation::GetXTimes => Operation::GetXTimes,
            Operation::Exchange { olddir, newdir, options, name, newname } => {
                Operation::Exchange { olddir, newdir, options, name: name@, newname: newname@ }
            },
        }
    }
}

/// Number of the operation [`Operation::Lookup`].
pub const FUSE_LOOKUP: u32 = 1;

/// Number of the operation [`Operation::Forget`].
pub const FUSE_FORGET: u32 = 2;

/// Number of the operation [`Operation::GetAttr`].
pub const FUSE_GETATTR: u32 = 3;

/// Number of the operation [`Operation::SetAttr`].
pub const FUSE_SETATTR: u32 = 4;

/// Number of the operation [`Operation::ReadLink`].
pub const FUSE_READLINK: u32 = 5;

/// Number of the operation [`Operation::SymLink`].
pub const FUSE_SYMLINK: u32 = 6;

/// Number of the operation [`Operation::MkNod`].
pub const FUSE_MKNOD: u32 = 8;

/// Number of the operation [`Operation::MkDir`].
pub const FUSE_MKDIR: u32 = 9;

/// Number of the operation [`Operation::Unlink`].
pub const FUSE_UNLINK: u32 = 10;

/// Number of the operation [`Operation::RmDir`].
pub const FUSE_RMDIR: u32 = 11;

/// Number of the operation [`Operation::Rename`].
pub const FUSE_RENAME: u32 = 12;

/// Number of the operation [`Operation::Link`].
pub const FUSE_LINK: u32 = 13;

/// Number of the operation [`Operation::Open`].
pub const FUSE_OPEN: u32 = 14;

/// Number of the operation [`Operation::Read`].
pub const FUSE_READ: u32 = 15;

/// Number of the operation [`Operation::Write`].
pub const FUSE_WRITE: u32 = 16;

/// Number of the operation [`Operation::StatFs`].
pub const FUSE_STATFS: u32 = 17;

/// Number of the operation [`Operation::Release`].
pub const FUSE_RELEASE: u32 = 18;

/// Number of the operation [`Operation::FSync`].
pub const FUSE_FSYNC: u32 = 20;

/// Number of the operation [`Operation::SetXAttr`].
pub const FUSE_SETXATTR: u32 = 21;

/// Number of the operation [`Operation::GetXAttr`].
pub const FUSE_GETXATTR: u32 = 22;

/// Number of the operation [`Operation::ListXAttr`].
pub const FUSE_LISTXATTR: u32 = 23;

/// Number of the operation [`Operation::RemoveXAttr`].
pub const FUSE_REMOVEXATTR: u32 = 24;

/// Number of the operation [`Operation::Flush`].
pub const FUSE_FLUSH: u32 = 25;

/// Number of the operation [`Operation::Init`].
pub const FUSE_INIT: u32 = 26;

/// Number of the operation [`Operation::OpenDir`].
pub const FUSE_OPENDIR: u32 = 27;

/// Number of the operation [`Operation::ReadDir`].
pub const FUSE_READDIR: u32 = 28;

/// Number of the operation [`Operation::ReleaseDir`].
pub const FUSE_RELEASEDIR: u32 = 29;

/// Number of the operation [`Operation::FSyncDir`].
pub const FUSE_FSYNCDIR: u32 = 30;

/// Number of the operation [`Operation::GetLk`].
pub const FUSE_GETLK: u32 = 31;

/// Number of the operation [`Operation::SetLk`].
pub const FUSE_SETLK: u32 = 32;

/// Number of the operation [`Operation::SetLkW`].
pub const FUSE_SETLKW: u32 = 33;

/// Number of the operation [`Operation::Access`].
pub const FUSE_ACCESS: u32 = 34;

/// Number of the operation [`Operation::Create`].
pub const FUSE_CREATE: u32 = 35;

/// Number of the operation [`Operation::Interrupt`].
pub const FUSE_INTERRUPT: u32 = 36;

/// Number of the operation [`Operation::BMap`].
pub const FUSE_BMAP: u32 = 37;

/// Number of the operation [`Operation::Destroy`].
pub const FUSE_DESTROY: u32 = 38;

/// Number of the operation [`Operation::IoCtl`].
pub const FUSE_IOCTL: u32 = 39;

/// Number of the operation [`Operation::Poll`].
pub const FUSE_POLL: u32 = 40;

/// Number of the operation [`Operation::NotifyReply`].
pub const FUSE_NOTIFY_REPLY: u32 = 41;

/// Number of the operation [`Operation::BatchForget`].
pub const FUSE_BATCH_FORGET: u32 = 42;

/// Number of the operation [`Operation::FAllocate`].
pub const FUSE_FALLOCATE: u32 = 43;

/// Number of the operation [`Operation::ReadDirPlus`].
pub const FUSE_READDIRPLUS: u32 = 44;

/// Number of the operation [`Operation::Rename2`].
pub const FUSE_RENAME2: u32 = 45;

/// Number of the operation [`Operation::Lseek`].
pub const FUSE_LSEEK: u32 = 46;

/// Number of the operation [`Operation::CopyFileRange`].
pub const FUSE_COPY_FILE_RANGE: u32 = 47;

/// Number of the operation [`Operation::CuseInit`].
pub const FUSE_CUSE_INIT: u32 = 4096;

/// Number of the operation [`Operation::SetVolName`].
pub const FUSE_SETVOLNAME: u32 = 61;

/// Number of the operation [`Operation::GetXTimes`].
pub const FUSE_GETXTIMES: u32 = 62;

/// Number of the operation [`Operation::Exchange`].
pub const FUSE_EXCHANGE: u32 = 63;

/// Set in the flags of a request to get attributes: it names an open file.
pub const GETATTR_FH: u32 = 1;

/// Set in the flags of a read, write or release: it names the owner of a lock.
pub const HAS_LOCK_OWNER: u32 = 2;

/// Set in the flags of a release: the file is flushed too.
pub const RELEASE_FLUSH: u32 = 1;

/// Set in the flags of a synchronization: only the data is meant.
pub const FSYNC_FDATASYNC: u32 = 1;

/// Set in the flags of a control call whose command the driver cannot bound.
pub const IOCTL_UNRESTRICTED: u32 = 2;

/// The mode is set.
pub const FATTR_MODE: u32 = 1;

/// The owner is set.
pub const FATTR_UID: u32 = 2;

/// The group is set.
pub const FATTR_GID: u32 = 4;

/// The size is set.
pub const FATTR_SIZE: u32 = 8;

/// The time of the last access is set.
pub const FATTR_ATIME: u32 = 16;

/// The time of the last modification is set.
pub const FATTR_MTIME: u32 = 32;

/// The attributes are set through an open file.
pub const FATTR_FH: u32 = 64;

/// The time of the last access is set to that of the request.
pub const FATTR_ATIME_NOW: u32 = 128;

/// The time of the last modification is set to that of the request.
pub const FATTR_MTIME_NOW: u32 = 256;

/// The time of the last status change is set.
pub const FATTR_CTIME: u32 = 1024;

/// The time of creation is set (macOS).
pub const FATTR_CRTIME: u32 = 0x1000_0000;

/// The time of the last change is set (macOS).
pub const FATTR_CHGTIME: u32 = 0x2000_0000;

/// The time of the last backup is set (macOS).
pub const FATTR_BKUPTIME: u32 = 0x4000_0000;

/// The flags of the file are set (macOS).
pub const FATTR_FLAGS: u32 = 0x8000_0000;

/// Where the first zero byte of `s` at or after `from` is.
pub open spec fn nul_from(s: Seq<u8>, from: int) -> Option<int>
    decreases s.len() - from,
{
    if from < 0 || from >= s.len() {
        None
    } else if s[from] == 0 {
        Some(from)
    } else {
        nul_from(s, from + 1)
    }
}

/// The bytes from `at` to the next zero byte, and where those after it start.
pub open spec fn str_at(s: Seq<u8>, at: int) -> Option<(Seq<u8>, int)> {
    match nul_from(s, at) {
        Some(end) => Some((s.subrange(at, end), end + 1)),
        None => None,
    }
}

/// Two zero-terminated names in a row.
pub open spec fn two_strs_at(s: Seq<u8>, at: int) -> Option<(Seq<u8>, Seq<u8>)> {
    match str_at(s, at) {
        Some((first, rest)) => match str_at(s, rest) {
            Some((second, _)) => Some((first, second)),
            None => None,
        },
        None => None,
    }
}

/// The zero byte that `nul_from` finds is the first one, and it finds one if there is any.
proof fn lemma_nul_from(s: Seq<u8>, from: int)
    requires
        0 <= from,
    ensures
        match nul_from(s, from) {
            Some(end) => {
                &&& from <= end < s.len()
                &&& s[end] == 0
                &&& forall|i: int| from <= i < end ==> s[i] != 0
            },
            None => forall|i: int| from <= i < s.len() ==> s[i] != 0,
        },
    decreases s.len() - from,
{
    if from < s.len() && s[from] != 0 {
        lemma_nul_from(s, from + 1);
    }
}

/// A name ends before the first zero byte, so it holds none itself; there is no name only
/// where there is no zero byte.
pub proof fn law_names_end_at_the_first_zero(s: Seq<u8>, at: int)
    requires
        0 <= at,
    ensures
        match str_at(s, at) {
            Some((name, rest)) => {
                &&& at < rest <= s.len()
                &&& s.subrange(at, rest) == name.push(0)
                &&& !name.contains(0)
            },
            None => forall|i: int| at <= i < s.len() ==> s[i] != 0,
        },
{
    lemma_nul_from(s, at);
    if let Some((name, rest)) = str_at(s, at) {
        assert(s.subrange(at, rest) =~= name.push(0));
    }
}

/// A name that holds no zero byte is read back as it was written with one behind it, whatever
/// stands before and after.
pub proof fn law_names_read_back(before: Seq<u8>, name: Seq<u8>, after: Seq<u8>)
    requires
        !name.contains(0),
    ensures
        str_at(before + name.push(0) + after, before.len() as int) == Some(
            (name, (before.len() + name.len() + 1) as int),
        ),
{
    let s = before + name.push(0) + after;
    let at = before.len() as int;
    let end = at + name.len();
    lemma_nul_from(s, at);
    assert(s[end] == 0);
    assert forall|i: int| at <= i < end implies s[i] != 0 by {
        assert(s[i] == name[i - at]);
    }
    assert(s.subrange(at, end) =~= name);
}

/// Reads the bytes from `at` to the next zero byte.
fn read_str<'a>(s: &'a [u8], at: usize) -> (r: Option<(&'a [u8], usize)>)
    requires
        at <= s@.len(),
    ensures
        match r {
            Some((text, rest)) => {
                &&& str_at(s@, at as int) == Some((text@, rest as int))
                &&& rest <= s@.len()
            },
            None => str_at(s@, at as int) is None,
        },
{
    let mut end: usize = at;
    while end < s.len()
        invariant
            at <= end <= s@.len(),
            nul_from(s@, at as int) == nul_from(s@, end as int),
        decreases s@.len() - end,
    {
        if s[end] == 0 {
            return Some((slice_subrange(s, at, end), end + 1));
        }
        end = end + 1;
    }
    None
}

/// Reads two zero-terminated names in a row.
fn read_two_strs<'a>(s: &'a [u8], at: usize) -> (r: Option<(&'a [u8], &'a [u8])>)
    requires
        at <= s@.len(),
    ensures
        match r {
            Some((first, second)) => two_strs_at(s@, at as int) == Some((first@, second@)),
            None => two_strs_at(s@, at as int) is None,
        },
{
    match read_str(s, at) {
        Some((first, rest)) => match read_str(s, rest) {
            Some((second, _)) => Some((first, second)),
            None => None,
        },
        None => None,
    }
}

/// The open file in the arguments of [`Operation::GetAttr`].
pub open spec fn getattr_fh_of(o: ByteOrder, s: Seq<u8>) -> Option<u64> {
    if wire::u32_at(o, s, 0) & GETATTR_FH != 0 {
        Some(wire::u64_at(o, s, 8))
    } else {
        None
    }
}

fn read_getattr_fh(o: ByteOrder, s: &[u8]) -> (r: Option<u64>)
    requires
        s@.len() >= 16,
    ensures
        r == getattr_fh_of(o, s@),
{
    if wire::read_u32(o, s, 0) & GETATTR_FH != 0 {
        Some(wire::read_u64(o, s, 8))
    } else {
        None
    }
}

/// The owner of a lock, stored at `owner` if the flags stored at `flags` say so.
pub open spec fn lock_owner_of(o: ByteOrder, s: Seq<u8>, flags: int, owner: int) -> Option<u64> {
    if wire::u32_at(o, s, flags) & HAS_LOCK_OWNER != 0 {
        Some(wire::u64_at(o, s, owner))
    } else {
        None
    }
}

fn read_lock_owner(o: ByteOrder, s: &[u8], flags: usize, owner: usize) -> (r: Option<u64>)
    requires
        flags + 4 <= s@.len(),
        owner + 8 <= s@.len(),
    ensures
        r == lock_owner_of(o, s@, flags as int, owner as int),
{
    if wire::read_u32(o, s, flags) & HAS_LOCK_OWNER != 0 {
        Some(wire::read_u64(o, s, owner))
    } else {
        None
    }
}

/// The lock in the arguments of the lock operations.
pub open spec fn file_lock_of(o: ByteOrder, s: Seq<u8>) -> FileLock {
    FileLock {
        start: wire::u64_at(o, s, 16),
        end: wire::u64_at(o, s, 24),
        typ: wire::i32_at(o, s, 32),
        pid: wire::u32_at(o, s, 36),
    }
}

fn read_file_lock(o: ByteOrder, s: &[u8]) -> (r: FileLock)
    requires
        s@.len() >= 48,
    ensures
        r == file_lock_of(o, s@),
{
    FileLock {
        start: wire::read_u64(o, s, 16),
        end: wire::read_u64(o, s, 24),
        typ: wire::read_i32(o, s, 32),
        pid: wire::read_u32(o, s, 36),
    }
}

/// A value that is set if one of the bits `flag` of `valid` is.
pub open spec fn given<T>(valid: u32, flag: u32, value: T) -> Option<T> {
    if valid & flag != 0 {
        Some(value)
    } else {
        None
    }
}

/// The time stored as seconds at `secs` and nanoseconds at `nanos`.
pub open spec fn timestamp_of(o: ByteOrder, s: Seq<u8>, secs: int, nanos: int) -> Timestamp {
    Timestamp { secs: wire::i64_at(o, s, secs), nanos: wire::u32_at(o, s, nanos) }
}

/// A time that is set if `flag` is, to that of the request if `now` is.
pub open spec fn time_given(valid: u32, flag: u32, now: u32, time: Timestamp) -> Option<TimeOrNow> {
    given(
        valid,
        flag,
        if valid & now != 0 {
            TimeOrNow::Now
        } else {
            TimeOrNow::SpecificTime(time)
        },
    )
}

/// The arguments of [`Operation::SetAttr`] that all systems have.
pub open spec fn set_attrs_of(o: ByteOrder, s: Seq<u8>) -> SetAttrs {
    let valid = wire::u32_at(o, s, 0);
    SetAttrs {
        mode: given(valid, FATTR_MODE, wire::u32_at(o, s, 68)),
        uid: given(valid, FATTR_UID, wire::u32_at(o, s, 76)),
        gid: given(valid, FATTR_GID, wire::u32_at(o, s, 80)),
        size: given(valid, FATTR_SIZE, wire::u64_at(o, s, 16)),
        atime: time_given(valid, FATTR_ATIME, FATTR_ATIME_NOW, timestamp_of(o, s, 32, 56)),
        mtime: time_given(valid, FATTR_MTIME, FATTR_MTIME_NOW, timestamp_of(o, s, 40, 60)),
        ctime: given(valid, FATTR_CTIME, timestamp_of(o, s, 48, 64)),
        fh: given(valid, FATTR_FH, wire::u64_at(o, s, 8)),
        crtime: None,
        chgtime: None,
        bkuptime: None,
        flags: None,
    }
}

/// The arguments of [`Operation::SetAttr`] on macOS.
pub open spec fn mac_set_attrs_of(o: ByteOrder, s: Seq<u8>) -> SetAttrs {
    let valid = wire::u32_at(o, s, 0);
    SetAttrs {
        crtime: given(valid, FATTR_CRTIME, timestamp_of(o, s, 104, 120)),
        chgtime: given(valid, FATTR_CHGTIME, timestamp_of(o, s, 96, 116)),
        bkuptime: given(valid, FATTR_BKUPTIME, timestamp_of(o, s, 88, 112)),
        flags: given(valid, FATTR_FLAGS, wire::u32_at(o, s, 124)),
        ..set_attrs_of(o, s)
    }
}

fn read_u32_given(o: ByteOrder, s: &[u8], valid: u32, flag: u32, at: usize) -> (r: Option<u32>)
    requires
        at + 4 <= s@.len(),
    ensures
        r == given(valid, flag, wire::u32_at(o, s@, at as int)),
{
    if valid & flag != 0 {
        Some(wire::read_u32(o, s, at))
    } else {
        None
    }
}

fn read_u64_given(o: ByteOrder, s: &[u8], valid: u32, flag: u32, at: usize) -> (r: Option<u64>)
    requires
        at + 8 <= s@.len(),
    ensures
        r == given(valid, flag, wire::u64_at(o, s@, at as int)),
{
    if valid & flag != 0 {
        Some(wire::read_u64(o, s, at))
    } else {
        None
    }
}

fn read_timestamp(o: ByteOrder, s: &[u8], secs: usize, nanos: usize) -> (r: Timestamp)
    requires
        secs + 8 <= s@.len(),
        nanos + 4 <= s@.len(),
    ensures
        r == timestamp_of(o, s@, secs as int, nanos as int),
{
    Timestamp { secs: wire::read_i64(o, s, secs), nanos: wire::read_u32(o, s, nanos) }
}

fn pick_time(valid: u32, flag: u32, now: u32, time: Timestamp) -> (r: Option<TimeOrNow>)
    ensures
        r == time_given(valid, flag, now, time),
{
    if valid & flag == 0 {
        None
    } else if valid & now != 0 {
        Some(TimeOrNow::Now)
    } else {
        Some(TimeOrNow::SpecificTime(time))
    }
}

fn read_time_given(
    o: ByteOrder,
    s: &[u8],
    valid: u32,
    flag: u32,
    secs: usize,
    nanos: usize,
) -> (r: Option<Timestamp>)
    requires
        secs + 8 <= s@.len(),
        nanos + 4 <= s@.len(),
    ensures
        r == given(valid, flag, timestamp_of(o, s@, secs as int, nanos as int)),
{
    if valid & flag != 0 {
        Some(read_timestamp(o, s, secs, nanos))
    } else {
        None
    }
}

fn read_mac_set_attrs(o: ByteOrder, s: &[u8]) -> (r: SetAttrs)
    requires
        s@.len() >= 128,
    ensures
        r == mac_set_attrs_of(o, s@),
{
    let valid: u32 = wire::read_u32(o, s, 0);
    let attrs: SetAttrs = read_set_attrs(o, s);
    SetAttrs {
        crtime: read_time_given(o, s, valid, FATTR_CRTIME, 104, 120),
        chgtime: read_time_given(o, s, valid, FATTR_CHGTIME, 96, 116),
        bkuptime: read_time_given(o, s, valid, FATTR_BKUPTIME, 88, 112),
        flags: read_u32_given(o, s, valid, FATTR_FLAGS, 124),
        ..attrs
    }
}

fn read_set_attrs(o: ByteOrder, s: &[u8]) -> (r: SetAttrs)
    requires
        s@.len() >= 88,
    ensures
        r == set_attrs_of(o, s@),
{
    let valid: u32 = wire::read_u32(o, s, 0);
    let atime: Timestamp = read_timestamp(o, s, 32, 56);
    let mtime: Timestamp = read_timestamp(o, s, 40, 60);
    SetAttrs {
        mode: read_u32_given(o, s, valid, FATTR_MODE, 68),
        uid: read_u32_given(o, s, valid, FATTR_UID, 76),
        gid: read_u32_given(o, s, valid, FATTR_GID, 80),
        size: read_u64_given(o, s, valid, FATTR_SIZE, 16),
        atime: pick_time(valid, FATTR_ATIME, FATTR_ATIME_NOW, atime),
        mtime: pick_time(valid, FATTR_MTIME, FATTR_MTIME_NOW, mtime),
        ctime: read_time_given(o, s, valid, FATTR_CTIME, 48, 64),
        fh: read_u64_given(o, s, valid, FATTR_FH, 8),
        crtime: None,
        chgtime: None,
        bkuptime: None,
        flags: None,
    }
}

/// The inodes of [`Operation::BatchForget`]: their number, padded to eight bytes, then they
/// themselves; `None` if some are missing.
pub open spec fn forget_nodes_of(o: ByteOrder, s: Seq<u8>) -> Option<Seq<ForgetOne>> {
    let count = wire::u32_at(o, s, 0);
    if 8 + 16 * count <= s.len() {
        Some(
            Seq::new(
                count as nat,
                |i: int|
                    ForgetOne {
                        nodeid: wire::u64_at(o, s, 8 + 16 * i),
                        nlookup: wire::u64_at(o, s, 16 + 16 * i),
                    },
            ),
        )
    } else {
        None
    }
}

fn read_forget_nodes(o: ByteOrder, s: &[u8]) -> (r: Option<Vec<ForgetOne>>)
    requires
        s@.len() >= 8,
    ensures
        match r {
            Some(nodes) => forget_nodes_of(o, s@) == Some(nodes@),
            None => forget_nodes_of(o, s@) is None,
        },
{
    let count: u32 = wire::read_u32(o, s, 0);
    if (s.len() - 8) / 16 < count as usize {
        return None;
    }
    let ghost all = forget_nodes_of(o, s@)->0;
    let mut nodes: Vec<ForgetOne> = Vec::new();
    let mut i: usize = 0;
    while i < count as usize
        invariant
            i <= count,
            8 + 16 * count <= s@.len() <= usize::MAX,
            all.len() == count,
            forget_nodes_of(o, s@) == Some(all),
            nodes@ =~= all.take(i as int),
        decreases count - i,
    {
        nodes.push(
            ForgetOne {
                nodeid: wire::read_u64(o, s, 8 + 16 * i),
                nlookup: wire::read_u64(o, s, 16 + 16 * i),
            },
        );
        i = i + 1;
    }
    assert(all.take(count as int) =~= all);
    Some(nodes)
}

/// An operation that was read, or not, as contracts speak of it.
pub open spec fn op_view(r: Option<Op<'_>>) -> Option<OpView> {
    match r {
        Some(op) => Some(op@),
        None => None,
    }
}

/// The size of the fixed arguments of the operation `opcode` but on macOS; `None` for an
/// unknown number.
pub open spec fn common_size(opcode: u32) -> Option<usize> {
    match opcode {
        FUSE_LOOKUP
        | FUSE_READLINK
        | FUSE_SYMLINK
        | FUSE_UNLINK
        | FUSE_RMDIR
        | FUSE_STATFS
        | FUSE_REMOVEXATTR
        | FUSE_DESTROY
        | FUSE_NOTIFY_REPLY => Some(0),
        FUSE_FORGET
        | FUSE_MKDIR
        | FUSE_RENAME
        | FUSE_LINK
        | FUSE_OPEN
        | FUSE_SETXATTR
        | FUSE_GETXATTR
        | FUSE_LISTXATTR
        | FUSE_OPENDIR
        | FUSE_ACCESS
        | FUSE_INTERRUPT
        | FUSE_BATCH_FORGET => Some(8),
        FUSE_GETATTR
        | FUSE_MKNOD
        | FUSE_FSYNC
        | FUSE_INIT
        | FUSE_FSYNCDIR
        | FUSE_CREATE
        | FUSE_BMAP
        | FUSE_RENAME2
        | FUSE_CUSE_INIT => Some(16),
        FUSE_RELEASE
        | FUSE_FLUSH
        | FUSE_RELEASEDIR
        | FUSE_POLL
        | FUSE_LSEEK => Some(24),
        FUSE_IOCTL
        | FUSE_FALLOCATE => Some(32),
        FUSE_READ
        | FUSE_WRITE
        | FUSE_READDIR
        | FUSE_READDIRPLUS => Some(40),
        FUSE_GETLK
        | FUSE_SETLK
        | FUSE_SETLKW => Some(48),
        FUSE_COPY_FILE_RANGE => Some(56),
        FUSE_SETATTR => Some(88),
        _ => None,
    }
}

/// The size of the fixed arguments of the operation `opcode`; `None` for an unknown number.
pub open spec fn fixed_size(os: Os, opcode: u32) -> Option<usize> {
    if os == Os::MacOs {
        match opcode {
            FUSE_SETVOLNAME | FUSE_GETXTIMES => Some(0),
            FUSE_SETXATTR | FUSE_GETXATTR | FUSE_LISTXATTR => Some(16),
            FUSE_EXCHANGE => Some(24),
            FUSE_SETATTR => Some(128),
            _ => common_size(opcode),
        }
    } else {
        common_size(opcode)
    }
}

fn get_fixed_size(os: Os, opcode: u32) -> (r: Option<usize>)
    ensures
        r == fixed_size(os, opcode),
{
    if os == Os::MacOs {
        match opcode {
            FUSE_SETVOLNAME | FUSE_GETXTIMES => Some(0),
            FUSE_SETXATTR | FUSE_GETXATTR | FUSE_LISTXATTR => Some(16),
            FUSE_EXCHANGE => Some(24),
            FUSE_SETATTR => Some(128),
            _ => get_common_size(opcode),
        }
    } else {
        get_common_size(opcode)
    }
}

fn get_common_size(opcode: u32) -> (r: Option<usize>)
    ensures
        r == common_size(opcode),
{
    match opcode {
        FUSE_LOOKUP
        | FUSE_READLINK
        | FUSE_SYMLINK
        | FUSE_UNLINK
        | FUSE_RMDIR
        | FUSE_STATFS
        | FUSE_REMOVEXATTR
        | FUSE_DESTROY
        | FUSE_NOTIFY_REPLY => Some(0),
        FUSE_FORGET
        | FUSE_MKDIR
        | FUSE_RENAME
        | FUSE_LINK
        | FUSE_OPEN
        | FUSE_SETXATTR
        | FUSE_GETXATTR
        | FUSE_LISTXATTR
        | FUSE_OPENDIR
        | FUSE_ACCESS
        | FUSE_INTERRUPT
        | FUSE_BATCH_FORGET => Some(8),
        FUSE_GETATTR
        | FUSE_MKNOD
        | FUSE_FSYNC
        | FUSE_INIT
        | FUSE_FSYNCDIR
        | FUSE_CREATE
        | FUSE_BMAP
        | FUSE_RENAME2
        | FUSE_CUSE_INIT => Some(16),
        FUSE_RELEASE
        | FUSE_FLUSH
        | FUSE_RELEASEDIR
        | FUSE_POLL
        | FUSE_LSEEK => Some(24),
        FUSE_IOCTL
        | FUSE_FALLOCATE => Some(32),
        FUSE_READ
        | FUSE_WRITE
        | FUSE_READDIR
        | FUSE_READDIRPLUS => Some(40),
        FUSE_GETLK
        | FUSE_SETLK
        | FUSE_SETLKW => Some(48),
        FUSE_COPY_FILE_RANGE => Some(56),
        FUSE_SETATTR => Some(88),
        _ => None,
    }
}

/// The name and value of an extended attribute, whose name starts at `at`; `None` unless the
/// value has the announced length.
pub open spec fn xattr_at(o: ByteOrder, s: Seq<u8>, at: int) -> Option<(Seq<u8>, Seq<u8>)> {
    match str_at(s, at) {
        Some((name, rest)) => if s.len() == rest + wire::u32_at(o, s, 0) {
            Some((name, s.skip(rest)))
        } else {
            None
        },
        None => None,
    }
}

fn read_xattr<'a>(o: ByteOrder, s: &'a [u8], at: usize) -> (r: Option<(&'a [u8], &'a [u8])>)
    requires
        4 <= at <= s@.len(),
    ensures
        match r {
            Some((name, value)) => xattr_at(o, s@, at as int) == Some((name@, value@)),
            None => xattr_at(o, s@, at as int) is None,
        },
{
    match read_str(s, at) {
        Some((name, rest)) => if s.len() - rest == wire::read_u32(o, s, 0) as usize {
            Some((name, slice_subrange(s, rest, s.len())))
        } else {
            None
        },
        None => None,
    }
}

/// The operation `opcode` of macOS whose arguments are in `s`, where it has other arguments
/// there than elsewhere.
pub open spec fn mac_args_of(o: ByteOrder, opcode: u32, s: Seq<u8>) -> Option<OpView> {
    match opcode {
        FUSE_SETATTR => Some(Operation::SetAttr { attrs: mac_set_attrs_of(o, s) }),
        FUSE_SETXATTR => {
            match xattr_at(o, s, 16) {
                Some((name, value)) => Some(
                    Operation::SetXAttr {
                        flags: wire::i32_at(o, s, 4),
                        name,
                        value,
                        position: wire::u32_at(o, s, 8),
                    },
                ),
                None => None,
            }
        },
        FUSE_GETXATTR => {
            match str_at(s, 16) {
                Some((name, _)) => Some(Operation::GetXAttr { size: wire::u32_at(o, s, 0), name }),
                None => None,
            }
        },
        FUSE_SETVOLNAME => {
            match str_at(s, 0) {
                Some((name, _)) => Some(Operation::SetVolName { name }),
                None => None,
            }
        },
        FUSE_GETXTIMES => Some(Operation::GetXTimes),
        FUSE_EXCHANGE => {
            match two_strs_at(s, 24) {
                Some((name, newname)) => Some(
                    Operation::Exchange {
                        olddir: wire::u64_at(o, s, 0),
                        newdir: wire::u64_at(o, s, 8),
                        options: wire::u64_at(o, s, 16),
                        name,
                        newname,
                    },
                ),
                None => None,
            }
        },
        _ => common_args_of(o, opcode, s),
    }
}

/// The operation `opcode` but on macOS whose arguments are in `s`, which holds the fixed ones;
/// `None` when one of the others is missing.
pub open spec fn common_args_of(o: ByteOrder, opcode: u32, s: Seq<u8>) -> Option<OpView> {
    match opcode {
        FUSE_LOOKUP => {
            match str_at(s, 0) {
                Some((name, _)) => Some(Operation::Lookup { name }),
                None => None,
            }
        },
        FUSE_FORGET => Some(Operation::Forget { nlookup: wire::u64_at(o, s, 0) }),
        FUSE_GETATTR => Some(Operation::GetAttr { fh: getattr_fh_of(o, s) }),
        FUSE_SETATTR => Some(Operation::SetAttr { attrs: set_attrs_of(o, s) }),
        FUSE_READLINK => Some(Operation::ReadLink),
        FUSE_SYMLINK => {
            match two_strs_at(s, 0) {
                Some((link_name, target)) => Some(Operation::SymLink { link_name, target }),
                None => None,
            }
        },
        FUSE_MKNOD => {
            match str_at(s, 16) {
                Some((name, _)) => Some(
                    Operation::MkNod {
                        mode: wire::u32_at(o, s, 0),
                        rdev: wire::u32_at(o, s, 4),
                        umask: wire::u32_at(o, s, 8),
                        name,
                    },
                ),
                None => None,
            }
        },
        FUSE_MKDIR => {
            match str_at(s, 8) {
                Some((name, _)) => Some(
                    Operation::MkDir {
                        mode: wire::u32_at(o, s, 0),
                        umask: wire::u32_at(o, s, 4),
                        name,
                    },
                ),
                None => None,
            }
        },
        FUSE_UNLINK => {
            match str_at(s, 0) {
                Some((name, _)) => Some(Operation::Unlink { name }),
                None => None,
            }
        },
        FUSE_RMDIR => {
            match str_at(s, 0) {
                Some((name, _)) => Some(Operation::RmDir { name }),
                None => None,
            }
        },
        FUSE_RENAME => {
            match two_strs_at(s, 8) {
                Some((name, newname)) => Some(
                    Operation::Rename { newdir: wire::u64_at(o, s, 0), name, newname },
                ),
                None => None,
            }
        },
        FUSE_LINK => {
            match str_at(s, 8) {
                Some((name, _)) => Some(Operation::Link { oldnodeid: wire::u64_at(o, s, 0), name }),
                None => None,
            }
        },
        FUSE_OPEN => Some(Operation::Open { flags: wire::i32_at(o, s, 0) }),
        FUSE_READ => {
            Some(
                Operation::Read {
                    fh: wire::u64_at(o, s, 0),
                    offset: wire::i64_at(o, s, 8),
                    size: wire::u32_at(o, s, 16),
                    lock_owner: lock_owner_of(o, s, 20, 24),
                    flags: wire::i32_at(o, s, 32),
                },
            )
        },
        FUSE_WRITE => {
            if s.len() == 40 + wire::u32_at(o, s, 16) {
                Some(
                    Operation::Write {
                        fh: wire::u64_at(o, s, 0),
                        offset: wire::i64_at(o, s, 8),
                        write_flags: wire::u32_at(o, s, 20),
                        lock_owner: lock_owner_of(o, s, 20, 24),
                        flags: wire::i32_at(o, s, 32),
                        data: s.skip(40),
                    },
                )
            } else {
                None
            }
        },
        FUSE_STATFS => Some(Operation::StatFs),
        FUSE_RELEASE => {
            Some(
                Operation::Release {
                    fh: wire::u64_at(o, s, 0),
                    flags: wire::i32_at(o, s, 8),
                    flush: wire::u32_at(o, s, 12) & RELEASE_FLUSH != 0,
                    lock_owner: lock_owner_of(o, s, 12, 16),
                },
            )
        },
        FUSE_FSYNC => {
            Some(
                Operation::FSync {
                    fh: wire::u64_at(o, s, 0),
                    datasync: wire::u32_at(o, s, 8) & FSYNC_FDATASYNC != 0,
                },
            )
        },
        FUSE_SETXATTR => {
            match xattr_at(o, s, 8) {
                Some((name, value)) => Some(
                    Operation::SetXAttr { flags: wire::i32_at(o, s, 4), name, value, position: 0 },
                ),
                None => None,
            }
        },
        FUSE_GETXATTR => {
            match str_at(s, 8) {
                Some((name, _)) => Some(Operation::GetXAttr { size: wire::u32_at(o, s, 0), name }),
                None => None,
            }
        },
        FUSE_LISTXATTR => Some(Operation::ListXAttr { size: wire::u32_at(o, s, 0) }),
        FUSE_REMOVEXATTR => {
            match str_at(s, 0) {
                Some((name, _)) => Some(Operation::RemoveXAttr { name }),
                None => None,
            }
        },
        FUSE_FLUSH => {
            Some(
                Operation::Flush {
                    fh: wire::u64_at(o, s, 0),
                    lock_owner: wire::u64_at(o, s, 16),
                },
            )
        },
        FUSE_INIT => {
            Some(
                Operation::Init {
                    major: wire::u32_at(o, s, 0),
                    minor: wire::u32_at(o, s, 4),
                    max_readahead: wire::u32_at(o, s, 8),
                    capabilities: wire::u32_at(o, s, 12) as u64,
                },
            )
        },
        FUSE_OPENDIR => Some(Operation::OpenDir { flags: wire::i32_at(o, s, 0) }),
        FUSE_READDIR => {
            Some(
                Operation::ReadDir {
                    fh: wire::u64_at(o, s, 0),
                    offset: wire::i64_at(o, s, 8),
                    size: wire::u32_at(o, s, 16),
                },
            )
        },
        FUSE_RELEASEDIR => {
            Some(
                Operation::ReleaseDir {
                    fh: wire::u64_at(o, s, 0),
                    flags: wire::i32_at(o, s, 8),
                },
            )
        },
        FUSE_FSYNCDIR => {
            Some(
                Operation::FSyncDir {
                    fh: wire::u64_at(o, s, 0),
                    datasync: wire::u32_at(o, s, 8) & FSYNC_FDATASYNC != 0,
                },
            )
        },
        FUSE_GETLK => {
            Some(
                Operation::GetLk {
                    fh: wire::u64_at(o, s, 0),
                    lock_owner: wire::u64_at(o, s, 8),
                    lock: file_lock_of(o, s),
                },
            )
        },
        FUSE_SETLK => {
            Some(
                Operation::SetLk {
                    fh: wire::u64_at(o, s, 0),
                    lock_owner: wire::u64_at(o, s, 8),
                    lock: file_lock_of(o, s),
                },
            )
        },
        FUSE_SETLKW => {
            Some(
                Operation::SetLkW {
                    fh: wire::u64_at(o, s, 0),
                    lock_owner: wire::u64_at(o, s, 8),
                    lock: file_lock_of(o, s),
                },
            )
        },
        FUSE_ACCESS => Some(Operation::Access { mask: wire::i32_at(o, s, 0) }),
        FUSE_CREATE => {
            match str_at(s, 16) {
                Some((name, _)) => Some(
                    Operation::Create {
                        flags: wire::i32_at(o, s, 0),
                        mode: wire::u32_at(o, s, 4),
                        umask: wire::u32_at(o, s, 8),
                        name,
                    },
                ),
                None => None,
            }
        },
        FUSE_INTERRUPT => Some(Operation::Interrupt { unique: wire::u64_at(o, s, 0) }),
        FUSE_BMAP => {
            Some(
                Operation::BMap {
                    block: wire::u64_at(o, s, 0),
                    block_size: wire::u32_at(o, s, 8),
                },
            )
        },
        FUSE_DESTROY => Some(Operation::Destroy),
        FUSE_IOCTL => {
            if 32 + wire::u32_at(o, s, 24) <= s.len() {
                Some(
                    Operation::IoCtl {
                        fh: wire::u64_at(o, s, 0),
                        flags: wire::u32_at(o, s, 8),
                        command: wire::u32_at(o, s, 12),
                        out_size: wire::u32_at(o, s, 28),
                        in_data: s.subrange(32, 32 + wire::u32_at(o, s, 24)),
                    },
                )
            } else {
                None
            }
        },
        FUSE_POLL => {
            Some(
                Operation::Poll {
                    fh: wire::u64_at(o, s, 0),
                    kernel_handle: wire::u64_at(o, s, 8),
                    flags: wire::u32_at(o, s, 16),
                    events: wire::u32_at(o, s, 20),
                },
            )
        },
        FUSE_NOTIFY_REPLY => Some(Operation::NotifyReply { data: s }),
        FUSE_BATCH_FORGET => {
            match forget_nodes_of(o, s) {
                Some(nodes) => Some(Operation::BatchForget { nodes }),
                None => None,
            }
        },
        FUSE_FALLOCATE => {
            Some(
                Operation::FAllocate {
                    fh: wire::u64_at(o, s, 0),
                    offset: wire::i64_at(o, s, 8),
                    len: wire::i64_at(o, s, 16),
                    mode: wire::i32_at(o, s, 24),
                },
            )
        },
        FUSE_READDIRPLUS => {
            Some(
                Operation::ReadDirPlus {
                    fh: wire::u64_at(o, s, 0),
                    offset: wire::i64_at(o, s, 8),
                    size: wire::u32_at(o, s, 16),
                },
            )
        },
        FUSE_RENAME2 => {
            match two_strs_at(s, 16) {
                Some((name, newname)) => Some(
                    Operation::Rename2 {
                        newdir: wire::u64_at(o, s, 0),
                        flags: wire::u32_at(o, s, 8),
                        name,
                        newname,
                    },
                ),
                None => None,
            }
        },
        FUSE_LSEEK => {
            Some(
                Operation::Lseek {
                    fh: wire::u64_at(o, s, 0),
                    offset: wire::i64_at(o, s, 8),
                    whence: wire::i32_at(o, s, 16),
                },
            )
        },
        FUSE_COPY_FILE_RANGE => {
            Some(
                Operation::CopyFileRange {
                    fh_in: wire::u64_at(o, s, 0),
                    offset_in: wire::i64_at(o, s, 8),
                    nodeid_out: wire::u64_at(o, s, 16),
                    fh_out: wire::u64_at(o, s, 24),
                    offset_out: wire::i64_at(o, s, 32),
                    len: wire::u64_at(o, s, 40),
                    flags: wire::u64_at(o, s, 48),
                },
            )
        },
        FUSE_CUSE_INIT => Some(Operation::CuseInit),
        _ => None,
    }
}

/// The operation that `opcode` and the bytes `s` after the header stand for; `None` for an
/// unknown number or when arguments are missing.
pub open spec fn operation_of(os: Os, o: ByteOrder, opcode: u32, s: Seq<u8>) -> Option<OpView> {
    match fixed_size(os, opcode) {
        Some(n) => if s.len() >= n {
            if os == Os::MacOs {
                mac_args_of(o, opcode, s)
            } else {
                common_args_of(o, opcode, s)
            }
        } else {
            None
        },
        None => None,
    }
}

/// Reads the arguments of the operation `opcode` of macOS from `s`.
fn read_mac_args<'a>(o: ByteOrder, opcode: u32, s: &'a [u8]) -> (r: Option<Op<'a>>)
    requires
        fixed_size(Os::MacOs, opcode) matches Some(n) && s@.len() >= n,
    ensures
        op_view(r) == mac_args_of(o, opcode, s@),
{
    match opcode {
        FUSE_SETATTR => Some(Operation::SetAttr { attrs: read_mac_set_attrs(o, s) }),
        FUSE_SETXATTR => {
            match read_xattr(o, s, 16) {
                Some((name, value)) => Some(
                    Operation::SetXAttr {
                        flags: wire::read_i32(o, s, 4),
                        name,
                        value,
                        position: wire::read_u32(o, s, 8),
                    },
                ),
                None => None,
            }
        },
        FUSE_GETXATTR => {
            match read_str(s, 16) {
                Some((name, _)) => Some(
                    Operation::GetXAttr { size: wire::read_u32(o, s, 0), name },
                ),
                None => None,
            }
        },
        FUSE_SETVOLNAME => {
            match read_str(s, 0) {
                Some((name, _)) => Some(Operation::SetVolName { name }),
                None => None,
            }
        },
        FUSE_GETXTIMES => Some(Operation::GetXTimes),
        FUSE_EXCHANGE => {
            match read_two_strs(s, 24) {
                Some((name, newname)) => Some(
                    Operation::Exchange {
                        olddir: wire::read_u64(o, s, 0),
                        newdir: wire::read_u64(o, s, 8),
                        options: wire::read_u64(o, s, 16),
                        name,
                        newname,
                    },
                ),
                None => None,
            }
        },
        _ => read_common_args(o, opcode, s),
    }
}

/// Reads the arguments of the operation `opcode` but on macOS from `s`.
fn read_common_args<'a>(o: ByteOrder, opcode: u32, s: &'a [u8]) -> (r: Option<Op<'a>>)
    requires
        common_size(opcode) matches Some(n) && s@.len() >= n,
    ensures
        op_view(r) == common_args_of(o, opcode, s@),
{
    match opcode {
        FUSE_LOOKUP => {
            match read_str(s, 0) {
                Some((name, _)) => Some(Operation::Lookup { name }),
                None => None,
            }
        },
        FUSE_FORGET => Some(Operation::Forget { nlookup: wire::read_u64(o, s, 0) }),
        FUSE_GETATTR => Some(Operation::GetAttr { fh: read_getattr_fh(o, s) }),
        FUSE_SETATTR => Some(Operation::SetAttr { attrs: read_set_attrs(o, s) }),
        FUSE_READLINK => Some(Operation::ReadLink),
        FUSE_SYMLINK => {
            match read_two_strs(s, 0) {
                Some((link_name, target)) => Some(Operation::SymLink { link_name, target }),
                None => None,
            }
        },
        FUSE_MKNOD => {
            match read_str(s, 16) {
                Some((name, _)) => Some(
                    Operation::MkNod {
                        mode: wire::read_u32(o, s, 0),
                        rdev: wire::read_u32(o, s, 4),
                        umask: wire::read_u32(o, s, 8),
                        name,
                    },
                ),
                None => None,
            }
        },
        FUSE_MKDIR => {
            match read_str(s, 8) {
                Some((name, _)) => Some(
                    Operation::MkDir {
                        mode: wire::read_u32(o, s, 0),
                        umask: wire::read_u32(o, s, 4),
                        name,
                    },
                ),
                None => None,
            }
        },
        FUSE_UNLINK => {
            match read_str(s, 0) {
                Some((name, _)) => Some(Operation::Unlink { name }),
                None => None,
            }
        },
        FUSE_RMDIR => {
            match read_str(s, 0) {
                Some((name, _)) => Some(Operation::RmDir { name }),
                None => None,
            }
        },
        FUSE_RENAME => {
            match read_two_strs(s, 8) {
                Some((name, newname)) => Some(
                    Operation::Rename { newdir: wire::read_u64(o, s, 0), name, newname },
                ),
                None => None,
            }
        },
        FUSE_LINK => {
            match read_str(s, 8) {
                Some((name, _)) => Some(
                    Operation::Link { oldnodeid: wire::read_u64(o, s, 0), name },
                ),
                None => None,
            }
        },
        FUSE_OPEN => Some(Operation::Open { flags: wire::read_i32(o, s, 0) }),
        FUSE_READ => {
            Some(
                Operation::Read {
                    fh: wire::read_u64(o, s, 0),
                    offset: wire::read_i64(o, s, 8),
                    size: wire::read_u32(o, s, 16),
                    lock_owner: read_lock_owner(o, s, 20, 24),
                    flags: wire::read_i32(o, s, 32),
                },
            )
        },
        FUSE_WRITE => {
            if s.len() - 40 == wire::read_u32(o, s, 16) as usize {
                let data: &[u8] = slice_subrange(s, 40, s.len());
                Some(
                    Operation::Write {
                        fh: wire::read_u64(o, s, 0),
                        offset: wire::read_i64(o, s, 8),
                        write_flags: wire::read_u32(o, s, 20),
                        lock_owner: read_lock_owner(o, s, 20, 24),
                        flags: wire::read_i32(o, s, 32),
                        data,
                    },
                )
            } else {
                None
            }
        },
        FUSE_STATFS => Some(Operation::StatFs),
        FUSE_RELEASE => {
            Some(
                Operation::Release {
                    fh: wire::read_u64(o, s, 0),
                    flags: wire::read_i32(o, s, 8),
                    flush: wire::read_u32(o, s, 12) & RELEASE_FLUSH != 0,
                    lock_owner: read_lock_owner(o, s, 12, 16),
                },
            )
        },
        FUSE_FSYNC => {
            Some(
                Operation::FSync {
                    fh: wire::read_u64(o, s, 0),
                    datasync: wire::read_u32(o, s, 8) & FSYNC_FDATASYNC != 0,
                },
            )
        },
        FUSE_SETXATTR => {
            match read_xattr(o, s, 8) {
                Some((name, value)) => Some(
                    Operation::SetXAttr {
                        flags: wire::read_i32(o, s, 4),
                        name,
                        value,
                        position: 0,
                    },
                ),
                None => None,
            }
        },
        FUSE_GETXATTR => {
            match read_str(s, 8) {
                Some((name, _)) => Some(
                    Operation::GetXAttr { size: wire::read_u32(o, s, 0), name },
                ),
                None => None,
            }
        },
        FUSE_LISTXATTR => Some(Operation::ListXAttr { size: wire::read_u32(o, s, 0) }),
        FUSE_REMOVEXATTR => {
            match read_str(s, 0) {
                Some((name, _)) => Some(Operation::RemoveXAttr { name }),
                None => None,
            }
        },
        FUSE_FLUSH => {
            Some(
                Operation::Flush {
                    fh: wire::read_u64(o, s, 0),
                    lock_owner: wire::read_u64(o, s, 16),
                },
            )
        },
        FUSE_INIT => {
            Some(
                Operation::Init {
                    major: wire::read_u32(o, s, 0),
                    minor: wire::read_u32(o, s, 4),
                    max_readahead: wire::read_u32(o, s, 8),
                    capabilities: wire::read_u32(o, s, 12) as u64,
                },
            )
        },
        FUSE_OPENDIR => Some(Operation::OpenDir { flags: wire::read_i32(o, s, 0) }),
        FUSE_READDIR => {
            Some(
                Operation::ReadDir {
                    fh: wire::read_u64(o, s, 0),
                    offset: wire::read_i64(o, s, 8),
                    size: wire::read_u32(o, s, 16),
                },
            )
        },
        FUSE_RELEASEDIR => {
            Some(
                Operation::ReleaseDir {
                    fh: wire::read_u64(o, s, 0),
                    flags: wire::read_i32(o, s, 8),
                },
            )
        },
        FUSE_FSYNCDIR => {
            Some(
                Operation::FSyncDir {
                    fh: wire::read_u64(o, s, 0),
                    datasync: wire::read_u32(o, s, 8) & FSYNC_FDATASYNC != 0,
                },
            )
        },
        FUSE_GETLK => {
            Some(
                Operation::GetLk {
                    fh: wire::read_u64(o, s, 0),
                    lock_owner: wire::read_u64(o, s, 8),
                    lock: read_file_lock(o, s),
                },
            )
        },
        FUSE_SETLK => {
            Some(
                Operation::SetLk {
                    fh: wire::read_u64(o, s, 0),
                    lock_owner: wire::read_u64(o, s, 8),
                    lock: read_file_lock(o, s),
                },
            )
        },
        FUSE_SETLKW => {
            Some(
                Operation::SetLkW {
                    fh: wire::read_u64(o, s, 0),
                    lock_owner: wire::read_u64(o, s, 8),
                    lock: read_file_lock(o, s),
                },
            )
        },
        FUSE_ACCESS => Some(Operation::Access { mask: wire::read_i32(o, s, 0) }),
        FUSE_CREATE => {
            match read_str(s, 16) {
                Some((name, _)) => Some(
                    Operation::Create {
                        flags: wire::read_i32(o, s, 0),
                        mode: wire::read_u32(o, s, 4),
                        umask: wire::read_u32(o, s, 8),
                        name,
                    },
                ),
                None => None,
            }
        },
        FUSE_INTERRUPT => Some(Operation::Interrupt { unique: wire::read_u64(o, s, 0) }),
        FUSE_BMAP => {
            Some(
                Operation::BMap {
                    block: wire::read_u64(o, s, 0),
                    block_size: wire::read_u32(o, s, 8),
                },
            )
        },
        FUSE_DESTROY => Some(Operation::Destroy),
        FUSE_IOCTL => {
            if wire::read_u32(o, s, 24) as usize <= s.len() - 32 {
                let in_data: &[u8] = slice_subrange(s, 32, 32 + wire::read_u32(o, s, 24) as usize);
                Some(
                    Operation::IoCtl {
                        fh: wire::read_u64(o, s, 0),
                        flags: wire::read_u32(o, s, 8),
                        command: wire::read_u32(o, s, 12),
                        out_size: wire::read_u32(o, s, 28),
                        in_data,
                    },
                )
            } else {
                None
            }
        },
        FUSE_POLL => {
            Some(
                Operation::Poll {
                    fh: wire::read_u64(o, s, 0),
                    kernel_handle: wire::read_u64(o, s, 8),
                    flags: wire::read_u32(o, s, 16),
                    events: wire::read_u32(o, s, 20),
                },
            )
        },
        FUSE_NOTIFY_REPLY => Some(Operation::NotifyReply { data: s }),
        FUSE_BATCH_FORGET => {
            match read_forget_nodes(o, s) {
                Some(nodes) => Some(Operation::BatchForget { nodes }),
                None => None,
            }
        },
        FUSE_FALLOCATE => {
            Some(
                Operation::FAllocate {
                    fh: wire::read_u64(o, s, 0),
                    offset: wire::read_i64(o, s, 8),
                    len: wire::read_i64(o, s, 16),
                    mode: wire::read_i32(o, s, 24),
                },
            )
        },
        FUSE_READDIRPLUS => {
            Some(
                Operation::ReadDirPlus {
                    fh: wire::read_u64(o, s, 0),
                    offset: wire::read_i64(o, s, 8),
                    size: wire::read_u32(o, s, 16),
                },
            )
        },
        FUSE_RENAME2 => {
            match read_two_strs(s, 16) {
                Some((name, newname)) => Some(
                    Operation::Rename2 {
                        newdir: wire::read_u64(o, s, 0),
                        flags: wire::read_u32(o, s, 8),
                        name,
                        newname,
                    },
                ),
                None => None,
            }
        },
        FUSE_LSEEK => {
            Some(
                Operation::Lseek {
                    fh: wire::read_u64(o, s, 0),
                    offset: wire::read_i64(o, s, 8),
                    whence: wire::read_i32(o, s, 16),
                },
            )
        },
        FUSE_COPY_FILE_RANGE => {
            Some(
                Operation::CopyFileRange {
                    fh_in: wire::read_u64(o, s, 0),
                    offset_in: wire::read_i64(o, s, 8),
                    nodeid_out: wire::read_u64(o, s, 16),
                    fh_out: wire::read_u64(o, s, 24),
                    offset_out: wire::read_i64(o, s, 32),
                    len: wire::read_u64(o, s, 40),
                    flags: wire::read_u64(o, s, 48),
                },
            )
        },
        FUSE_CUSE_INIT => Some(Operation::CuseInit),
        _ => None,
    }
}

/// Reads the operation that `opcode` and the bytes `s` after the header stand for.
pub fn read_operation<'a>(os: Os, o: ByteOrder, opcode: u32, s: &'a [u8]) -> (r: Option<Op<'a>>)
    ensures
        op_view(r) == operation_of(os, o, opcode, s@),
{
    match get_fixed_size(os, opcode) {
        Some(n) => if s.len() >= n {
            if os == Os::MacOs {
                read_mac_args(o, opcode, s)
            } else {
                read_common_args(o, opcode, s)
            }
        } else {
            None
        },
        None => None,
    }
}

/// What contracts speak of in place of an operation is that operation, with its names and data
/// as sequences of bytes.
pub proof fn law_views_keep_the_operation(op: Op<'_>)
    ensures
        op matches Operation::Lookup { name } ==> op@ == (OpView::Lookup { name: name@ }),
        op matches Operation::Forget { nlookup } ==> op@ == (OpView::Forget { nlookup }),
        op matches Operation::GetAttr { fh } ==> op@ == (OpView::GetAttr { fh }),
        op matches Operation::SetAttr { attrs } ==> op@ == (OpView::SetAttr { attrs }),
        op is ReadLink ==> op@ == OpView::ReadLink,
        op matches Operation::SymLink { link_name, target } ==> op@ == (
            OpView::SymLink { link_name: link_name@, target: target@ }
        ),
        op matches Operation::MkNod { mode, rdev, umask, name } ==> op@ == (
            OpView::MkNod { mode, rdev, umask, name: name@ }
        ),
        op matches Operation::MkDir { mode, umask, name } ==> op@ == (
            OpView::MkDir { mode, umask, name: name@ }
        ),
        op matches Operation::Unlink { name } ==> op@ == (OpView::Unlink { name: name@ }),
        op matches Operation::RmDir { name } ==> op@ == (OpView::RmDir { name: name@ }),
        op matches Operation::Rename { newdir, name, newname } ==> op@ == (
            OpView::Rename { newdir, name: name@, newname: newname@ }
        ),
        op matches Operation::Link { oldnodeid, name } ==> op@ == (
            OpView::Link { oldnodeid, name: name@ }
        ),
        op matches Operation::Open { flags } ==> op@ == (OpView::Open { flags }),
        op matches Operation::Read { fh, offset, size, lock_owner, flags } ==> op@ == (
            OpView::Read { fh, offset, size, lock_owner, flags }
        ),
        op matches Operation::Write {
            fh,
            offset,
            write_flags,
            lock_owner,
            flags,
            data,
        } ==> op@ == (
            OpView::Write { fh, offset, write_flags, lock_owner, flags, data: data@ }
        ),
        op is StatFs ==> op@ == OpView::StatFs,
        op matches Operation::Release { fh, flags, flush, lock_owner } ==> op@ == (
            OpView::Release { fh, flags, flush, lock_owner }
        ),
        op matches Operation::FSync { fh, datasync } ==> op@ == (OpView::FSync { fh, datasync }),
        op matches Operation::SetXAttr { flags, name, value, position } ==> op@ == (
            OpView::SetXAttr { flags, name: name@, value: value@, position }
        ),
        op matches Operation::GetXAttr { size, name } ==> op@ == (
            OpView::GetXAttr { size, name: name@ }
        ),
        op matches Operation::ListXAttr { size } ==> op@ == (OpView::ListXAttr { size }),
        op matches Operation::RemoveXAttr { name } ==> op@ == (OpView::RemoveXAttr { name: name@ }),
        op matches Operation::Flush { fh, lock_owner } ==> op@ == (
            OpView::Flush { fh, lock_owner }
        ),
        op matches Operation::Init { major, minor, max_readahead, capabilities } ==> op@ == (
            OpView::Init { major, minor, max_readahead, capabilities }
        ),
        op matches Operation::OpenDir { flags } ==> op@ == (OpView::OpenDir { flags }),
        op matches Operation::ReadDir { fh, offset, size } ==> op@ == (
            OpView::ReadDir { fh, offset, size }
        ),
        op matches Operation::ReleaseDir { fh, flags } ==> op@ == (
            OpView::ReleaseDir { fh, flags }
        ),
        op matches Operation::FSyncDir { fh, datasync } ==> op@ == (
            OpView::FSyncDir { fh, datasync }
        ),
        op matches Operation::GetLk { fh, lock_owner, lock } ==> op@ == (
            OpView::GetLk { fh, lock_owner, lock }
        ),
        op matches Operation::SetLk { fh, lock_owner, lock } ==> op@ == (
            OpView::SetLk { fh, lock_owner, lock }
        ),
        op matches Operation::SetLkW { fh, lock_owner, lock } ==> op@ == (
            OpView::SetLkW { fh, lock_owner, lock }
        ),
        op matches Operation::Access { mask } ==> op@ == (OpView::Access { mask }),
        op matches Operation::Create { flags, mode, umask, name } ==> op@ == (
            OpView::Create { flags, mode, umask, name: name@ }
        ),
        op matches Operation::Interrupt { unique } ==> op@ == (OpView::Interrupt { unique }),
        op matches Operation::BMap { block, block_size } ==> op@ == (
            OpView::BMap { block, block_size }
        ),
        op is Destroy ==> op@ == OpView::Destroy,
        op matches Operation::IoCtl { fh, flags, command, out_size, in_data } ==> op@ == (
            OpView::IoCtl { fh, flags, command, out_size, in_data: in_data@ }
        ),
        op matches Operation::Poll { fh, kernel_handle, flags, events } ==> op@ == (
            OpView::Poll { fh, kernel_handle, flags, events }
        ),
        op matches Operation::NotifyReply { data } ==> op@ == (OpView::NotifyReply { data: data@ }),
        op matches Operation::BatchForget { nodes } ==> op@ == (
            OpView::BatchForget { nodes: nodes@ }
        ),
        op matches Operation::FAllocate { fh, offset, len, mode } ==> op@ == (
            OpView::FAllocate { fh, offset, len, mode }
        ),
        op matches Operation::ReadDirPlus { fh, offset, size } ==> op@ == (
            OpView::ReadDirPlus { fh, offset, size }
        ),
        op matches Operation::Rename2 { newdir, flags, name, newname } ==> op@ == (
            OpView::Rename2 { newdir, flags, name: name@, newname: newname@ }
        ),
        op matches Operation::Lseek { fh, offset, whence } ==> op@ == (
            OpView::Lseek { fh, offset, whence }
        ),
        op matches Operation::CopyFileRange {
            fh_in,
            offset_in,
            nodeid_out,
            fh_out,
            offset_out,
            len,
            flags,
        } ==> op@ == (
            OpView::CopyFileRange { fh_in, offset_in, nodeid_out, fh_out, offset_out, len, flags }
        ),
        op is CuseInit ==> op@ == OpView::CuseInit,
        op matches Operation::SetVolName { name } ==> op@ == (OpView::SetVolName { name: name@ }),
        op is GetXTimes ==> op@ == OpView::GetXTimes,
        op matches Operation::Exchange { olddir, newdir, options, name, newname } ==> op@ == (
            OpView::Exchange { olddir, newdir, options, name: name@, newname: newname@ }
        ),
{
}

/// There is an operation in what contracts speak of exactly if one was read, and it is that one.
pub proof fn law_views_keep_no_operation(r: Option<Op<'_>>)
    ensures
        op_view(r) is Some <==> r is Some,
        r matches Some(op) ==> op_view(r) == Some(op@),
{
}

} // verus!
