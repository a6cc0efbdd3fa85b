//! The calls that a session makes into a filesystem, and what a filesystem does about those
//! that it does not implement.
use crate::operation::{FileLock, ForgetOne, Op, Operation, SetAttrs, IOCTL_UNRESTRICTED};
use crate::platform::Errnos;
use crate::reply;
use crate::wire::{self, ByteOrder};
use vstd::prelude::*;

verus! {

/// A call into a filesystem, with its arguments.
///
/// `B` holds names and data, `N` a list of inodes: borrowed bytes and a vector when a call is
/// made, sequences when contracts speak of it.
#[derive(Debug, Clone, PartialEq, Eq)]
#[allow(inconsistent_fields)]
pub enum FsCall<B, N> {
    /// Look up a directory entry by name and get its attributes.
    Lookup {
        /// Directory.
        parent: u64,
        /// Name of the entry.
        name: B,
    },
    /// Forget about an inode.
    Forget {
        /// Inode.
        ino: u64,
        /// Number of lookups to forget.
        nlookup: u64,
    },
    /// Forget about several inodes.
    BatchForget {
        /// The inodes.
        nodes: N,
    },
    /// Get file attributes.
    GetAttr {
        /// Inode.
        ino: u64,
        /// Open file, if the request names one.
        fh: Option<u64>,
    },
    /// Set file attributes.
    SetAttr {
        /// Inode.
        ino: u64,
        /// The attributes to set.
        attrs: SetAttrs,
    },
    /// Read a symbolic link.
    ReadLink {
        /// Inode.
        ino: u64,
    },
    /// Create a file node.
    MkNod {
        /// Directory.
        parent: u64,
        /// Name of the node.
        name: B,
        /// Mode.
        mode: u32,
        /// Umask of the caller.
        umask: u32,
        /// Device number.
        rdev: u32,
    },
    /// Create a directory.
    MkDir {
        /// Directory.
        parent: u64,
        /// Name of the new directory.
        name: B,
        /// Mode.
        mode: u32,
        /// Umask of the caller.
        umask: u32,
    },
    /// Remove a file.
    Unlink {
        /// Directory.
        parent: u64,
        /// Name of the file.
        name: B,
    },
    /// Remove a directory.
    RmDir {
        /// Directory.
        parent: u64,
        /// Name of the directory to remove.
        name: B,
    },
    /// Create a symbolic link.
    SymLink {
        /// Directory.
        parent: u64,
        /// Name of the link.
        link_name: B,
        /// What the link points to.
        target: B,
    },
    /// Rename a file.
    Rename {
        /// Old directory.
        parent: u64,
        /// Old name.
        name: B,
        /// New directory.
        newparent: u64,
        /// New name.
        newname: B,
        /// Flags of the rename.
        flags: u32,
    },
    /// Create a hard link.
    Link {
        /// Inode to link to.
        ino: u64,
        /// Directory of the link.
        newparent: u64,
        /// Name of the link.
        newname: B,
    },
    /// Open a file.
    Open {
        /// Inode.
        ino: u64,
        /// Open flags.
        flags: i32,
    },
    /// Read data.
    Read {
        /// Inode.
        ino: u64,
        /// Open file.
        fh: u64,
        /// Where to read.
        offset: i64,
        /// How much to read.
        size: u32,
        /// Open flags.
        flags: i32,
        /// Owner of the lock, if the request names one.
        lock_owner: Option<u64>,
    },
    /// Write data.
    Write {
        /// Inode.
        ino: u64,
        /// Open file.
        fh: u64,
        /// Where to write.
        offset: i64,
        /// Bytes to write.
        data: B,
        /// Flags of the write.
        write_flags: u32,
        /// Open flags.
        flags: i32,
        /// Owner of the lock, if the request names one.
        lock_owner: Option<u64>,
    },
    /// Flush an open file.
    Flush {
        /// Inode.
        ino: u64,
        /// Open file.
        fh: u64,
        /// Owner of the lock.
        lock_owner: u64,
    },
    /// Release an open file.
    Release {
        /// Inode.
        ino: u64,
        /// Open file.
        fh: u64,
        /// Open flags.
        flags: i32,
        /// Owner of the lock, if the request names one.
        lock_owner: Option<u64>,
        /// Whether to flush.
        flush: bool,
    },
    /// Synchronize file contents.
    FSync {
        /// Inode.
        ino: u64,
        /// Open file.
        fh: u64,
        /// Whether only the data is meant.
        datasync: bool,
    },
    /// Open a directory.
    OpenDir {
        /// Inode.
        ino: u64,
        /// Open flags.
        flags: i32,
    },
    /// Read a directory.
    ReadDir {
        /// Inode.
        ino: u64,
        /// Open directory.
        fh: u64,
        /// Where to go on.
        offset: i64,
        /// Room in the reply.
        size: u32,
    },
    /// Read a directory with attributes.
    ReadDirPlus {
        /// Inode.
        ino: u64,
        /// Open directory.
        fh: u64,
        /// Where to go on.
        offset: i64,
        /// Room in the reply.
        size: u32,
    },
    /// Release an open directory.
    ReleaseDir {
        /// Inode.
        ino: u64,
        /// Open directory.
        fh: u64,
        /// Open flags.
        flags: i32,
    },
    /// Synchronize directory contents.
    FSyncDir {
        /// Inode.
        ino: u64,
        /// Open directory.
        fh: u64,
        /// Whether only the data is meant.
        datasync: bool,
    },
    /// Get file system statistics.
    StatFs {
        /// Inode.
        ino: u64,
    },
    /// Set an extended attribute.
    SetXAttr {
        /// Inode.
        ino: u64,
        /// Name of the attribute.
        name: B,
        /// Value of the attribute.
        value: B,
        /// Flags.
        flags: i32,
        /// Position in the attribute.
        position: u32,
    },
    /// Get an extended attribute.
    GetXAttr {
        /// Inode.
        ino: u64,
        /// Name of the attribute.
        name: B,
        /// Room for the value.
        size: u32,
    },
    /// List extended attribute names.
    ListXAttr {
        /// Inode.
        ino: u64,
        /// Room for the names.
        size: u32,
    },
    /// Remove an extended attribute.
    RemoveXAttr {
        /// Inode.
        ino: u64,
        /// Name of the attribute.
        name: B,
    },
    /// Check file access permissions.
    Access {
        /// Inode.
        ino: u64,
        /// Permissions to check.
        mask: i32,
    },
    /// Create and open a file.
    Create {
        /// Directory.
        parent: u64,
        /// Name of the file.
        name: B,
        /// Mode.
        mode: u32,
        /// Umask of the caller.
        umask: u32,
        /// Open flags.
        flags: i32,
    },
    /// Test for a POSIX file lock.
    GetLk {
        /// Inode.
        ino: u64,
        /// Open file.
        fh: u64,
        /// Owner of the lock.
        lock_owner: u64,
        /// The lock.
        lock: FileLock,
    },
    /// Acquire, modify or release a POSIX file lock.
    SetLk {
        /// Inode.
        ino: u64,
        /// Open file.
        fh: u64,
        /// Owner of the lock.
        lock_owner: u64,
        /// The lock.
        lock: FileLock,
        /// Whether to wait for the lock.
        sleep: bool,
    },
    /// Map a block index within a file to one within the device.
    BMap {
        /// Inode.
        ino: u64,
        /// Size of a block.
        blocksize: u32,
        /// Block index within the file.
        idx: u64,
    },
    /// Control a device.
    IoCtl {
        /// Inode.
        ino: u64,
        /// Open file.
        fh: u64,
        /// Flags of the call.
        flags: u32,
        /// Command.
        cmd: u32,
        /// Data of the command.
        in_data: B,
        /// Room for the answer.
        out_size: u32,
    },
    /// Poll for events.
    Poll {
        /// Inode.
        ino: u64,
        /// Open file.
        fh: u64,
        /// Handle by which the kernel is notified.
        kernel_handle: u64,
        /// Events asked for.
        events: u32,
        /// Flags of the poll.
        flags: u32,
    },
    /// Preallocate or deallocate space to a file.
    FAllocate {
        /// Inode.
        ino: u64,
        /// Open file.
        fh: u64,
        /// Start of the range.
        offset: i64,
        /// Length of the range.
        length: i64,
        /// What to do.
        mode: i32,
    },
    /// Reposition the offset of an open file.
    Lseek {
        /// Inode.
        ino: u64,
        /// Open file.
        fh: u64,
        /// Offset.
        offset: i64,
        /// What the offset counts from.
        whence: i32,
    },
    /// Copy a range from one file to another.
    CopyFileRange {
        /// Source inode.
        ino_in: u64,
        /// Open source file.
        fh_in: u64,
        /// Where to read.
        offset_in: i64,
        /// Destination inode.
        ino_out: u64,
        /// Open destination file.
        fh_out: u64,
        /// Where to write.
        offset_out: i64,
        /// How much to copy.
        len: u64,
        /// Flags of the copy.
        flags: u32,
    },
    /// Rename the volume (macOS).
    SetVolName {
        /// New name of the volume.
        name: B,
    },
    /// Exchange the data of two files (macOS).
    Exchange {
        /// Directory of the first file.
        parent: u64,
        /// Name of the first file.
        name: B,
        /// Directory of the second file.
        newparent: u64,
        /// Name of the second file.
        newname: B,
        /// Options of the exchange.
        options: u64,
    },
    /// Query extended times (macOS).
    GetXTimes {
        /// Inode.
        ino: u64,
    },
}

/// A call as it is made for a request.
pub type Call<'a> = FsCall<&'a [u8], Vec<ForgetOne>>;

/// A call as contracts speak of it.
pub type CallView = FsCall<Seq<u8>, Seq<ForgetOne>>;

impl<'a> View for FsCall<&'a [u8], Vec<ForgetOne>> {
    type V = FsCall<Seq<u8>, Seq<ForgetOne>>;

    open spec fn view(&self) -> Self::V {
        match *self {
            FsCall::Lookup { parent, name } => FsCall::Lookup { parent, name: name@ },
            FsCall::Forget { ino, nlookup } => FsCall::Forget { ino, nlookup },
            FsCall::BatchForget { nodes } => FsCall::BatchForget { nodes: nodes@ },
            FsCall::GetAttr { ino, fh } => FsCall::GetAttr { ino, fh },
            FsCall::SetAttr { ino, attrs } => FsCall::SetAttr { ino, attrs },
            FsCall::ReadLink { ino } => FsCall::ReadLink { ino },
            FsCall::MkNod { parent, name, mode, umask, rdev } => {
                FsCall::MkNod { parent, name: name@, mode, umask, rdev }
            },
            FsCall::MkDir { parent, name, mode, umask } => {
                FsCall::MkDir { parent, name: name@, mode, umask }
            },
            FsCall::Unlink { parent, name } => FsCall::Unlink { parent, name: name@ },
            FsCall::RmDir { parent, name } => FsCall::RmDir { parent, name: name@ },
            FsCall::SymLink { parent, link_name, target } => {
                FsCall::SymLink { parent, link_name: link_name@, target: target@ }
            },
            FsCall::Rename { parent, name, newparent, newname, flags } => {
                FsCall::Rename { parent, name: name@, newparent, newname: newname@, flags }
            },
            FsCall::Link { ino, newparent, newname } => {
                FsCall::Link { ino, newparent, newname: newname@ }
            },
            FsCall::Open { ino, flags } => FsCall::Open { ino, flags },
            FsCall::Read { ino, fh, offset, size, flags, lock_owner } => {
                FsCall::Read { ino, fh, offset, size, flags, lock_owner }
            },
            FsCall::Write { ino, fh, offset, data, write_flags, flags, lock_owner } => {
                FsCall::Write { ino, fh, offset, data: data@, write_flags, flags, lock_owner }
            },
            FsCall::Flush { ino, fh, lock_owner } => FsCall::Flush { ino, fh, lock_owner },
            FsCall::Release { ino, fh, flags, lock_owner, flush } => {
                FsCall::Release { ino, fh, flags, lock_owner, flush }
            },
            FsCall::FSync { ino, fh, datasync } => FsCall::FSync { ino, fh, datasync },
            FsCall::OpenDir { ino, flags } => FsCall::OpenDir { ino, flags },
            FsCall::ReadDir { ino, fh, offset, size } => {
                FsCall::ReadDir { ino, fh, offset, size }
            },
            FsCall::ReadDirPlus { ino, fh, offset, size } => {
                FsCall::ReadDirPlus { ino, fh, offset, size }
            },
            FsCall::ReleaseDir { ino, fh, flags } => FsCall::ReleaseDir { ino, fh, flags },
            FsCall::FSyncDir { ino, fh, datasync } => FsCall::FSyncDir { ino, fh, datasync },
            FsCall::StatFs { ino } => FsCall::StatFs { ino },
            FsCall::SetXAttr { ino, name, value, flags, position } => {
                FsCall::SetXAttr { ino, name: name@, value: value@, flags, position }
            },
            FsCall::GetXAttr { ino, name, size } => FsCall::GetXAttr { ino, name: name@, size },
            FsCall::ListXAttr { ino, size } => FsCall::ListXAttr { ino, size },
            FsCall::RemoveXAttr { ino, name } => FsCall::RemoveXAttr { ino, name: name@ },
            FsCall::Access { ino, mask } => FsCall::Access { ino, mask },
            FsCall::Create { parent, name, mode, umask, flags } => {
                FsCall::Create { parent, name: name@, mode, umask, flags }
            },
            FsCall::GetLk { ino, fh, lock_owner, lock } => {
                FsCall::GetLk { ino, fh, lock_owner, lock }
            },
            FsCall::SetLk { ino, fh, lock_owner, lock, sleep } => {
                FsCall::SetLk { ino, fh, lock_owner, lock, sleep }
            },
            FsCall::BMap { ino, blocksize, idx } => FsCall::BMap { ino, blocksize, idx },
            FsCall::IoCtl { ino, fh, flags, cmd, in_data, out_size } => {
                FsCall::IoCtl { ino, fh, flags, cmd, in_data: in_data@, out_size }
            },
            FsCall::Poll { ino, fh, kernel_handle, events, flags } => {
                FsCall::Poll { ino, fh, kernel_handle, events, flags }
            },
            FsCall::FAllocate { ino, fh, offset, length, mode } => {
                FsCall::FAllocate { ino, fh, offset, length, mode }
            },
            FsCall::Lseek { ino, fh, offset, whence } => {
                FsCall::Lseek { ino, fh, offset, whence }
            },
            FsCall::CopyFileRange {
                ino_in,
                fh_in,
                offset_in,
                ino_out,
                fh_out,
                offset_out,
                len,
                flags,
            } => FsCall::CopyFileRange {
                ino_in,
                fh_in,
                offset_in,
                ino_out,
                fh_out,
                offset_out,
                len,
                flags,
            },
            FsCall::SetVolName { name } => FsCall::SetVolName { name: name@ },
            FsCall::Exchange { parent, name, newparent, newname, options } => {
                FsCall::Exchange { parent, name: name@, newparent, newname: newname@, options }
            },
            FsCall::GetXTimes { ino } => FsCall::GetXTimes { ino },
        }
    }
}

/// The flags of a copy, of which calls take 32 bits; zero if more are set.
pub open spec fn narrow_flags(flags: u64) -> u32 {
    if flags <= u32::MAX {
        flags as u32
    } else {
        0
    }
}

fn narrow(flags: u64) -> (r: u32)
    ensures
        r == narrow_flags(flags),
{
    if flags <= u32::MAX as u64 {
        flags as u32
    } else {
        0
    }
}

/// The call that serves the operation `op` on the inode `nodeid`; `None` for an operation
/// that no call serves. The connection's own operations are among those.
pub open spec fn call_of<B, N>(nodeid: u64, op: Operation<B, N>) -> Option<FsCall<B, N>> {
    match op {
        Operation::Lookup { name } => Some(FsCall::Lookup { parent: nodeid, name }),
        Operation::Forget { nlookup } => Some(FsCall::Forget { ino: nodeid, nlookup }),
        Operation::BatchForget { nodes } => Some(FsCall::BatchForget { nodes }),
        Operation::GetAttr { fh } => Some(FsCall::GetAttr { ino: nodeid, fh }),
        Operation::SetAttr { attrs } => Some(FsCall::SetAttr { ino: nodeid, attrs }),
        Operation::ReadLink => Some(FsCall::ReadLink { ino: nodeid }),
        Operation::MkNod { mode, rdev, umask, name } => Some(
            FsCall::MkNod { parent: nodeid, name, mode, umask, rdev },
        ),
        Operation::MkDir { mode, umask, name } => Some(
            FsCall::MkDir { parent: nodeid, name, mode, umask },
        ),
        Operation::Unlink { name } => Some(FsCall::Unlink { parent: nodeid, name }),
        Operation::RmDir { name } => Some(FsCall::RmDir { parent: nodeid, name }),
        Operation::SymLink { link_name, target } => Some(
            FsCall::SymLink { parent: nodeid, link_name, target },
        ),
        Operation::Rename { newdir, name, newname } => Some(
            FsCall::Rename { parent: nodeid, name, newparent: newdir, newname, flags: 0 },
        ),
        Operation::Link { oldnodeid, name } => Some(
            FsCall::Link { ino: oldnodeid, newparent: nodeid, newname: name },
        ),
        Operation::Open { flags } => Some(FsCall::Open { ino: nodeid, flags }),
        Operation::Read { fh, offset, size, lock_owner, flags } => Some(
            FsCall::Read { ino: nodeid, fh, offset, size, flags, lock_owner },
        ),
        Operation::Write { fh, offset, write_flags, lock_owner, flags, data } => Some(
            FsCall::Write { ino: nodeid, fh, offset, data, write_flags, flags, lock_owner },
        ),
        Operation::Flush { fh, lock_owner } => Some(
            FsCall::Flush { ino: nodeid, fh, lock_owner },
        ),
        Operation::Release { fh, flags, flush, lock_owner } => Some(
            FsCall::Release { ino: nodeid, fh, flags, lock_owner, flush },
        ),
        Operation::FSync { fh, datasync } => Some(FsCall::FSync { ino: nodeid, fh, datasync }),
        Operation::OpenDir { flags } => Some(FsCall::OpenDir { ino: nodeid, flags }),
        Operation::ReadDir { fh, offset, size } => Some(
            FsCall::ReadDir { ino: nodeid, fh, offset, size },
        ),
        Operation::ReadDirPlus { fh, offset, size } => Some(
            FsCall::ReadDirPlus { ino: nodeid, fh, offset, size },
        ),
        Operation::ReleaseDir { fh, flags } => Some(
            FsCall::ReleaseDir { ino: nodeid, fh, flags },
        ),
        Operation::FSyncDir { fh, datasync } => Some(
            FsCall::FSyncDir { ino: nodeid, fh, datasync },
        ),
        Operation::StatFs => Some(FsCall::StatFs { ino: nodeid }),
        Operation::SetXAttr { flags, name, value, position } => Some(
            FsCall::SetXAttr { ino: nodeid, name, value, flags, position },
        ),
        Operation::GetXAttr { size, name } => Some(FsCall::GetXAttr { ino: nodeid, name, size }),
        Operation::ListXAttr { size } => Some(FsCall::ListXAttr { ino: nodeid, size }),
        Operation::RemoveXAttr { name } => Some(FsCall::RemoveXAttr { ino: nodeid, name }),
        Operation::Access { mask } => Some(FsCall::Access { ino: nodeid, mask }),
        Operation::Create { flags, mode, umask, name } => Some(
            FsCall::Create { parent: nodeid, name, mode, umask, flags },
        ),
        Operation::GetLk { fh, lock_owner, lock } => Some(
            FsCall::GetLk { ino: nodeid, fh, lock_owner, lock },
        ),
        Operation::SetLk { fh, lock_owner, lock } => Some(
            FsCall::SetLk { ino: nodeid, fh, lock_owner, lock, sleep: false },
        ),
        Operation::SetLkW { fh, lock_owner, lock } => Some(
            FsCall::SetLk { ino: nodeid, fh, lock_owner, lock, sleep: true },
        ),
        Operation::BMap { block, block_size } => Some(
            FsCall::BMap { ino: nodeid, blocksize: block_size, idx: block },
        ),
        Operation::IoCtl { fh, flags, command, out_size, in_data } => {
            if flags & IOCTL_UNRESTRICTED != 0 {
                None
            } else {
                Some(FsCall::IoCtl { ino: nodeid, fh, flags, cmd: command, in_data, out_size })
            }
        },
        Operation::Poll { fh, kernel_handle, flags, events } => Some(
            FsCall::Poll { ino: nodeid, fh, kernel_handle, events, flags },
        ),
        Operation::FAllocate { fh, offset, len, mode } => Some(
            FsCall::FAllocate { ino: nodeid, fh, offset, length: len, mode },
        ),
        Operation::Rename2 { newdir, flags, name, newname } => Some(
            FsCall::Rename { parent: nodeid, name, newparent: newdir, newname, flags },
        ),
        Operation::Lseek { fh, offset, whence } => Some(
            FsCall::Lseek { ino: nodeid, fh, offset, whence },
        ),
        Operation::CopyFileRange {
            fh_in,
            offset_in,
            nodeid_out,
            fh_out,
            offset_out,
            len,
            flags,
        } => Some(
            FsCall::CopyFileRange {
                ino_in: nodeid,
                fh_in,
                offset_in,
                ino_out: nodeid_out,
                fh_out,
                offset_out,
                len,
                flags: narrow_flags(flags),
            },
        ),
        Operation::SetVolName { name } => Some(FsCall::SetVolName { name }),
        Operation::GetXTimes => Some(FsCall::GetXTimes { ino: nodeid }),
        Operation::Exchange { olddir, newdir, options, name, newname } => Some(
            FsCall::Exchange { parent: olddir, name, newparent: newdir, newname, options },
        ),
        Operation::Init { .. }
        | Operation::Destroy
        | Operation::Interrupt { .. }
        | Operation::NotifyReply { .. }
        | Operation::CuseInit => None,
    }
}

/// An optional call as contracts speak of it.
pub open spec fn call_view(call: Option<Call<'_>>) -> Option<CallView> {
    match call {
        Some(call) => Some(call@),
        None => None,
    }
}

/// Finds the call that serves the operation `op` on the inode `nodeid`; `None` for an
/// operation that no call serves.
pub fn find_call<'a>(nodeid: u64, op: Op<'a>) -> (r: Option<Call<'a>>)
    ensures
        r == call_of(nodeid, op),
        call_view(r) == call_of(nodeid, op@),
{
    match op {
        Operation::Lookup { name } => Some(FsCall::Lookup { parent: nodeid, name }),
        Operation::Forget { nlookup } => Some(FsCall::Forget { ino: nodeid, nlookup }),
        Operation::BatchForget { nodes } => Some(FsCall::BatchForget { nodes }),
        Operation::GetAttr { fh } => Some(FsCall::GetAttr { ino: nodeid, fh }),
        Operation::SetAttr { attrs } => Some(FsCall::SetAttr { ino: nodeid, attrs }),
        Operation::ReadLink => Some(FsCall::ReadLink { ino: nodeid }),
        Operation::MkNod { mode, rdev, umask, name } => Some(
            FsCall::MkNod { parent: nodeid, name, mode, umask, rdev },
        ),
        Operation::MkDir { mode, umask, name } => Some(
            FsCall::MkDir { parent: nodeid, name, mode, umask },
        ),
        Operation::Unlink { name } => Some(FsCall::Unlink { parent: nodeid, name }),
        Operation::RmDir { name } => Some(FsCall::RmDir { parent: nodeid, name }),
        Operation::SymLink { link_name, target } => Some(
            FsCall::SymLink { parent: nodeid, link_name, target },
        ),
        Operation::Rename { newdir, name, newname } => Some(
            FsCall::Rename { parent: nodeid, name, newparent: newdir, newname, flags: 0 },
        ),
        Operation::Link { oldnodeid, name } => Some(
            FsCall::Link { ino: oldnodeid, newparent: nodeid, newname: name },
        ),
        Operation::Open { flags } => Some(FsCall::Open { ino: nodeid, flags }),
        Operation::Read { fh, offset, size, lock_owner, flags } => Some(
            FsCall::Read { ino: nodeid, fh, offset, size, flags, lock_owner },
        ),
        Operation::Write { fh, offset, write_flags, lock_owner, flags, data } => Some(
            FsCall::Write { ino: nodeid, fh, offset, data, write_flags, flags, lock_owner },
        ),
        Operation::Flush { fh, lock_owner } => Some(
            FsCall::Flush { ino: nodeid, fh, lock_owner },
        ),
        Operation::Release { fh, flags, flush, lock_owner } => Some(
            FsCall::Release { ino: nodeid, fh, flags, lock_owner, flush },
        ),
        Operation::FSync { fh, datasync } => Some(FsCall::FSync { ino: nodeid, fh, datasync }),
        Operation::OpenDir { flags } => Some(FsCall::OpenDir { ino: nodeid, flags }),
        Operation::ReadDir { fh, offset, size } => Some(
            FsCall::ReadDir { ino: nodeid, fh, offset, size },
        ),
        Operation::ReadDirPlus { fh, offset, size } => Some(
            FsCall::ReadDirPlus { ino: nodeid, fh, offset, size },
        ),
        Operation::ReleaseDir { fh, flags } => Some(
            FsCall::ReleaseDir { ino: nodeid, fh, flags },
        ),
        Operation::FSyncDir { fh, datasync } => Some(
            FsCall::FSyncDir { ino: nodeid, fh, datasync },
        ),
        Operation::StatFs => Some(FsCall::StatFs { ino: nodeid }),
        Operation::SetXAttr { flags, name, value, position } => Some(
            FsCall::SetXAttr { ino: nodeid, name, value, flags, position },
        ),
        Operation::GetXAttr { size, name } => Some(FsCall::GetXAttr { ino: nodeid, name, size }),
        Operation::ListXAttr { size } => Some(FsCall::ListXAttr { ino: nodeid, size }),
        Operation::RemoveXAttr { name } => Some(FsCall::RemoveXAttr { ino: nodeid, name }),
        Operation::Access { mask } => Some(FsCall::Access { ino: nodeid, mask }),
        Operation::Create { flags, mode, umask, name } => Some(
            FsCall::Create { parent: nodeid, name, mode, umask, flags },
        ),
        Operation::GetLk { fh, lock_owner, lock } => Some(
            FsCall::GetLk { ino: nodeid, fh, lock_owner, lock },
        ),
        Operation::SetLk { fh, lock_owner, lock } => Some(
            FsCall::SetLk { ino: nodeid, fh, lock_owner, lock, sleep: false },
        ),
        Operation::SetLkW { fh, lock_owner, lock } => Some(
            FsCall::SetLk { ino: nodeid, fh, lock_owner, lock, sleep: true },
        ),
        Operation::BMap { block, block_size } => Some(
            FsCall::BMap { ino: nodeid, blocksize: block_size, idx: block },
        ),
        Operation::IoCtl { fh, flags, command, out_size, in_data } => {
            if flags & IOCTL_UNRESTRICTED != 0 {
                None
            } else {
                Some(FsCall::IoCtl { ino: nodeid, fh, flags, cmd: command, in_data, out_size })
            }
        },
        Operation::Poll { fh, kernel_handle, flags, events } => Some(
            FsCall::Poll { ino: nodeid, fh, kernel_handle, events, flags },
        ),
        Operation::FAllocate { fh, offset, len, mode } => Some(
            FsCall::FAllocate { ino: nodeid, fh, offset, length: len, mode },
        ),
        Operation::Rename2 { newdir, flags, name, newname } => Some(
            FsCall::Rename { parent: nodeid, name, newparent: newdir, newname, flags },
        ),
        Operation::Lseek { fh, offset, whence } => Some(
            FsCall::Lseek { ino: nodeid, fh, offset, whence },
        ),
        Operation::CopyFileRange {
            fh_in,
            offset_in,
            nodeid_out,
            fh_out,
            offset_out,
            len,
            flags,
        } => Some(
            FsCall::CopyFileRange {
                ino_in: nodeid,
                fh_in,
                offset_in,
                ino_out: nodeid_out,
                fh_out,
                offset_out,
                len,
                flags: narrow(flags),
            },
        ),
        Operation::SetVolName { name } => Some(FsCall::SetVolName { name }),
        Operation::GetXTimes => Some(FsCall::GetXTimes { ino: nodeid }),
        Operation::Exchange { olddir, newdir, options, name, newname } => Some(
            FsCall::Exchange { parent: olddir, name, newparent: newdir, newname, options },
        ),
        Operation::Init { .. }
        | Operation::Destroy
        | Operation::Interrupt { .. }
        | Operation::NotifyReply { .. }
        | Operation::CuseInit => None,
    }
}

/// What a filesystem does about a call that it does not implement.
#[derive(Debug, Clone, Copy, PartialEq, Eq, Structural)]
pub enum DefaultOutcome {
    /// It does nothing, and sends no reply.
    Nothing,
    /// It forgets the inodes of the batch one by one, and sends no reply.
    ForgetEach,
    /// It replies with an error.
    Error(i32),
    /// It replies that all is well.
    Empty,
    /// It replies with an open file.
    Opened {
        /// Handle of the open file.
        fh: u64,
        /// Flags of the open file.
        flags: u32,
    },
    /// It replies with statistics.
    Statfs(Statfs),
}

/// Statistics of a filesystem.
#[derive(Debug, Clone, Copy, PartialEq, Eq, Structural)]
pub struct Statfs {
    /// Number of blocks.
    pub blocks: u64,
    /// Number of free blocks.
    pub bfree: u64,
    /// Number of blocks that are free to unprivileged users.
    pub bavail: u64,
    /// Number of inodes.
    pub files: u64,
    /// Number of free inodes.
    pub ffree: u64,
    /// Size of a block for transfers.
    pub bsize: u32,
    /// Largest length of a name.
    pub namelen: u32,
    /// Size of a block.
    pub frsize: u32,
}

/// What a filesystem does about a call that it does not implement, on a system with the error
/// numbers `errnos`: most are refused with `ENOSYS`, and links with `EPERM`.
pub open spec fn default_of<B, N>(errnos: Errnos, call: FsCall<B, N>) -> DefaultOutcome {
    match call {
        FsCall::Forget { .. } => DefaultOutcome::Nothing,
        FsCall::BatchForget { .. } => DefaultOutcome::ForgetEach,
        FsCall::SymLink { .. } | FsCall::Link { .. } => DefaultOutcome::Error(errnos.eperm),
        FsCall::Open { .. } | FsCall::OpenDir { .. } => DefaultOutcome::Opened { fh: 0, flags: 0 },
        FsCall::Release { .. } | FsCall::ReleaseDir { .. } => DefaultOutcome::Empty,
        FsCall::StatFs { .. } => DefaultOutcome::Statfs(
            Statfs {
                blocks: 0,
                bfree: 0,
                bavail: 0,
                files: 0,
                ffree: 0,
                bsize: 512,
                namelen: 255,
                frsize: 0,
            },
        ),
        _ => DefaultOutcome::Error(errnos.enosys),
    }
}

/// Tells what a filesystem does about a call that it does not implement, on a system with the
/// error numbers `errnos`.
pub fn default_outcome(errnos: Errnos, call: &Call<'_>) -> (r: DefaultOutcome)
    ensures
        r == default_of(errnos, *call),
        r == default_of(errnos, call@),
{
    match call {
        FsCall::Forget { .. } => DefaultOutcome::Nothing,
        FsCall::BatchForget { .. } => DefaultOutcome::ForgetEach,
        FsCall::SymLink { .. } | FsCall::Link { .. } => DefaultOutcome::Error(errnos.eperm),
        FsCall::Open { .. } | FsCall::OpenDir { .. } => DefaultOutcome::Opened { fh: 0, flags: 0 },
        FsCall::Release { .. } | FsCall::ReleaseDir { .. } => DefaultOutcome::Empty,
        FsCall::StatFs { .. } => DefaultOutcome::Statfs(
            Statfs {
                blocks: 0,
                bfree: 0,
                bavail: 0,
                files: 0,
                ffree: 0,
                bsize: 512,
                namelen: 255,
                frsize: 0,
            },
        ),
        _ => DefaultOutcome::Error(errnos.enosys),
    }
}

/// The call that forgets one inode of a batch.
pub open spec fn forget_of<B, N>(node: ForgetOne) -> FsCall<B, N> {
    FsCall::Forget { ino: node.nodeid, nlookup: node.nlookup }
}

/// The calls by which a batch of inodes is forgotten one by one, in the order of the batch.
pub fn forget_calls(nodes: &[ForgetOne]) -> (r: Vec<Call<'static>>)
    ensures
        r@.len() == nodes@.len(),
        forall|i: int|
            0 <= i < nodes@.len() ==> #[trigger] r@[i]@ == forget_of::<Seq<u8>, Seq<ForgetOne>>(
                nodes@[i],
            ),
        forall|i: int|
            0 <= i < nodes@.len() ==> #[trigger] r@[i] == (FsCall::<&[u8], Vec<ForgetOne>>::Forget {
                ino: nodes@[i].nodeid,
                nlookup: nodes@[i].nlookup,
            }),
{
    let mut calls: Vec<Call<'static>> = Vec::new();
    let mut i: usize = 0;
    while i < nodes.len()
        invariant
            i <= nodes@.len(),
            calls@.len() == i,
            forall|k: int|
                0 <= k < i ==> #[trigger] calls@[k]@ == forget_of::<Seq<u8>, Seq<ForgetOne>>(
                    nodes@[k],
                ),
            forall|k: int|
                0 <= k < i ==> #[trigger] calls@[k] == (FsCall::<&[u8], Vec<ForgetOne>>::Forget {
                    ino: nodes@[k].nodeid,
                    nlookup: nodes@[k].nlookup,
                }),
        decreases nodes@.len() - i,
    {
        let node: ForgetOne = nodes[i];
        calls.push(FsCall::Forget { ino: node.nodeid, nlookup: node.nlookup });
        i = i + 1;
    }
    calls
}

/// What follows the header of a reply with an open file.
pub open spec fn opened_payload(o: ByteOrder, fh: u64, flags: u32) -> Seq<u8> {
    wire::uint_bytes(o, fh as nat, 8) + wire::uint_bytes(o, flags as nat, 4) + wire::uint_bytes(
        o,
        0,
        4,
    )
}

/// What follows the header of a reply with statistics. The seven words at the end are unused.
pub open spec fn statfs_payload(o: ByteOrder, st: Statfs) -> Seq<u8> {
    wire::uint_bytes(o, st.blocks as nat, 8) + wire::uint_bytes(o, st.bfree as nat, 8)
        + wire::uint_bytes(o, st.bavail as nat, 8) + wire::uint_bytes(o, st.files as nat, 8)
        + wire::uint_bytes(o, st.ffree as nat, 8) + wire::uint_bytes(o, st.bsize as nat, 4)
        + wire::uint_bytes(o, st.namelen as nat, 4) + wire::uint_bytes(o, st.frsize as nat, 4)
        + Seq::new(28, |i: int| 0u8)
}

/// The reply that an outcome sends to the request `unique`; `None` if it sends none.
pub open spec fn outcome_bytes(o: ByteOrder, unique: u64, outcome: DefaultOutcome) -> Option<
    Seq<u8>,
> {
    match outcome {
        DefaultOutcome::Nothing | DefaultOutcome::ForgetEach => None,
        DefaultOutcome::Error(errno) => Some(reply::error_bytes(o, unique, errno as int)),
        DefaultOutcome::Empty => Some(reply::reply_bytes(o, unique, 0, seq![])),
        DefaultOutcome::Opened { fh, flags } => Some(
            reply::reply_bytes(o, unique, 0, opened_payload(o, fh, flags)),
        ),
        DefaultOutcome::Statfs(st) => Some(
            reply::reply_bytes(o, unique, 0, statfs_payload(o, st)),
        ),
    }
}

/// Makes what follows the header of a reply with an open file.
fn make_opened(o: ByteOrder, fh: u64, flags: u32) -> (r: Vec<u8>)
    ensures
        r@ == opened_payload(o, fh, flags),
        r@.len() == 16,
{
    proof {
        wire::lemma_uint_bytes_len(o, fh as nat, 8);
        wire::lemma_uint_bytes_len(o, flags as nat, 4);
        wire::lemma_uint_bytes_len(o, 0, 4);
    }
    let mut out: Vec<u8> = Vec::new();
    wire::push_uint(o, &mut out, fh, 8);
    wire::push_uint(o, &mut out, flags as u64, 4);
    wire::push_uint(o, &mut out, 0, 4);
    out
}

/// Makes what follows the header of a reply with statistics.
fn make_statfs(o: ByteOrder, st: Statfs) -> (r: Vec<u8>)
    ensures
        r@ == statfs_payload(o, st),
        r@.len() == 80,
{
    proof {
        wire::lemma_uint_bytes_len(o, st.blocks as nat, 8);
        wire::lemma_uint_bytes_len(o, st.bfree as nat, 8);
        wire::lemma_uint_bytes_len(o, st.bavail as nat, 8);
        wire::lemma_uint_bytes_len(o, st.files as nat, 8);
        wire::lemma_uint_bytes_len(o, st.ffree as nat, 8);
        wire::lemma_uint_bytes_len(o, st.bsize as nat, 4);
        wire::lemma_uint_bytes_len(o, st.namelen as nat, 4);
        wire::lemma_uint_bytes_len(o, st.frsize as nat, 4);
    }
    let mut out: Vec<u8> = Vec::new();
    wire::push_uint(o, &mut out, st.blocks, 8);
    wire::push_uint(o, &mut out, st.bfree, 8);
    wire::push_uint(o, &mut out, st.bavail, 8);
    wire::push_uint(o, &mut out, st.files, 8);
    wire::push_uint(o, &mut out, st.ffree, 8);
    wire::push_uint(o, &mut out, st.bsize as u64, 4);
    wire::push_uint(o, &mut out, st.namelen as u64, 4);
    wire::push_uint(o, &mut out, st.frsize as u64, 4);
    wire::push_zeros(&mut out, 28);
    out
}

/// Makes the reply that an outcome sends to the request `unique`; `None` if it sends none.
pub fn outcome_reply(o: ByteOrder, unique: u64, outcome: DefaultOutcome) -> (r: Option<Vec<u8>>)
    requires
        outcome != DefaultOutcome::Error(i32::MIN),
    ensures
        match r {
            Some(bytes) => outcome_bytes(o, unique, outcome) == Some(bytes@),
            None => outcome_bytes(o, unique, outcome) is None,
        },
{
    match outcome {
        DefaultOutcome::Nothing | DefaultOutcome::ForgetEach => None,
        DefaultOutcome::Error(errno) => Some(reply::error_reply(o, unique, errno)),
        DefaultOutcome::Empty => Some(reply::frame_reply(o, unique, 0, &[])),
        DefaultOutcome::Opened { fh, flags } => {
            let payload: Vec<u8> = make_opened(o, fh, flags);
            Some(reply::frame_reply(o, unique, 0, payload.as_slice()))
        },
        DefaultOutcome::Statfs(st) => {
            let payload: Vec<u8> = make_statfs(o, st);
            Some(reply::frame_reply(o, unique, 0, payload.as_slice()))
        },
    }
}

/// Whether the kernel waits for a reply to a call.
pub open spec fn expects_reply<B, N>(call: FsCall<B, N>) -> bool {
    !(call is Forget || call is BatchForget)
}

/// A call that a filesystem does not implement is answered exactly when the kernel waits for
/// a reply.
pub proof fn law_defaults_answer_what_expects_a_reply<B, N>(
    errnos: Errnos,
    o: ByteOrder,
    unique: u64,
    call: FsCall<B, N>,
)
    ensures
        outcome_bytes(o, unique, default_of(errnos, call)) is Some <==> expects_reply(call),
{
}

/// To rename without flags is to rename with no flag set.
pub proof fn law_renames_agree<B, N>(nodeid: u64, newdir: u64, name: B, newname: B)
    ensures
        call_of(nodeid, (Operation::<B, N>::Rename { newdir, name, newname })) == call_of(
            nodeid,
            (Operation::<B, N>::Rename2 { newdir, flags: 0, name, newname }),
        ),
{
}

/// The two ways to set a lock make the same call, but for whether it waits.
pub proof fn law_locks_differ_in_waiting<B, N>(
    nodeid: u64,
    fh: u64,
    lock_owner: u64,
    lock: FileLock,
)
    ensures
        call_of(nodeid, (Operation::<B, N>::SetLk { fh, lock_owner, lock })) == Some(
            (FsCall::<B, N>::SetLk { ino: nodeid, fh, lock_owner, lock, sleep: false }),
        ),
        call_of(nodeid, (Operation::<B, N>::SetLkW { fh, lock_owner, lock })) == Some(
            (FsCall::<B, N>::SetLk { ino: nodeid, fh, lock_owner, lock, sleep: true }),
        ),
{
}

/// A control call that the driver cannot bound is never made.
pub proof fn law_unrestricted_control_is_not_made<B, N>(nodeid: u64, op: Operation<B, N>)
    ensures
        call_of(nodeid, op) matches Some(FsCall::IoCtl { flags, .. }) ==> flags
            & IOCTL_UNRESTRICTED == 0,
{
}

/// Which call serves each operation on an inode, an entry of a directory or its attributes. An
/// operation on an entry is one on the directory that the request is about.
pub proof fn law_calls_on_names<B, N>(nodeid: u64, op: Operation<B, N>)
    ensures
        op matches Operation::Lookup { name } ==> call_of(nodeid, op) == Some(
            (FsCall::<B, N>::Lookup { parent: nodeid, name }),
        ),
        op matches Operation::Forget { nlookup } ==> call_of(nodeid, op) == Some(
            (FsCall::<B, N>::Forget { ino: nodeid, nlookup }),
        ),
        op matches Operation::BatchForget { nodes } ==> call_of(nodeid, op) == Some(
            (FsCall::<B, N>::BatchForget { nodes }),
        ),
        op matches Operation::GetAttr { fh } ==> call_of(nodeid, op) == Some(
            (FsCall::<B, N>::GetAttr { ino: nodeid, fh }),
        ),
        op matches Operation::SetAttr { attrs } ==> call_of(nodeid, op) == Some(
            (FsCall::<B, N>::SetAttr { ino: nodeid, attrs }),
        ),
        op is ReadLink ==> call_of(nodeid, op) == Some((FsCall::<B, N>::ReadLink { ino: nodeid })),
        op matches Operation::MkNod { mode, rdev, umask, name } ==> call_of(nodeid, op) == Some(
            (FsCall::<B, N>::MkNod { parent: nodeid, name, mode, umask, rdev }),
        ),
        op matches Operation::MkDir { mode, umask, name } ==> call_of(nodeid, op) == Some(
            (FsCall::<B, N>::MkDir { parent: nodeid, name, mode, umask }),
        ),
        op matches Operation::Unlink { name } ==> call_of(nodeid, op) == Some(
            (FsCall::<B, N>::Unlink { parent: nodeid, name }),
        ),
        op matches Operation::RmDir { name } ==> call_of(nodeid, op) == Some(
            (FsCall::<B, N>::RmDir { parent: nodeid, name }),
        ),
        op matches Operation::SymLink { link_name, target } ==> call_of(nodeid, op) == Some(
            (FsCall::<B, N>::SymLink { parent: nodeid, link_name, target }),
        ),
        op matches Operation::Rename { newdir, name, newname } ==> call_of(nodeid, op) == Some(
            (FsCall::<B, N>::Rename { parent: nodeid, name, newparent: newdir, newname, flags: 0 }),
        ),
        op matches Operation::Rename2 { newdir, flags, name, newname } ==> call_of(
            nodeid,
            op,
        ) == Some(
            (FsCall::<B, N>::Rename { parent: nodeid, name, newparent: newdir, newname, flags }),
        ),
        op matches Operation::Link { oldnodeid, name } ==> call_of(nodeid, op) == Some(
            (FsCall::<B, N>::Link { ino: oldnodeid, newparent: nodeid, newname: name }),
        ),
{
}

/// Which call serves each operation on an open file or directory.
pub proof fn law_calls_on_open_files<B, N>(nodeid: u64, op: Operation<B, N>)
    ensures
        op matches Operation::Open { flags } ==> call_of(nodeid, op) == Some(
            (FsCall::<B, N>::Open { ino: nodeid, flags }),
        ),
        op matches Operation::Read { fh, offset, size, lock_owner, flags } ==> call_of(
            nodeid,
            op,
        ) == Some((FsCall::<B, N>::Read { ino: nodeid, fh, offset, size, flags, lock_owner })),
        op matches Operation::Write { fh, offset, write_flags, lock_owner, flags, data }
            ==> call_of(
            nodeid,
            op,
        ) == Some(
            (FsCall::<B, N>::Write {
                ino: nodeid,
                fh,
                offset,
                data,
                write_flags,
                flags,
                lock_owner,
            }),
        ),
        op matches Operation::Flush { fh, lock_owner } ==> call_of(nodeid, op) == Some(
            (FsCall::<B, N>::Flush { ino: nodeid, fh, lock_owner }),
        ),
        op matches Operation::Release { fh, flags, flush, lock_owner } ==> call_of(
            nodeid,
            op,
        ) == Some((FsCall::<B, N>::Release { ino: nodeid, fh, flags, lock_owner, flush })),
        op matches Operation::FSync { fh, datasync } ==> call_of(nodeid, op) == Some(
            (FsCall::<B, N>::FSync { ino: nodeid, fh, datasync }),
        ),
        op matches Operation::OpenDir { flags } ==> call_of(nodeid, op) == Some(
            (FsCall::<B, N>::OpenDir { ino: nodeid, flags }),
        ),
        op matches Operation::ReadDir { fh, offset, size } ==> call_of(nodeid, op) == Some(
            (FsCall::<B, N>::ReadDir { ino: nodeid, fh, offset, size }),
        ),
        op matches Operation::ReadDirPlus { fh, offset, size } ==> call_of(nodeid, op) == Some(
            (FsCall::<B, N>::ReadDirPlus { ino: nodeid, fh, offset, size }),
        ),
        op matches Operation::ReleaseDir { fh, flags } ==> call_of(nodeid, op) == Some(
            (FsCall::<B, N>::ReleaseDir { ino: nodeid, fh, flags }),
        ),
        op matches Operation::FSyncDir { fh, datasync } ==> call_of(nodeid, op) == Some(
            (FsCall::<B, N>::FSyncDir { ino: nodeid, fh, datasync }),
        ),
        op matches Operation::Create { flags, mode, umask, name } ==> call_of(nodeid, op) == Some(
            (FsCall::<B, N>::Create { parent: nodeid, name, mode, umask, flags }),
        ),
        op matches Operation::GetLk { fh, lock_owner, lock } ==> call_of(nodeid, op) == Some(
            (FsCall::<B, N>::GetLk { ino: nodeid, fh, lock_owner, lock }),
        ),
        op matches Operation::SetLk { fh, lock_owner, lock } ==> call_of(nodeid, op) == Some(
            (FsCall::<B, N>::SetLk { ino: nodeid, fh, lock_owner, lock, sleep: false }),
        ),
        op matches Operation::SetLkW { fh, lock_owner, lock } ==> call_of(nodeid, op) == Some(
            (FsCall::<B, N>::SetLk { ino: nodeid, fh, lock_owner, lock, sleep: true }),
        ),
{
}

/// Which call serves each other operation, and which operations none serves: those of the
/// connection itself, and a control call that is not restricted, which the second of its flags
/// tells. Of the flags of a copy, no call takes more than 32 bits.
pub proof fn law_other_calls<B, N>(nodeid: u64, op: Operation<B, N>)
    ensures
        op is StatFs ==> call_of(nodeid, op) == Some((FsCall::<B, N>::StatFs { ino: nodeid })),
        op matches Operation::SetXAttr { flags, name, value, position } ==> call_of(
            nodeid,
            op,
        ) == Some((FsCall::<B, N>::SetXAttr { ino: nodeid, name, value, flags, position })),
        op matches Operation::GetXAttr { size, name } ==> call_of(nodeid, op) == Some(
            (FsCall::<B, N>::GetXAttr { ino: nodeid, name, size }),
        ),
        op matches Operation::ListXAttr { size } ==> call_of(nodeid, op) == Some(
            (FsCall::<B, N>::ListXAttr { ino: nodeid, size }),
        ),
        op matches Operation::RemoveXAttr { name } ==> call_of(nodeid, op) == Some(
            (FsCall::<B, N>::RemoveXAttr { ino: nodeid, name }),
        ),
        op matches Operation::Access { mask } ==> call_of(nodeid, op) == Some(
            (FsCall::<B, N>::Access { ino: nodeid, mask }),
        ),
        op matches Operation::BMap { block, block_size } ==> call_of(nodeid, op) == Some(
            (FsCall::<B, N>::BMap { ino: nodeid, blocksize: block_size, idx: block }),
        ),
        op matches Operation::IoCtl { fh, flags, command, out_size, in_data } ==> call_of(
            nodeid,
            op,
        ) == if flags & 2 != 0 {
            None
        } else {
            Some(
                (FsCall::<B, N>::IoCtl { ino: nodeid, fh, flags, cmd: command, in_data, out_size }),
            )
        },
        op matches Operation::Poll { fh, kernel_handle, flags, events } ==> call_of(
            nodeid,
            op,
        ) == Some((FsCall::<B, N>::Poll { ino: nodeid, fh, kernel_handle, events, flags })),
        op matches Operation::FAllocate { fh, offset, len, mode } ==> call_of(nodeid, op) == Some(
            (FsCall::<B, N>::FAllocate { ino: nodeid, fh, offset, length: len, mode }),
        ),
        op matches Operation::Lseek { fh, offset, whence } ==> call_of(nodeid, op) == Some(
            (FsCall::<B, N>::Lseek { ino: nodeid, fh, offset, whence }),
        ),
        op matches Operation::CopyFileRange {
            fh_in,
            offset_in,
            nodeid_out,
            fh_out,
            offset_out,
            len,
            flags,
        } ==> call_of(nodeid, op) == Some(
            (FsCall::<B, N>::CopyFileRange {
                ino_in: nodeid,
                fh_in,
                offset_in,
                ino_out: nodeid_out,
                fh_out,
                offset_out,
                len,
                flags: if flags < 0x1_0000_0000 {
                    flags as u32
                } else {
                    0
                },
            }),
        ),
        op matches Operation::SetVolName { name } ==> call_of(nodeid, op) == Some(
            (FsCall::<B, N>::SetVolName { name }),
        ),
        op is GetXTimes ==> call_of(nodeid, op) == Some(
            (FsCall::<B, N>::GetXTimes { ino: nodeid }),
        ),
        op matches Operation::Exchange { olddir, newdir, options, name, newname } ==> call_of(
            nodeid,
            op,
        ) == Some(
            (FsCall::<B, N>::Exchange {
                parent: olddir,
                name,
                newparent: newdir,
                newname,
                options,
            }),
        ),
        op is Init ==> call_of(nodeid, op) is None,
        op is Destroy ==> call_of(nodeid, op) is None,
        op is Interrupt ==> call_of(nodeid, op) is None,
        op is NotifyReply ==> call_of(nodeid, op) is None,
        op is CuseInit ==> call_of(nodeid, op) is None,
{
}

/// What contracts speak of in place of a call is that call, with its names and data as
/// sequences of bytes.
pub proof fn law_views_keep_the_call(call: Call<'_>)
    ensures
        call matches FsCall::Lookup { parent, name } ==> call@ == (
            CallView::Lookup { parent, name: name@ }
        ),
        call matches FsCall::Forget { ino, nlookup } ==> call@ == (
            CallView::Forget { ino, nlookup }
        ),
        call matches FsCall::BatchForget { nodes } ==> call@ == (
            CallView::BatchForget { nodes: nodes@ }
        ),
        call matches FsCall::GetAttr { ino, fh } ==> call@ == (CallView::GetAttr { ino, fh }),
        call matches FsCall::SetAttr { ino, attrs } ==> call@ == (CallView::SetAttr { ino, attrs }),
        call matches FsCall::ReadLink { ino } ==> call@ == (CallView::ReadLink { ino }),
        call matches FsCall::MkNod { parent, name, mode, umask, rdev } ==> call@ == (
            CallView::MkNod { parent, name: name@, mode, umask, rdev }
        ),
        call matches FsCall::MkDir { parent, name, mode, umask } ==> call@ == (
            CallView::MkDir { parent, name: name@, mode, umask }
        ),
        call matches FsCall::Unlink { parent, name } ==> call@ == (
            CallView::Unlink { parent, name: name@ }
        ),
        call matches FsCall::RmDir { parent, name } ==> call@ == (
            CallView::RmDir { parent, name: name@ }
        ),
        call matches FsCall::SymLink { parent, link_name, target } ==> call@ == (
            CallView::SymLink { parent, link_name: link_name@, target: target@ }
        ),
        call matches FsCall::Rename { parent, name, newparent, newname, flags } ==> call@ == (
            CallView::Rename { parent, name: name@, newparent, newname: newname@, flags }
        ),
        call matches FsCall::Link { ino, newparent, newname } ==> call@ == (
            CallView::Link { ino, newparent, newname: newname@ }
        ),
        call matches FsCall::Open { ino, flags } ==> call@ == (CallView::Open { ino, flags }),
        call matches FsCall::Read { ino, fh, offset, size, flags, lock_owner } ==> call@ == (
            CallView::Read { ino, fh, offset, size, flags, lock_owner }
        ),
        call matches FsCall::Write {
            ino,
            fh,
            offset,
            data,
            write_flags,
            flags,
            lock_owner,
        } ==> call@ == (
            CallView::Write { ino, fh, offset, data: data@, write_flags, flags, lock_owner }
        ),
        call matches FsCall::Flush { ino, fh, lock_owner } ==> call@ == (
            CallView::Flush { ino, fh, lock_owner }
        ),
        call matches FsCall::Release { ino, fh, flags, lock_owner, flush } ==> call@ == (
            CallView::Release { ino, fh, flags, lock_owner, flush }
        ),
        call matches FsCall::FSync { ino, fh, datasync } ==> call@ == (
            CallView::FSync { ino, fh, datasync }
        ),
        call matches FsCall::OpenDir { ino, flags } ==> call@ == (CallView::OpenDir { ino, flags }),
        call matches FsCall::ReadDir { ino, fh, offset, size } ==> call@ == (
            CallView::ReadDir { ino, fh, offset, size }
        ),
        call matches FsCall::ReadDirPlus { ino, fh, offset, size } ==> call@ == (
            CallView::ReadDirPlus { ino, fh, offset, size }
        ),
        call matches FsCall::ReleaseDir { ino, fh, flags } ==> call@ == (
            CallView::ReleaseDir { ino, fh, flags }
        ),
        call matches FsCall::FSyncDir { ino, fh, datasync } ==> call@ == (
            CallView::FSyncDir { ino, fh, datasync }
        ),
        call matches FsCall::StatFs { ino } ==> call@ == (CallView::StatFs { ino }),
        call matches FsCall::SetXAttr { ino, name, value, flags, position } ==> call@ == (
            CallView::SetXAttr { ino, name: name@, value: value@, flags, position }
        ),
        call matches FsCall::GetXAttr { ino, name, size } ==> call@ == (
            CallView::GetXAttr { ino, name: name@, size }
        ),
        call matches FsCall::ListXAttr { ino, size } ==> call@ == (
            CallView::ListXAttr { ino, size }
        ),
        call matches FsCall::RemoveXAttr { ino, name } ==> call@ == (
            CallView::RemoveXAttr { ino, name: name@ }
        ),
        call matches FsCall::Access { ino, mask } ==> call@ == (CallView::Access { ino, mask }),
        call matches FsCall::Create { parent, name, mode, umask, flags } ==> call@ == (
            CallView::Create { parent, name: name@, mode, umask, flags }
        ),
        call matches FsCall::GetLk { ino, fh, lock_owner, lock } ==> call@ == (
            CallView::GetLk { ino, fh, lock_owner, lock }
        ),
        call matches FsCall::SetLk { ino, fh, lock_owner, lock, sleep } ==> call@ == (
            CallView::SetLk { ino, fh, lock_owner, lock, sleep }
        ),
        call matches FsCall::BMap { ino, blocksize, idx } ==> call@ == (
            CallView::BMap { ino, blocksize, idx }
        ),
        call matches FsCall::IoCtl { ino, fh, flags, cmd, in_data, out_size } ==> call@ == (
            CallView::IoCtl { ino, fh, flags, cmd, in_data: in_data@, out_size }
        ),
        call matches FsCall::Poll { ino, fh, kernel_handle, events, flags } ==> call@ == (
            CallView::Poll { ino, fh, kernel_handle, events, flags }
        ),
        call matches FsCall::FAllocate { ino, fh, offset, length, mode } ==> call@ == (
            CallView::FAllocate { ino, fh, offset, length, mode }
        ),
        call matches FsCall::Lseek { ino, fh, offset, whence } ==> call@ == (
            CallView::Lseek { ino, fh, offset, whence }
        ),
        call matches FsCall::CopyFileRange {
            ino_in,
            fh_in,
            offset_in,
            ino_out,
            fh_out,
            offset_out,
            len,
            flags,
        } ==> call@ == (
            CallView::CopyFileRange {
                ino_in,
                fh_in,
                offset_in,
                ino_out,
                fh_out,
                offset_out,
                len,
                flags,
            }
        ),
        call matches FsCall::SetVolName { name } ==> call@ == (
            CallView::SetVolName { name: name@ }
        ),
        call matches FsCall::Exchange { parent, name, newparent, newname, options } ==> call@ == (
            CallView::Exchange { parent, name: name@, newparent, newname: newname@, options }
        ),
        call matches FsCall::GetXTimes { ino } ==> call@ == (CallView::GetXTimes { ino }),
{
}

/// There is a call in what contracts speak of exactly if there is one, and it is that call.
pub proof fn law_views_keep_no_call(call: Option<Call<'_>>)
    ensures
        call_view(call) is Some <==> call is Some,
        call matches Some(made) ==> call_view(call) == Some(made@),
{
}

/// What becomes of each call that a filesystem does not implement. To forget is not answered; a
/// link is not permitted; to open and to release succeed, with no handle and no flag; statistics
/// tell of no block and no inode, of transfers of 512 bytes and of names of 255; every other call
/// is not there.
pub proof fn law_defaults<B, N>(errnos: Errnos, call: FsCall<B, N>)
    ensures
        default_of(errnos, call) == DefaultOutcome::Nothing <==> call is Forget,
        default_of(errnos, call) == DefaultOutcome::ForgetEach <==> call is BatchForget,
        call is SymLink || call is Link ==> default_of(errnos, call) == DefaultOutcome::Error(
            errnos.eperm,
        ),
        default_of(errnos, call) == (DefaultOutcome::Opened { fh: 0, flags: 0 }) <==> call is Open
            || call is OpenDir,
        default_of(errnos, call) == DefaultOutcome::Empty <==> call is Release
            || call is ReleaseDir,
        default_of(errnos, call) is Statfs <==> call is StatFs,
        call is StatFs ==> (default_of(errnos, call) matches DefaultOutcome::Statfs(st) && {
            &&& st.blocks == 0
            &&& st.bfree == 0
            &&& st.bavail == 0
            &&& st.files == 0
            &&& st.ffree == 0
            &&& st.bsize == 512
            &&& st.namelen == 255
            &&& st.frsize == 0
        }),
        !(call is Forget || call is BatchForget || call is SymLink || call is Link || call is Open
            || call is OpenDir || call is Release || call is ReleaseDir || call is StatFs)
            ==> default_of(errnos, call) == DefaultOutcome::Error(errnos.enosys),
        default_of(errnos, call) is Error ==> default_of(errnos, call) == DefaultOutcome::Error(
            if call is SymLink || call is Link {
                errnos.eperm
            } else {
                errnos.enosys
            },
        ),
{
}

/// One inode of a batch is forgotten as if it had been asked for alone.
pub proof fn law_batches_forget_each<B, N>(node: ForgetOne)
    ensures
        call_of(node.nodeid, (Operation::<B, N>::Forget { nlookup: node.nlookup })) == Some(
            forget_of::<B, N>(node),
        ),
        forget_of::<B, N>(node) == (FsCall::<B, N>::Forget {
            ino: node.nodeid,
            nlookup: node.nlookup,
        }),
{
}

/// The kernel waits for a reply to every call but those that forget inodes.
pub proof fn law_only_forgetting_expects_no_reply<B, N>(call: FsCall<B, N>)
    ensures
        expects_reply(call) <==> call !is Forget && call !is BatchForget,
{
}

/// The kernel reads back the outcome of a call from the reply to it, and the request that it
/// answers: an error is in the header alone, and in no other reply; a handle and its flags are
/// behind the header; statistics are, in their order, with nothing but zeros behind them.
pub proof fn law_outcomes_read_back(o: ByteOrder, unique: u64, outcome: DefaultOutcome)
    requires
        outcome != DefaultOutcome::Error(i32::MIN),
    ensures
        outcome == DefaultOutcome::Nothing || outcome == DefaultOutcome::ForgetEach
            <==> outcome_bytes(o, unique, outcome) is None,
        outcome_bytes(o, unique, outcome) matches Some(s) ==> {
            &&& wire::u32_at(o, s, 0) == s.len()
            &&& wire::u64_at(o, s, 8) == unique
            &&& wire::i32_at(o, s, 4) == if let DefaultOutcome::Error(errno) = outcome {
                -errno
            } else {
                0
            }
            &&& outcome is Error || outcome == DefaultOutcome::Empty ==> s.len() == 16
            &&& outcome matches DefaultOutcome::Opened { fh, flags } ==> {
                &&& s.len() == 32
                &&& wire::u64_at(o, s, 16) == fh
                &&& wire::u32_at(o, s, 24) == flags
                &&& wire::u32_at(o, s, 28) == 0
            }
            &&& outcome matches DefaultOutcome::Statfs(st) ==> {
                &&& s.len() == 96
                &&& wire::u64_at(o, s, 16) == st.blocks
                &&& wire::u64_at(o, s, 24) == st.bfree
                &&& wire::u64_at(o, s, 32) == st.bavail
                &&& wire::u64_at(o, s, 40) == st.files
                &&& wire::u64_at(o, s, 48) == st.ffree
                &&& wire::u32_at(o, s, 56) == st.bsize
                &&& wire::u32_at(o, s, 60) == st.namelen
                &&& wire::u32_at(o, s, 64) == st.frsize
                &&& forall|i: int| 68 <= i < 96 ==> s[i] == 0
            }
        },
{
    if let Some(s) = outcome_bytes(o, unique, outcome) {
        match outcome {
            DefaultOutcome::Error(errno) => {
                reply::law_error_reply_reads_back(o, unique, errno);
            },
            DefaultOutcome::Empty => {
                reply::law_reply_reads_back(o, unique, 0, seq![]);
            },
            DefaultOutcome::Opened { fh, flags } => {
                wire::lemma_uint_bytes_len(o, fh as nat, 8);
                wire::lemma_uint_bytes_len(o, flags as nat, 4);
                wire::lemma_uint_bytes_len(o, 0, 4);
                reply::law_reply_reads_back(o, unique, 0, opened_payload(o, fh, flags));
                reply::lemma_out_header_len(o, s.len(), 0, unique);
                assert(s.subrange(16, 24) =~= wire::uint_bytes(o, fh as nat, 8));
                assert(s.subrange(24, 28) =~= wire::uint_bytes(o, flags as nat, 4));
                assert(s.subrange(28, 32) =~= wire::uint_bytes(o, 0, 4));
                wire::lemma_u64_at(o, s, 16, fh);
                wire::lemma_u32_at(o, s, 24, flags);
                wire::lemma_u32_at(o, s, 28, 0);
            },
            DefaultOutcome::Statfs(st) => {
                lemma_statistics_read_back(o, unique, st);
            },
            _ => {},
        }
    }
}

proof fn lemma_statistics_read_back(o: ByteOrder, unique: u64, st: Statfs)
    ensures
        ({
            let s = reply::reply_bytes(o, unique, 0, statfs_payload(o, st));
            &&& s.len() == 96
            &&& wire::u32_at(o, s, 0) == 96
            &&& wire::i32_at(o, s, 4) == 0
            &&& wire::u64_at(o, s, 8) == unique
            &&& wire::u64_at(o, s, 16) == st.blocks
            &&& wire::u64_at(o, s, 24) == st.bfree
            &&& wire::u64_at(o, s, 32) == st.bavail
            &&& wire::u64_at(o, s, 40) == st.files
            &&& wire::u64_at(o, s, 48) == st.ffree
            &&& wire::u32_at(o, s, 56) == st.bsize
            &&& wire::u32_at(o, s, 60) == st.namelen
            &&& wire::u32_at(o, s, 64) == st.frsize
            &&& forall|i: int| 68 <= i < 96 ==> s[i] == 0
        }),
{
    let s = reply::reply_bytes(o, unique, 0, statfs_payload(o, st));
    wire::lemma_uint_bytes_len(o, st.blocks as nat, 8);
    wire::lemma_uint_bytes_len(o, st.bfree as nat, 8);
    wire::lemma_uint_bytes_len(o, st.bavail as nat, 8);
    wire::lemma_uint_bytes_len(o, st.files as nat, 8);
    wire::lemma_uint_bytes_len(o, st.ffree as nat, 8);
    wire::lemma_uint_bytes_len(o, st.bsize as nat, 4);
    wire::lemma_uint_bytes_len(o, st.namelen as nat, 4);
    wire::lemma_uint_bytes_len(o, st.frsize as nat, 4);
    reply::law_reply_reads_back(o, unique, 0, statfs_payload(o, st));
    reply::lemma_out_header_len(o, 96, 0, unique);
    assert(s.subrange(16, 24) =~= wire::uint_bytes(o, st.blocks as nat, 8));
    assert(s.subrange(24, 32) =~= wire::uint_bytes(o, st.bfree as nat, 8));
    assert(s.subrange(32, 40) =~= wire::uint_bytes(o, st.bavail as nat, 8));
    assert(s.subrange(40, 48) =~= wire::uint_bytes(o, st.files as nat, 8));
    assert(s.subrange(48, 56) =~= wire::uint_bytes(o, st.ffree as nat, 8));
    assert(s.subrange(56, 60) =~= wire::uint_bytes(o, st.bsize as nat, 4));
    assert(s.subrange(60, 64) =~= wire::uint_bytes(o, st.namelen as nat, 4));
    assert(s.subrange(64, 68) =~= wire::uint_bytes(o, st.frsize as nat, 4));
    wire::lemma_u64_at(o, s, 16, st.blocks);
    wire::lemma_u64_at(o, s, 24, st.bfree);
    wire::lemma_u64_at(o, s, 32, st.bavail);
    wire::lemma_u64_at(o, s, 40, st.files);
    wire::lemma_u64_at(o, s, 48, st.ffree);
    wire::lemma_u32_at(o, s, 56, st.bsize);
    wire::lemma_u32_at(o, s, 60, st.namelen);
    wire::lemma_u32_at(o, s, 64, st.frsize);
}

} // verus!
