//! What the kernel writes is what the library reads: for every operation, the bytes of its
//! arguments in their places, and the operation that they are read as.
//!
//! Bytes that the interface leaves unused are arbitrary here, as is what follows the arguments
//! where an operation allows for it.
use crate::operation::{
    self, FileLock, ForgetOne, OpView, Operation, SetAttrs, TimeOrNow, Timestamp,
};
use crate::platform::Os;
use crate::wire::{self, ByteOrder};
use vstd::prelude::*;

verus! {

/// A lookup: the name.
pub proof fn law_lookup_reads_back(os: Os, o: ByteOrder, name: Seq<u8>, rest: Seq<u8>)
    requires
        !name.contains(0),
    ensures
        operation::operation_of(
            os,
            o,
            1,
            Seq::<u8>::empty() + name.push(0) + rest,
        ) == Some((OpView::Lookup { name })),
{
    let fixed = Seq::<u8>::empty();
    let s = Seq::<u8>::empty() + name.push(0) + rest;
    operation::law_names_read_back(fixed, name, rest);
    assert(s =~= fixed + s);
}

/// To forget an inode: the number of lookups.
pub proof fn law_forget_reads_back(os: Os, o: ByteOrder, nlookup: u64, rest: Seq<u8>)
    ensures
        operation::operation_of(
            os,
            o,
            2,
            wire::uint_bytes(o, nlookup as nat, 8) + rest,
        ) == Some((OpView::Forget { nlookup })),
{
    let s = wire::uint_bytes(o, nlookup as nat, 8) + rest;
    wire::lemma_uint_bytes_len(o, nlookup as nat, 8);
    assert(s.subrange(0, 8) =~= wire::uint_bytes(o, nlookup as nat, 8));
    wire::lemma_u64_at(o, s, 0, nlookup);
}

/// To get attributes: flags, the lowest of which says that an open file is named, and the
/// file.
pub proof fn law_getattr_reads_back(
    os: Os,
    o: ByteOrder,
    flags: u32,
    unused: Seq<u8>,
    fh: u64,
    rest: Seq<u8>,
)
    requires
        unused.len() == 4,
    ensures
        operation::operation_of(
            os,
            o,
            3,
            wire::uint_bytes(o, flags as nat, 4) + unused + wire::uint_bytes(o, fh as nat, 8)
                + rest,
        ) == Some((OpView::GetAttr { fh: if flags & 1 != 0 { Some(fh) } else { None } })),
{
    let s = wire::uint_bytes(o, flags as nat, 4) + unused + wire::uint_bytes(o, fh as nat, 8)
        + rest;
    wire::lemma_uint_bytes_len(o, flags as nat, 4);
    wire::lemma_uint_bytes_len(o, fh as nat, 8);
    assert(s.subrange(0, 4) =~= wire::uint_bytes(o, flags as nat, 4));
    wire::lemma_u32_at(o, s, 0, flags);
    assert(s.subrange(8, 16) =~= wire::uint_bytes(o, fh as nat, 8));
    wire::lemma_u64_at(o, s, 8, fh);
}

/// To set attributes: flags that say which of them are set and which times are that of the
/// request, then the attributes.
pub proof fn law_setattr_reads_back(
    os: Os,
    o: ByteOrder,
    valid: u32,
    unused: Seq<u8>,
    fh: u64,
    size: u64,
    unused2: Seq<u8>,
    atime: i64,
    mtime: i64,
    ctime: i64,
    atimensec: u32,
    mtimensec: u32,
    ctimensec: u32,
    mode: u32,
    unused3: Seq<u8>,
    uid: u32,
    gid: u32,
    unused4: Seq<u8>,
    rest: Seq<u8>,
)
    requires
        os != Os::MacOs,
        unused.len() == 4,
        unused2.len() == 8,
        unused3.len() == 4,
        unused4.len() == 4,
    ensures
        operation::operation_of(
            os,
            o,
            4,
            wire::uint_bytes(o, valid as nat, 4) + unused + wire::uint_bytes(o, fh as nat, 8)
                + wire::uint_bytes(o, size as nat, 8) + unused2
                + wire::uint_bytes(o, wire::pattern64(atime as int), 8)
                + wire::uint_bytes(o, wire::pattern64(mtime as int), 8)
                + wire::uint_bytes(o, wire::pattern64(ctime as int), 8)
                + wire::uint_bytes(o, atimensec as nat, 4)
                + wire::uint_bytes(o, mtimensec as nat, 4)
                + wire::uint_bytes(o, ctimensec as nat, 4) + wire::uint_bytes(o, mode as nat, 4)
                + unused3 + wire::uint_bytes(o, uid as nat, 4) + wire::uint_bytes(o, gid as nat, 4)
                + unused4 + rest,
        ) == Some(
            (OpView::SetAttr {
                attrs: SetAttrs {
                    mode: if valid & 1 != 0 { Some(mode) } else { None },
                    uid: if valid & 2 != 0 { Some(uid) } else { None },
                    gid: if valid & 4 != 0 { Some(gid) } else { None },
                    size: if valid & 8 != 0 { Some(size) } else { None },
                    atime: if valid & 16 != 0 {
                        Some(
                            if valid & 128 != 0 {
                                TimeOrNow::Now
                            } else {
                                TimeOrNow::SpecificTime(
                                    Timestamp { secs: atime, nanos: atimensec },
                                )
                            },
                        )
                    } else {
                        None
                    },
                    mtime: if valid & 32 != 0 {
                        Some(
                            if valid & 256 != 0 {
                                TimeOrNow::Now
                            } else {
                                TimeOrNow::SpecificTime(
                                    Timestamp { secs: mtime, nanos: mtimensec },
                                )
                            },
                        )
                    } else {
                        None
                    },
                    ctime: if valid & 1024 != 0 {
                        Some(Timestamp { secs: ctime, nanos: ctimensec })
                    } else {
                        None
                    },
                    fh: if valid & 64 != 0 { Some(fh) } else { None },
                    crtime: None,
                    chgtime: None,
                    bkuptime: None,
                    flags: None,
                },
            }),
        ),
{
    let s = wire::uint_bytes(o, valid as nat, 4) + unused + wire::uint_bytes(o, fh as nat, 8)
        + wire::uint_bytes(o, size as nat, 8) + unused2
        + wire::uint_bytes(o, wire::pattern64(atime as int), 8)
        + wire::uint_bytes(o, wire::pattern64(mtime as int), 8)
        + wire::uint_bytes(o, wire::pattern64(ctime as int), 8)
        + wire::uint_bytes(o, atimensec as nat, 4)
        + wire::uint_bytes(o, mtimensec as nat, 4)
        + wire::uint_bytes(o, ctimensec as nat, 4) + wire::uint_bytes(o, mode as nat, 4)
        + unused3 + wire::uint_bytes(o, uid as nat, 4) + wire::uint_bytes(o, gid as nat, 4)
        + unused4 + rest;
    wire::lemma_uint_bytes_len(o, valid as nat, 4);
    wire::lemma_uint_bytes_len(o, fh as nat, 8);
    wire::lemma_uint_bytes_len(o, size as nat, 8);
    wire::lemma_uint_bytes_len(o, wire::pattern64(atime as int), 8);
    wire::lemma_uint_bytes_len(o, wire::pattern64(mtime as int), 8);
    wire::lemma_uint_bytes_len(o, wire::pattern64(ctime as int), 8);
    wire::lemma_uint_bytes_len(o, atimensec as nat, 4);
    wire::lemma_uint_bytes_len(o, mtimensec as nat, 4);
    wire::lemma_uint_bytes_len(o, ctimensec as nat, 4);
    wire::lemma_uint_bytes_len(o, mode as nat, 4);
    wire::lemma_uint_bytes_len(o, uid as nat, 4);
    wire::lemma_uint_bytes_len(o, gid as nat, 4);
    assert(s.subrange(0, 4) =~= wire::uint_bytes(o, valid as nat, 4));
    wire::lemma_u32_at(o, s, 0, valid);
    assert(s.subrange(8, 16) =~= wire::uint_bytes(o, fh as nat, 8));
    wire::lemma_u64_at(o, s, 8, fh);
    assert(s.subrange(16, 24) =~= wire::uint_bytes(o, size as nat, 8));
    wire::lemma_u64_at(o, s, 16, size);
    assert(s.subrange(32, 40) =~= wire::uint_bytes(o, wire::pattern64(atime as int), 8));
    wire::lemma_i64_at(o, s, 32, atime);
    assert(s.subrange(40, 48) =~= wire::uint_bytes(o, wire::pattern64(mtime as int), 8));
    wire::lemma_i64_at(o, s, 40, mtime);
    assert(s.subrange(48, 56) =~= wire::uint_bytes(o, wire::pattern64(ctime as int), 8));
    wire::lemma_i64_at(o, s, 48, ctime);
    assert(s.subrange(56, 60) =~= wire::uint_bytes(o, atimensec as nat, 4));
    wire::lemma_u32_at(o, s, 56, atimensec);
    assert(s.subrange(60, 64) =~= wire::uint_bytes(o, mtimensec as nat, 4));
    wire::lemma_u32_at(o, s, 60, mtimensec);
    assert(s.subrange(64, 68) =~= wire::uint_bytes(o, ctimensec as nat, 4));
    wire::lemma_u32_at(o, s, 64, ctimensec);
    assert(s.subrange(68, 72) =~= wire::uint_bytes(o, mode as nat, 4));
    wire::lemma_u32_at(o, s, 68, mode);
    assert(s.subrange(76, 80) =~= wire::uint_bytes(o, uid as nat, 4));
    wire::lemma_u32_at(o, s, 76, uid);
    assert(s.subrange(80, 84) =~= wire::uint_bytes(o, gid as nat, 4));
    wire::lemma_u32_at(o, s, 80, gid);
}

/// To read a symbolic link: nothing.
pub proof fn law_readlink_reads_back(os: Os, o: ByteOrder, rest: Seq<u8>)
    ensures
        operation::operation_of(os, o, 5, rest) == Some((OpView::ReadLink)),
{
}

/// To create a symbolic link: its name, and what it points to.
pub proof fn law_symlink_reads_back(
    os: Os,
    o: ByteOrder,
    link_name: Seq<u8>,
    target: Seq<u8>,
    rest: Seq<u8>,
)
    requires
        !link_name.contains(0),
        !target.contains(0),
    ensures
        operation::operation_of(
            os,
            o,
            6,
            Seq::<u8>::empty() + link_name.push(0) + target.push(0) + rest,
        ) == Some((OpView::SymLink { link_name, target })),
{
    let fixed = Seq::<u8>::empty();
    let s = Seq::<u8>::empty() + link_name.push(0) + target.push(0) + rest;
    operation::law_names_read_back(fixed, link_name, target.push(0) + rest);
    operation::law_names_read_back(fixed + link_name.push(0), target, rest);
    assert(s =~= fixed + link_name.push(0) + (target.push(0) + rest));
    assert(s =~= fixed + s);
}

/// To create a node: mode, device and umask, and the name.
pub proof fn law_mknod_reads_back(
    os: Os,
    o: ByteOrder,
    mode: u32,
    rdev: u32,
    umask: u32,
    unused: Seq<u8>,
    name: Seq<u8>,
    rest: Seq<u8>,
)
    requires
        unused.len() == 4,
        !name.contains(0),
    ensures
        operation::operation_of(
            os,
            o,
            8,
            wire::uint_bytes(o, mode as nat, 4) + wire::uint_bytes(o, rdev as nat, 4)
                + wire::uint_bytes(o, umask as nat, 4) + unused + name.push(0) + rest,
        ) == Some((OpView::MkNod { mode, rdev, umask, name })),
{
    let fixed = wire::uint_bytes(o, mode as nat, 4) + wire::uint_bytes(o, rdev as nat, 4)
        + wire::uint_bytes(o, umask as nat, 4) + unused;
    let s = wire::uint_bytes(o, mode as nat, 4) + wire::uint_bytes(o, rdev as nat, 4)
        + wire::uint_bytes(o, umask as nat, 4) + unused + name.push(0) + rest;
    wire::lemma_uint_bytes_len(o, mode as nat, 4);
    wire::lemma_uint_bytes_len(o, rdev as nat, 4);
    wire::lemma_uint_bytes_len(o, umask as nat, 4);
    assert(s.subrange(0, 4) =~= wire::uint_bytes(o, mode as nat, 4));
    wire::lemma_u32_at(o, s, 0, mode);
    assert(s.subrange(4, 8) =~= wire::uint_bytes(o, rdev as nat, 4));
    wire::lemma_u32_at(o, s, 4, rdev);
    assert(s.subrange(8, 12) =~= wire::uint_bytes(o, umask as nat, 4));
    wire::lemma_u32_at(o, s, 8, umask);
    operation::law_names_read_back(fixed, name, rest);
}

/// To create a directory: mode and umask, and the name.
pub proof fn law_mkdir_reads_back(
    os: Os,
    o: ByteOrder,
    mode: u32,
    umask: u32,
    name: Seq<u8>,
    rest: Seq<u8>,
)
    requires
        !name.contains(0),
    ensures
        operation::operation_of(
            os,
            o,
            9,
            wire::uint_bytes(o, mode as nat, 4) + wire::uint_bytes(o, umask as nat, 4)
                + name.push(0) + rest,
        ) == Some((OpView::MkDir { mode, umask, name })),
{
    let fixed = wire::uint_bytes(o, mode as nat, 4) + wire::uint_bytes(o, umask as nat, 4);
    let s = wire::uint_bytes(o, mode as nat, 4) + wire::uint_bytes(o, umask as nat, 4)
        + name.push(0) + rest;
    wire::lemma_uint_bytes_len(o, mode as nat, 4);
    wire::lemma_uint_bytes_len(o, umask as nat, 4);
    assert(s.subrange(0, 4) =~= wire::uint_bytes(o, mode as nat, 4));
    wire::lemma_u32_at(o, s, 0, mode);
    assert(s.subrange(4, 8) =~= wire::uint_bytes(o, umask as nat, 4));
    wire::lemma_u32_at(o, s, 4, umask);
    operation::law_names_read_back(fixed, name, rest);
}

/// To remove a file: the name.
pub proof fn law_unlink_reads_back(os: Os, o: ByteOrder, name: Seq<u8>, rest: Seq<u8>)
    requires
        !name.contains(0),
    ensures
        operation::operation_of(
            os,
            o,
            10,
            Seq::<u8>::empty() + name.push(0) + rest,
        ) == Some((OpView::Unlink { name })),
{
    let fixed = Seq::<u8>::empty();
    let s = Seq::<u8>::empty() + name.push(0) + rest;
    operation::law_names_read_back(fixed, name, rest);
    assert(s =~= fixed + s);
}

/// To remove a directory: the name.
pub proof fn law_rmdir_reads_back(os: Os, o: ByteOrder, name: Seq<u8>, rest: Seq<u8>)
    requires
        !name.contains(0),
    ensures
        operation::operation_of(
            os,
            o,
            11,
            Seq::<u8>::empty() + name.push(0) + rest,
        ) == Some((OpView::RmDir { name })),
{
    let fixed = Seq::<u8>::empty();
    let s = Seq::<u8>::empty() + name.push(0) + rest;
    operation::law_names_read_back(fixed, name, rest);
    assert(s =~= fixed + s);
}

/// To rename: the new directory, the old name and the new one.
pub proof fn law_rename_reads_back(
    os: Os,
    o: ByteOrder,
    newdir: u64,
    name: Seq<u8>,
    newname: Seq<u8>,
    rest: Seq<u8>,
)
    requires
        !name.contains(0),
        !newname.contains(0),
    ensures
        operation::operation_of(
            os,
            o,
            12,
            wire::uint_bytes(o, newdir as nat, 8) + name.push(0) + newname.push(0) + rest,
        ) == Some((OpView::Rename { newdir, name, newname })),
{
    let fixed = wire::uint_bytes(o, newdir as nat, 8);
    let s = wire::uint_bytes(o, newdir as nat, 8) + name.push(0) + newname.push(0) + rest;
    wire::lemma_uint_bytes_len(o, newdir as nat, 8);
    assert(s.subrange(0, 8) =~= wire::uint_bytes(o, newdir as nat, 8));
    wire::lemma_u64_at(o, s, 0, newdir);
    operation::law_names_read_back(fixed, name, newname.push(0) + rest);
    operation::law_names_read_back(fixed + name.push(0), newname, rest);
    assert(s =~= fixed + name.push(0) + (newname.push(0) + rest));
}

/// To create a hard link: the inode to link to, and the name.
pub proof fn law_link_reads_back(os: Os, o: ByteOrder, oldnodeid: u64, name: Seq<u8>, rest: Seq<u8>)
    requires
        !name.contains(0),
    ensures
        operation::operation_of(
            os,
            o,
            13,
            wire::uint_bytes(o, oldnodeid as nat, 8) + name.push(0) + rest,
        ) == Some((OpView::Link { oldnodeid, name })),
{
    let fixed = wire::uint_bytes(o, oldnodeid as nat, 8);
    let s = wire::uint_bytes(o, oldnodeid as nat, 8) + name.push(0) + rest;
    wire::lemma_uint_bytes_len(o, oldnodeid as nat, 8);
    assert(s.subrange(0, 8) =~= wire::uint_bytes(o, oldnodeid as nat, 8));
    wire::lemma_u64_at(o, s, 0, oldnodeid);
    operation::law_names_read_back(fixed, name, rest);
}

/// To open a file: flags.
pub proof fn law_open_reads_back(os: Os, o: ByteOrder, flags: i32, unused: Seq<u8>, rest: Seq<u8>)
    requires
        unused.len() == 4,
    ensures
        operation::operation_of(
            os,
            o,
            14,
            wire::uint_bytes(o, wire::pattern32(flags as int), 4) + unused + rest,
        ) == Some((OpView::Open { flags })),
{
    let s = wire::uint_bytes(o, wire::pattern32(flags as int), 4) + unused + rest;
    wire::lemma_uint_bytes_len(o, wire::pattern32(flags as int), 4);
    assert(s.subrange(0, 4) =~= wire::uint_bytes(o, wire::pattern32(flags as int), 4));
    wire::lemma_i32_at(o, s, 0, flags);
}

/// To read: file, offset and size, the flags of the read, of which the second says that the owner
/// of a lock is named, the owner, and the open flags.
pub proof fn law_read_reads_back(
    os: Os,
    o: ByteOrder,
    fh: u64,
    offset: i64,
    size: u32,
    read_flags: u32,
    lock_owner: u64,
    flags: i32,
    unused: Seq<u8>,
    rest: Seq<u8>,
)
    requires
        unused.len() == 4,
    ensures
        operation::operation_of(
            os,
            o,
            15,
            wire::uint_bytes(o, fh as nat, 8)
                + wire::uint_bytes(o, wire::pattern64(offset as int), 8)
                + wire::uint_bytes(o, size as nat, 4) + wire::uint_bytes(o, read_flags as nat, 4)
                + wire::uint_bytes(o, lock_owner as nat, 8)
                + wire::uint_bytes(o, wire::pattern32(flags as int), 4) + unused + rest,
        ) == Some(
            (OpView::Read {
                fh,
                offset,
                size,
                lock_owner: if read_flags & 2 != 0 { Some(lock_owner) } else { None },
                flags,
            }),
        ),
{
    let s = wire::uint_bytes(o, fh as nat, 8)
        + wire::uint_bytes(o, wire::pattern64(offset as int), 8)
        + wire::uint_bytes(o, size as nat, 4) + wire::uint_bytes(o, read_flags as nat, 4)
        + wire::uint_bytes(o, lock_owner as nat, 8)
        + wire::uint_bytes(o, wire::pattern32(flags as int), 4) + unused + rest;
    wire::lemma_uint_bytes_len(o, fh as nat, 8);
    wire::lemma_uint_bytes_len(o, wire::pattern64(offset as int), 8);
    wire::lemma_uint_bytes_len(o, size as nat, 4);
    wire::lemma_uint_bytes_len(o, read_flags as nat, 4);
    wire::lemma_uint_bytes_len(o, lock_owner as nat, 8);
    wire::lemma_uint_bytes_len(o, wire::pattern32(flags as int), 4);
    assert(s.subrange(0, 8) =~= wire::uint_bytes(o, fh as nat, 8));
    wire::lemma_u64_at(o, s, 0, fh);
    assert(s.subrange(8, 16) =~= wire::uint_bytes(o, wire::pattern64(offset as int), 8));
    wire::lemma_i64_at(o, s, 8, offset);
    assert(s.subrange(16, 20) =~= wire::uint_bytes(o, size as nat, 4));
    wire::lemma_u32_at(o, s, 16, size);
    assert(s.subrange(20, 24) =~= wire::uint_bytes(o, read_flags as nat, 4));
    wire::lemma_u32_at(o, s, 20, read_flags);
    assert(s.subrange(24, 32) =~= wire::uint_bytes(o, lock_owner as nat, 8));
    wire::lemma_u64_at(o, s, 24, lock_owner);
    assert(s.subrange(32, 36) =~= wire::uint_bytes(o, wire::pattern32(flags as int), 4));
    wire::lemma_i32_at(o, s, 32, flags);
}

/// To write: file, offset and size, the flags of the write, of which the second says that the
/// owner of a lock is named, the owner, the open flags, and the data.
pub proof fn law_write_reads_back(
    os: Os,
    o: ByteOrder,
    fh: u64,
    offset: i64,
    write_flags: u32,
    lock_owner: u64,
    flags: i32,
    unused: Seq<u8>,
    data: Seq<u8>,
)
    requires
        unused.len() == 4,
        data.len() <= u32::MAX,
    ensures
        operation::operation_of(
            os,
            o,
            16,
            wire::uint_bytes(o, fh as nat, 8)
                + wire::uint_bytes(o, wire::pattern64(offset as int), 8)
                + wire::uint_bytes(o, data.len() as nat, 4)
                + wire::uint_bytes(o, write_flags as nat, 4)
                + wire::uint_bytes(o, lock_owner as nat, 8)
                + wire::uint_bytes(o, wire::pattern32(flags as int), 4) + unused + data,
        ) == Some(
            (OpView::Write {
                fh,
                offset,
                write_flags,
                lock_owner: if write_flags & 2 != 0 { Some(lock_owner) } else { None },
                flags,
                data,
            }),
        ),
{
    let s = wire::uint_bytes(o, fh as nat, 8)
        + wire::uint_bytes(o, wire::pattern64(offset as int), 8)
        + wire::uint_bytes(o, data.len() as nat, 4)
        + wire::uint_bytes(o, write_flags as nat, 4)
        + wire::uint_bytes(o, lock_owner as nat, 8)
        + wire::uint_bytes(o, wire::pattern32(flags as int), 4) + unused + data;
    wire::lemma_uint_bytes_len(o, fh as nat, 8);
    wire::lemma_uint_bytes_len(o, wire::pattern64(offset as int), 8);
    wire::lemma_uint_bytes_len(o, data.len() as nat, 4);
    wire::lemma_uint_bytes_len(o, write_flags as nat, 4);
    wire::lemma_uint_bytes_len(o, lock_owner as nat, 8);
    wire::lemma_uint_bytes_len(o, wire::pattern32(flags as int), 4);
    assert(s.subrange(0, 8) =~= wire::uint_bytes(o, fh as nat, 8));
    wire::lemma_u64_at(o, s, 0, fh);
    assert(s.subrange(8, 16) =~= wire::uint_bytes(o, wire::pattern64(offset as int), 8));
    wire::lemma_i64_at(o, s, 8, offset);
    assert(s.subrange(16, 20) =~= wire::uint_bytes(o, data.len() as nat, 4));
    wire::lemma_u32_at(o, s, 16, (data.len()) as u32);
    assert(s.subrange(20, 24) =~= wire::uint_bytes(o, write_flags as nat, 4));
    wire::lemma_u32_at(o, s, 20, write_flags);
    assert(s.subrange(24, 32) =~= wire::uint_bytes(o, lock_owner as nat, 8));
    wire::lemma_u64_at(o, s, 24, lock_owner);
    assert(s.subrange(32, 36) =~= wire::uint_bytes(o, wire::pattern32(flags as int), 4));
    wire::lemma_i32_at(o, s, 32, flags);
    assert(s.skip(40) =~= data);
}

/// To get statistics: nothing.
pub proof fn law_statfs_reads_back(os: Os, o: ByteOrder, rest: Seq<u8>)
    ensures
        operation::operation_of(os, o, 17, rest) == Some((OpView::StatFs)),
{
}

/// To release a file: the file, the open flags, the flags of the release, which say whether to
/// flush and whether the owner of a lock is named, and the owner.
pub proof fn law_release_reads_back(
    os: Os,
    o: ByteOrder,
    fh: u64,
    flags: i32,
    release_flags: u32,
    lock_owner: u64,
    rest: Seq<u8>,
)
    ensures
        operation::operation_of(
            os,
            o,
            18,
            wire::uint_bytes(o, fh as nat, 8)
                + wire::uint_bytes(o, wire::pattern32(flags as int), 4)
                + wire::uint_bytes(o, release_flags as nat, 4)
                + wire::uint_bytes(o, lock_owner as nat, 8) + rest,
        ) == Some(
            (OpView::Release {
                fh,
                flags,
                flush: release_flags & 1 != 0,
                lock_owner: if release_flags & 2 != 0 { Some(lock_owner) } else { None },
            }),
        ),
{
    let s = wire::uint_bytes(o, fh as nat, 8)
        + wire::uint_bytes(o, wire::pattern32(flags as int), 4)
        + wire::uint_bytes(o, release_flags as nat, 4)
        + wire::uint_bytes(o, lock_owner as nat, 8) + rest;
    wire::lemma_uint_bytes_len(o, fh as nat, 8);
    wire::lemma_uint_bytes_len(o, wire::pattern32(flags as int), 4);
    wire::lemma_uint_bytes_len(o, release_flags as nat, 4);
    wire::lemma_uint_bytes_len(o, lock_owner as nat, 8);
    assert(s.subrange(0, 8) =~= wire::uint_bytes(o, fh as nat, 8));
    wire::lemma_u64_at(o, s, 0, fh);
    assert(s.subrange(8, 12) =~= wire::uint_bytes(o, wire::pattern32(flags as int), 4));
    wire::lemma_i32_at(o, s, 8, flags);
    assert(s.subrange(12, 16) =~= wire::uint_bytes(o, release_flags as nat, 4));
    wire::lemma_u32_at(o, s, 12, release_flags);
    assert(s.subrange(16, 24) =~= wire::uint_bytes(o, lock_owner as nat, 8));
    wire::lemma_u64_at(o, s, 16, lock_owner);
}

/// To synchronize a file: the file, and flags, of which the lowest says that only the data is
/// meant.
pub proof fn law_fsync_reads_back(
    os: Os,
    o: ByteOrder,
    fh: u64,
    flags: u32,
    unused: Seq<u8>,
    rest: Seq<u8>,
)
    requires
        unused.len() == 4,
    ensures
        operation::operation_of(
            os,
            o,
            20,
            wire::uint_bytes(o, fh as nat, 8) + wire::uint_bytes(o, flags as nat, 4) + unused
                + rest,
        ) == Some((OpView::FSync { fh, datasync: flags & 1 != 0 })),
{
    let s = wire::uint_bytes(o, fh as nat, 8) + wire::uint_bytes(o, flags as nat, 4) + unused
        + rest;
    wire::lemma_uint_bytes_len(o, fh as nat, 8);
    wire::lemma_uint_bytes_len(o, flags as nat, 4);
    assert(s.subrange(0, 8) =~= wire::uint_bytes(o, fh as nat, 8));
    wire::lemma_u64_at(o, s, 0, fh);
    assert(s.subrange(8, 12) =~= wire::uint_bytes(o, flags as nat, 4));
    wire::lemma_u32_at(o, s, 8, flags);
}

/// To set an extended attribute: the size of the value, flags, the name and the value.
pub proof fn law_setxattr_reads_back(
    os: Os,
    o: ByteOrder,
    flags: i32,
    name: Seq<u8>,
    value: Seq<u8>,
)
    requires
        os != Os::MacOs,
        !name.contains(0),
        value.len() <= u32::MAX,
    ensures
        operation::operation_of(
            os,
            o,
            21,
            wire::uint_bytes(o, value.len() as nat, 4)
                + wire::uint_bytes(o, wire::pattern32(flags as int), 4) + name.push(0) + value,
        ) == Some((OpView::SetXAttr { flags, name, value, position: 0 })),
{
    let fixed = wire::uint_bytes(o, value.len() as nat, 4)
        + wire::uint_bytes(o, wire::pattern32(flags as int), 4);
    let s = wire::uint_bytes(o, value.len() as nat, 4)
        + wire::uint_bytes(o, wire::pattern32(flags as int), 4) + name.push(0) + value;
    wire::lemma_uint_bytes_len(o, value.len() as nat, 4);
    wire::lemma_uint_bytes_len(o, wire::pattern32(flags as int), 4);
    assert(s.subrange(0, 4) =~= wire::uint_bytes(o, value.len() as nat, 4));
    wire::lemma_u32_at(o, s, 0, (value.len()) as u32);
    assert(s.subrange(4, 8) =~= wire::uint_bytes(o, wire::pattern32(flags as int), 4));
    wire::lemma_i32_at(o, s, 4, flags);
    operation::law_names_read_back(fixed, name, value);
    assert(s.skip((8 + name.len() + 1) as int) =~= value);
}

/// To get an extended attribute: the room for it, and the name.
pub proof fn law_getxattr_reads_back(
    os: Os,
    o: ByteOrder,
    size: u32,
    unused: Seq<u8>,
    name: Seq<u8>,
    rest: Seq<u8>,
)
    requires
        os != Os::MacOs,
        unused.len() == 4,
        !name.contains(0),
    ensures
        operation::operation_of(
            os,
            o,
            22,
            wire::uint_bytes(o, size as nat, 4) + unused + name.push(0) + rest,
        ) == Some((OpView::GetXAttr { size, name })),
{
    let fixed = wire::uint_bytes(o, size as nat, 4) + unused;
    let s = wire::uint_bytes(o, size as nat, 4) + unused + name.push(0) + rest;
    wire::lemma_uint_bytes_len(o, size as nat, 4);
    assert(s.subrange(0, 4) =~= wire::uint_bytes(o, size as nat, 4));
    wire::lemma_u32_at(o, s, 0, size);
    operation::law_names_read_back(fixed, name, rest);
}

/// To list extended attributes: the room for their names.
pub proof fn law_listxattr_reads_back(
    os: Os,
    o: ByteOrder,
    size: u32,
    unused: Seq<u8>,
    rest: Seq<u8>,
)
    requires
        os != Os::MacOs,
        unused.len() == 4,
    ensures
        operation::operation_of(
            os,
            o,
            23,
            wire::uint_bytes(o, size as nat, 4) + unused + rest,
        ) == Some((OpView::ListXAttr { size })),
{
    let s = wire::uint_bytes(o, size as nat, 4) + unused + rest;
    wire::lemma_uint_bytes_len(o, size as nat, 4);
    assert(s.subrange(0, 4) =~= wire::uint_bytes(o, size as nat, 4));
    wire::lemma_u32_at(o, s, 0, size);
}

/// To remove an extended attribute: the name.
pub proof fn law_removexattr_reads_back(os: Os, o: ByteOrder, name: Seq<u8>, rest: Seq<u8>)
    requires
        !name.contains(0),
    ensures
        operation::operation_of(
            os,
            o,
            24,
            Seq::<u8>::empty() + name.push(0) + rest,
        ) == Some((OpView::RemoveXAttr { name })),
{
    let fixed = Seq::<u8>::empty();
    let s = Seq::<u8>::empty() + name.push(0) + rest;
    operation::law_names_read_back(fixed, name, rest);
    assert(s =~= fixed + s);
}

/// To flush: the file, and the owner of the lock.
pub proof fn law_flush_reads_back(
    os: Os,
    o: ByteOrder,
    fh: u64,
    unused: Seq<u8>,
    lock_owner: u64,
    rest: Seq<u8>,
)
    requires
        unused.len() == 8,
    ensures
        operation::operation_of(
            os,
            o,
            25,
            wire::uint_bytes(o, fh as nat, 8) + unused + wire::uint_bytes(o, lock_owner as nat, 8)
                + rest,
        ) == Some((OpView::Flush { fh, lock_owner })),
{
    let s = wire::uint_bytes(o, fh as nat, 8) + unused + wire::uint_bytes(o, lock_owner as nat, 8)
        + rest;
    wire::lemma_uint_bytes_len(o, fh as nat, 8);
    wire::lemma_uint_bytes_len(o, lock_owner as nat, 8);
    assert(s.subrange(0, 8) =~= wire::uint_bytes(o, fh as nat, 8));
    wire::lemma_u64_at(o, s, 0, fh);
    assert(s.subrange(16, 24) =~= wire::uint_bytes(o, lock_owner as nat, 8));
    wire::lemma_u64_at(o, s, 16, lock_owner);
}

/// To initialize: the protocol version, the largest readahead and the capabilities.
pub proof fn law_init_reads_back(
    os: Os,
    o: ByteOrder,
    major: u32,
    minor: u32,
    max_readahead: u32,
    capabilities: u32,
    rest: Seq<u8>,
)
    ensures
        operation::operation_of(
            os,
            o,
            26,
            wire::uint_bytes(o, major as nat, 4) + wire::uint_bytes(o, minor as nat, 4)
                + wire::uint_bytes(o, max_readahead as nat, 4)
                + wire::uint_bytes(o, capabilities as nat, 4) + rest,
        ) == Some(
            (OpView::Init { major, minor, max_readahead, capabilities: capabilities as u64 }),
        ),
{
    let s = wire::uint_bytes(o, major as nat, 4) + wire::uint_bytes(o, minor as nat, 4)
        + wire::uint_bytes(o, max_readahead as nat, 4)
        + wire::uint_bytes(o, capabilities as nat, 4) + rest;
    wire::lemma_uint_bytes_len(o, major as nat, 4);
    wire::lemma_uint_bytes_len(o, minor as nat, 4);
    wire::lemma_uint_bytes_len(o, max_readahead as nat, 4);
    wire::lemma_uint_bytes_len(o, capabilities as nat, 4);
    assert(s.subrange(0, 4) =~= wire::uint_bytes(o, major as nat, 4));
    wire::lemma_u32_at(o, s, 0, major);
    assert(s.subrange(4, 8) =~= wire::uint_bytes(o, minor as nat, 4));
    wire::lemma_u32_at(o, s, 4, minor);
    assert(s.subrange(8, 12) =~= wire::uint_bytes(o, max_readahead as nat, 4));
    wire::lemma_u32_at(o, s, 8, max_readahead);
    assert(s.subrange(12, 16) =~= wire::uint_bytes(o, capabilities as nat, 4));
    wire::lemma_u32_at(o, s, 12, capabilities);
}

/// To open a directory: flags.
pub proof fn law_opendir_reads_back(
    os: Os,
    o: ByteOrder,
    flags: i32,
    unused: Seq<u8>,
    rest: Seq<u8>,
)
    requires
        unused.len() == 4,
    ensures
        operation::operation_of(
            os,
            o,
            27,
            wire::uint_bytes(o, wire::pattern32(flags as int), 4) + unused + rest,
        ) == Some((OpView::OpenDir { flags })),
{
    let s = wire::uint_bytes(o, wire::pattern32(flags as int), 4) + unused + rest;
    wire::lemma_uint_bytes_len(o, wire::pattern32(flags as int), 4);
    assert(s.subrange(0, 4) =~= wire::uint_bytes(o, wire::pattern32(flags as int), 4));
    wire::lemma_i32_at(o, s, 0, flags);
}

/// To read a directory: the directory, where to go on, and the room for entries.
pub proof fn law_readdir_reads_back(
    os: Os,
    o: ByteOrder,
    fh: u64,
    offset: i64,
    size: u32,
    unused: Seq<u8>,
    rest: Seq<u8>,
)
    requires
        unused.len() == 20,
    ensures
        operation::operation_of(
            os,
            o,
            28,
            wire::uint_bytes(o, fh as nat, 8)
                + wire::uint_bytes(o, wire::pattern64(offset as int), 8)
                + wire::uint_bytes(o, size as nat, 4) + unused + rest,
        ) == Some((OpView::ReadDir { fh, offset, size })),
{
    let s = wire::uint_bytes(o, fh as nat, 8)
        + wire::uint_bytes(o, wire::pattern64(offset as int), 8)
        + wire::uint_bytes(o, size as nat, 4) + unused + rest;
    wire::lemma_uint_bytes_len(o, fh as nat, 8);
    wire::lemma_uint_bytes_len(o, wire::pattern64(offset as int), 8);
    wire::lemma_uint_bytes_len(o, size as nat, 4);
    assert(s.subrange(0, 8) =~= wire::uint_bytes(o, fh as nat, 8));
    wire::lemma_u64_at(o, s, 0, fh);
    assert(s.subrange(8, 16) =~= wire::uint_bytes(o, wire::pattern64(offset as int), 8));
    wire::lemma_i64_at(o, s, 8, offset);
    assert(s.subrange(16, 20) =~= wire::uint_bytes(o, size as nat, 4));
    wire::lemma_u32_at(o, s, 16, size);
}

/// To release a directory: the directory and the open flags.
pub proof fn law_releasedir_reads_back(
    os: Os,
    o: ByteOrder,
    fh: u64,
    flags: i32,
    unused: Seq<u8>,
    rest: Seq<u8>,
)
    requires
        unused.len() == 12,
    ensures
        operation::operation_of(
            os,
            o,
            29,
            wire::uint_bytes(o, fh as nat, 8)
                + wire::uint_bytes(o, wire::pattern32(flags as int), 4) + unused + rest,
        ) == Some((OpView::ReleaseDir { fh, flags })),
{
    let s = wire::uint_bytes(o, fh as nat, 8)
        + wire::uint_bytes(o, wire::pattern32(flags as int), 4) + unused + rest;
    wire::lemma_uint_bytes_len(o, fh as nat, 8);
    wire::lemma_uint_bytes_len(o, wire::pattern32(flags as int), 4);
    assert(s.subrange(0, 8) =~= wire::uint_bytes(o, fh as nat, 8));
    wire::lemma_u64_at(o, s, 0, fh);
    assert(s.subrange(8, 12) =~= wire::uint_bytes(o, wire::pattern32(flags as int), 4));
    wire::lemma_i32_at(o, s, 8, flags);
}

/// To synchronize a directory: the directory, and flags, of which the lowest says that only the
/// data is meant.
pub proof fn law_fsyncdir_reads_back(
    os: Os,
    o: ByteOrder,
    fh: u64,
    flags: u32,
    unused: Seq<u8>,
    rest: Seq<u8>,
)
    requires
        unused.len() == 4,
    ensures
        operation::operation_of(
            os,
            o,
            30,
            wire::uint_bytes(o, fh as nat, 8) + wire::uint_bytes(o, flags as nat, 4) + unused
                + rest,
        ) == Some((OpView::FSyncDir { fh, datasync: flags & 1 != 0 })),
{
    let s = wire::uint_bytes(o, fh as nat, 8) + wire::uint_bytes(o, flags as nat, 4) + unused
        + rest;
    wire::lemma_uint_bytes_len(o, fh as nat, 8);
    wire::lemma_uint_bytes_len(o, flags as nat, 4);
    assert(s.subrange(0, 8) =~= wire::uint_bytes(o, fh as nat, 8));
    wire::lemma_u64_at(o, s, 0, fh);
    assert(s.subrange(8, 12) =~= wire::uint_bytes(o, flags as nat, 4));
    wire::lemma_u32_at(o, s, 8, flags);
}

/// To test for a lock: the file, the owner, the range, the kind and the process.
pub proof fn law_getlk_reads_back(
    os: Os,
    o: ByteOrder,
    fh: u64,
    lock_owner: u64,
    start: u64,
    end: u64,
    typ: i32,
    pid: u32,
    unused: Seq<u8>,
    rest: Seq<u8>,
)
    requires
        unused.len() == 8,
    ensures
        operation::operation_of(
            os,
            o,
            31,
            wire::uint_bytes(o, fh as nat, 8) + wire::uint_bytes(o, lock_owner as nat, 8)
                + wire::uint_bytes(o, start as nat, 8) + wire::uint_bytes(o, end as nat, 8)
                + wire::uint_bytes(o, wire::pattern32(typ as int), 4)
                + wire::uint_bytes(o, pid as nat, 4) + unused + rest,
        ) == Some((OpView::GetLk { fh, lock_owner, lock: FileLock { start, end, typ, pid } })),
{
    let s = wire::uint_bytes(o, fh as nat, 8) + wire::uint_bytes(o, lock_owner as nat, 8)
        + wire::uint_bytes(o, start as nat, 8) + wire::uint_bytes(o, end as nat, 8)
        + wire::uint_bytes(o, wire::pattern32(typ as int), 4)
        + wire::uint_bytes(o, pid as nat, 4) + unused + rest;
    wire::lemma_uint_bytes_len(o, fh as nat, 8);
    wire::lemma_uint_bytes_len(o, lock_owner as nat, 8);
    wire::lemma_uint_bytes_len(o, start as nat, 8);
    wire::lemma_uint_bytes_len(o, end as nat, 8);
    wire::lemma_uint_bytes_len(o, wire::pattern32(typ as int), 4);
    wire::lemma_uint_bytes_len(o, pid as nat, 4);
    assert(s.subrange(0, 8) =~= wire::uint_bytes(o, fh as nat, 8));
    wire::lemma_u64_at(o, s, 0, fh);
    assert(s.subrange(8, 16) =~= wire::uint_bytes(o, lock_owner as nat, 8));
    wire::lemma_u64_at(o, s, 8, lock_owner);
    assert(s.subrange(16, 24) =~= wire::uint_bytes(o, start as nat, 8));
    wire::lemma_u64_at(o, s, 16, start);
    assert(s.subrange(24, 32) =~= wire::uint_bytes(o, end as nat, 8));
    wire::lemma_u64_at(o, s, 24, end);
    assert(s.subrange(32, 36) =~= wire::uint_bytes(o, wire::pattern32(typ as int), 4));
    wire::lemma_i32_at(o, s, 32, typ);
    assert(s.subrange(36, 40) =~= wire::uint_bytes(o, pid as nat, 4));
    wire::lemma_u32_at(o, s, 36, pid);
}

/// To set a lock: the file, the owner, the range, the kind and the process.
pub proof fn law_setlk_reads_back(
    os: Os,
    o: ByteOrder,
    fh: u64,
    lock_owner: u64,
    start: u64,
    end: u64,
    typ: i32,
    pid: u32,
    unused: Seq<u8>,
    rest: Seq<u8>,
)
    requires
        unused.len() == 8,
    ensures
        operation::operation_of(
            os,
            o,
            32,
            wire::uint_bytes(o, fh as nat, 8) + wire::uint_bytes(o, lock_owner as nat, 8)
                + wire::uint_bytes(o, start as nat, 8) + wire::uint_bytes(o, end as nat, 8)
                + wire::uint_bytes(o, wire::pattern32(typ as int), 4)
                + wire::uint_bytes(o, pid as nat, 4) + unused + rest,
        ) == Some((OpView::SetLk { fh, lock_owner, lock: FileLock { start, end, typ, pid } })),
{
    let s = wire::uint_bytes(o, fh as nat, 8) + wire::uint_bytes(o, lock_owner as nat, 8)
        + wire::uint_bytes(o, start as nat, 8) + wire::uint_bytes(o, end as nat, 8)
        + wire::uint_bytes(o, wire::pattern32(typ as int), 4)
        + wire::uint_bytes(o, pid as nat, 4) + unused + rest;
    wire::lemma_uint_bytes_len(o, fh as nat, 8);
    wire::lemma_uint_bytes_len(o, lock_owner as nat, 8);
    wire::lemma_uint_bytes_len(o, start as nat, 8);
    wire::lemma_uint_bytes_len(o, end as nat, 8);
    wire::lemma_uint_bytes_len(o, wire::pattern32(typ as int), 4);
    wire::lemma_uint_bytes_len(o, pid as nat, 4);
    assert(s.subrange(0, 8) =~= wire::uint_bytes(o, fh as nat, 8));
    wire::lemma_u64_at(o, s, 0, fh);
    assert(s.subrange(8, 16) =~= wire::uint_bytes(o, lock_owner as nat, 8));
    wire::lemma_u64_at(o, s, 8, lock_owner);
    assert(s.subrange(16, 24) =~= wire::uint_bytes(o, start as nat, 8));
    wire::lemma_u64_at(o, s, 16, start);
    assert(s.subrange(24, 32) =~= wire::uint_bytes(o, end as nat, 8));
    wire::lemma_u64_at(o, s, 24, end);
    assert(s.subrange(32, 36) =~= wire::uint_bytes(o, wire::pattern32(typ as int), 4));
    wire::lemma_i32_at(o, s, 32, typ);
    assert(s.subrange(36, 40) =~= wire::uint_bytes(o, pid as nat, 4));
    wire::lemma_u32_at(o, s, 36, pid);
}

/// To wait for a lock: the file, the owner, the range, the kind and the process.
pub proof fn law_setlkw_reads_back(
    os: Os,
    o: ByteOrder,
    fh: u64,
    lock_owner: u64,
    start: u64,
    end: u64,
    typ: i32,
    pid: u32,
    unused: Seq<u8>,
    rest: Seq<u8>,
)
    requires
        unused.len() == 8,
    ensures
        operation::operation_of(
            os,
            o,
            33,
            wire::uint_bytes(o, fh as nat, 8) + wire::uint_bytes(o, lock_owner as nat, 8)
                + wire::uint_bytes(o, start as nat, 8) + wire::uint_bytes(o, end as nat, 8)
                + wire::uint_bytes(o, wire::pattern32(typ as int), 4)
                + wire::uint_bytes(o, pid as nat, 4) + unused + rest,
        ) == Some((OpView::SetLkW { fh, lock_owner, lock: FileLock { start, end, typ, pid } })),
{
    let s = wire::uint_bytes(o, fh as nat, 8) + wire::uint_bytes(o, lock_owner as nat, 8)
        + wire::uint_bytes(o, start as nat, 8) + wire::uint_bytes(o, end as nat, 8)
        + wire::uint_bytes(o, wire::pattern32(typ as int), 4)
        + wire::uint_bytes(o, pid as nat, 4) + unused + rest;
    wire::lemma_uint_bytes_len(o, fh as nat, 8);
    wire::lemma_uint_bytes_len(o, lock_owner as nat, 8);
    wire::lemma_uint_bytes_len(o, start as nat, 8);
    wire::lemma_uint_bytes_len(o, end as nat, 8);
    wire::lemma_uint_bytes_len(o, wire::pattern32(typ as int), 4);
    wire::lemma_uint_bytes_len(o, pid as nat, 4);
    assert(s.subrange(0, 8) =~= wire::uint_bytes(o, fh as nat, 8));
    wire::lemma_u64_at(o, s, 0, fh);
    assert(s.subrange(8, 16) =~= wire::uint_bytes(o, lock_owner as nat, 8));
    wire::lemma_u64_at(o, s, 8, lock_owner);
    assert(s.subrange(16, 24) =~= wire::uint_bytes(o, start as nat, 8));
    wire::lemma_u64_at(o, s, 16, start);
    assert(s.subrange(24, 32) =~= wire::uint_bytes(o, end as nat, 8));
    wire::lemma_u64_at(o, s, 24, end);
    assert(s.subrange(32, 36) =~= wire::uint_bytes(o, wire::pattern32(typ as int), 4));
    wire::lemma_i32_at(o, s, 32, typ);
    assert(s.subrange(36, 40) =~= wire::uint_bytes(o, pid as nat, 4));
    wire::lemma_u32_at(o, s, 36, pid);
}

/// To check access: the permissions.
pub proof fn law_access_reads_back(os: Os, o: ByteOrder, mask: i32, unused: Seq<u8>, rest: Seq<u8>)
    requires
        unused.len() == 4,
    ensures
        operation::operation_of(
            os,
            o,
            34,
            wire::uint_bytes(o, wire::pattern32(mask as int), 4) + unused + rest,
        ) == Some((OpView::Access { mask })),
{
    let s = wire::uint_bytes(o, wire::pattern32(mask as int), 4) + unused + rest;
    wire::lemma_uint_bytes_len(o, wire::pattern32(mask as int), 4);
    assert(s.subrange(0, 4) =~= wire::uint_bytes(o, wire::pattern32(mask as int), 4));
    wire::lemma_i32_at(o, s, 0, mask);
}

/// To create a file: open flags, mode and umask, and the name.
pub proof fn law_create_reads_back(
    os: Os,
    o: ByteOrder,
    flags: i32,
    mode: u32,
    umask: u32,
    unused: Seq<u8>,
    name: Seq<u8>,
    rest: Seq<u8>,
)
    requires
        unused.len() == 4,
        !name.contains(0),
    ensures
        operation::operation_of(
            os,
            o,
            35,
            wire::uint_bytes(o, wire::pattern32(flags as int), 4)
                + wire::uint_bytes(o, mode as nat, 4) + wire::uint_bytes(o, umask as nat, 4)
                + unused + name.push(0) + rest,
        ) == Some((OpView::Create { flags, mode, umask, name })),
{
    let fixed = wire::uint_bytes(o, wire::pattern32(flags as int), 4)
        + wire::uint_bytes(o, mode as nat, 4) + wire::uint_bytes(o, umask as nat, 4)
        + unused;
    let s = wire::uint_bytes(o, wire::pattern32(flags as int), 4)
        + wire::uint_bytes(o, mode as nat, 4) + wire::uint_bytes(o, umask as nat, 4)
        + unused + name.push(0) + rest;
    wire::lemma_uint_bytes_len(o, wire::pattern32(flags as int), 4);
    wire::lemma_uint_bytes_len(o, mode as nat, 4);
    wire::lemma_uint_bytes_len(o, umask as nat, 4);
    assert(s.subrange(0, 4) =~= wire::uint_bytes(o, wire::pattern32(flags as int), 4));
    wire::lemma_i32_at(o, s, 0, flags);
    assert(s.subrange(4, 8) =~= wire::uint_bytes(o, mode as nat, 4));
    wire::lemma_u32_at(o, s, 4, mode);
    assert(s.subrange(8, 12) =~= wire::uint_bytes(o, umask as nat, 4));
    wire::lemma_u32_at(o, s, 8, umask);
    operation::law_names_read_back(fixed, name, rest);
}

/// To interrupt: the request to interrupt.
pub proof fn law_interrupt_reads_back(os: Os, o: ByteOrder, unique: u64, rest: Seq<u8>)
    ensures
        operation::operation_of(
            os,
            o,
            36,
            wire::uint_bytes(o, unique as nat, 8) + rest,
        ) == Some((OpView::Interrupt { unique })),
{
    let s = wire::uint_bytes(o, unique as nat, 8) + rest;
    wire::lemma_uint_bytes_len(o, unique as nat, 8);
    assert(s.subrange(0, 8) =~= wire::uint_bytes(o, unique as nat, 8));
    wire::lemma_u64_at(o, s, 0, unique);
}

/// To map a block: the block, and the size of blocks.
pub proof fn law_bmap_reads_back(
    os: Os,
    o: ByteOrder,
    block: u64,
    block_size: u32,
    unused: Seq<u8>,
    rest: Seq<u8>,
)
    requires
        unused.len() == 4,
    ensures
        operation::operation_of(
            os,
            o,
            37,
            wire::uint_bytes(o, block as nat, 8) + wire::uint_bytes(o, block_size as nat, 4)
                + unused + rest,
        ) == Some((OpView::BMap { block, block_size })),
{
    let s = wire::uint_bytes(o, block as nat, 8) + wire::uint_bytes(o, block_size as nat, 4)
        + unused + rest;
    wire::lemma_uint_bytes_len(o, block as nat, 8);
    wire::lemma_uint_bytes_len(o, block_size as nat, 4);
    assert(s.subrange(0, 8) =~= wire::uint_bytes(o, block as nat, 8));
    wire::lemma_u64_at(o, s, 0, block);
    assert(s.subrange(8, 12) =~= wire::uint_bytes(o, block_size as nat, 4));
    wire::lemma_u32_at(o, s, 8, block_size);
}

/// To close the connection: nothing.
pub proof fn law_destroy_reads_back(os: Os, o: ByteOrder, rest: Seq<u8>)
    ensures
        operation::operation_of(os, o, 38, rest) == Some((OpView::Destroy)),
{
}

/// To control a device: the file, flags and the command, the sizes of the data and of the room
/// for the answer, and the data.
pub proof fn law_ioctl_reads_back(
    os: Os,
    o: ByteOrder,
    fh: u64,
    flags: u32,
    command: u32,
    unused: Seq<u8>,
    out_size: u32,
    in_data: Seq<u8>,
    rest: Seq<u8>,
)
    requires
        unused.len() == 8,
        in_data.len() <= u32::MAX,
    ensures
        operation::operation_of(
            os,
            o,
            39,
            wire::uint_bytes(o, fh as nat, 8) + wire::uint_bytes(o, flags as nat, 4)
                + wire::uint_bytes(o, command as nat, 4) + unused
                + wire::uint_bytes(o, in_data.len() as nat, 4)
                + wire::uint_bytes(o, out_size as nat, 4) + in_data + rest,
        ) == Some((OpView::IoCtl { fh, flags, command, out_size, in_data })),
{
    let s = wire::uint_bytes(o, fh as nat, 8) + wire::uint_bytes(o, flags as nat, 4)
        + wire::uint_bytes(o, command as nat, 4) + unused
        + wire::uint_bytes(o, in_data.len() as nat, 4)
        + wire::uint_bytes(o, out_size as nat, 4) + in_data + rest;
    wire::lemma_uint_bytes_len(o, fh as nat, 8);
    wire::lemma_uint_bytes_len(o, flags as nat, 4);
    wire::lemma_uint_bytes_len(o, command as nat, 4);
    wire::lemma_uint_bytes_len(o, in_data.len() as nat, 4);
    wire::lemma_uint_bytes_len(o, out_size as nat, 4);
    assert(s.subrange(0, 8) =~= wire::uint_bytes(o, fh as nat, 8));
    wire::lemma_u64_at(o, s, 0, fh);
    assert(s.subrange(8, 12) =~= wire::uint_bytes(o, flags as nat, 4));
    wire::lemma_u32_at(o, s, 8, flags);
    assert(s.subrange(12, 16) =~= wire::uint_bytes(o, command as nat, 4));
    wire::lemma_u32_at(o, s, 12, command);
    assert(s.subrange(24, 28) =~= wire::uint_bytes(o, in_data.len() as nat, 4));
    wire::lemma_u32_at(o, s, 24, (in_data.len()) as u32);
    assert(s.subrange(28, 32) =~= wire::uint_bytes(o, out_size as nat, 4));
    wire::lemma_u32_at(o, s, 28, out_size);
    assert(s.subrange(32, (32 + in_data.len()) as int) =~= in_data);
}

/// To poll: the file, the handle by which the kernel is notified, flags and events.
pub proof fn law_poll_reads_back(
    os: Os,
    o: ByteOrder,
    fh: u64,
    kernel_handle: u64,
    flags: u32,
    events: u32,
    rest: Seq<u8>,
)
    ensures
        operation::operation_of(
            os,
            o,
            40,
            wire::uint_bytes(o, fh as nat, 8) + wire::uint_bytes(o, kernel_handle as nat, 8)
                + wire::uint_bytes(o, flags as nat, 4) + wire::uint_bytes(o, events as nat, 4)
                + rest,
        ) == Some((OpView::Poll { fh, kernel_handle, flags, events })),
{
    let s = wire::uint_bytes(o, fh as nat, 8) + wire::uint_bytes(o, kernel_handle as nat, 8)
        + wire::uint_bytes(o, flags as nat, 4) + wire::uint_bytes(o, events as nat, 4)
        + rest;
    wire::lemma_uint_bytes_len(o, fh as nat, 8);
    wire::lemma_uint_bytes_len(o, kernel_handle as nat, 8);
    wire::lemma_uint_bytes_len(o, flags as nat, 4);
    wire::lemma_uint_bytes_len(o, events as nat, 4);
    assert(s.subrange(0, 8) =~= wire::uint_bytes(o, fh as nat, 8));
    wire::lemma_u64_at(o, s, 0, fh);
    assert(s.subrange(8, 16) =~= wire::uint_bytes(o, kernel_handle as nat, 8));
    wire::lemma_u64_at(o, s, 8, kernel_handle);
    assert(s.subrange(16, 20) =~= wire::uint_bytes(o, flags as nat, 4));
    wire::lemma_u32_at(o, s, 16, flags);
    assert(s.subrange(20, 24) =~= wire::uint_bytes(o, events as nat, 4));
    wire::lemma_u32_at(o, s, 20, events);
}

/// The answer to a notification: its data.
pub proof fn law_notify_reply_reads_back(os: Os, o: ByteOrder, data: Seq<u8>)
    ensures
        operation::operation_of(os, o, 41, data) == Some((OpView::NotifyReply { data })),
{
}

/// To allocate space: the file, the range, and what to do.
pub proof fn law_fallocate_reads_back(
    os: Os,
    o: ByteOrder,
    fh: u64,
    offset: i64,
    len: i64,
    mode: i32,
    unused: Seq<u8>,
    rest: Seq<u8>,
)
    requires
        unused.len() == 4,
    ensures
        operation::operation_of(
            os,
            o,
            43,
            wire::uint_bytes(o, fh as nat, 8)
                + wire::uint_bytes(o, wire::pattern64(offset as int), 8)
                + wire::uint_bytes(o, wire::pattern64(len as int), 8)
                + wire::uint_bytes(o, wire::pattern32(mode as int), 4) + unused + rest,
        ) == Some((OpView::FAllocate { fh, offset, len, mode })),
{
    let s = wire::uint_bytes(o, fh as nat, 8)
        + wire::uint_bytes(o, wire::pattern64(offset as int), 8)
        + wire::uint_bytes(o, wire::pattern64(len as int), 8)
        + wire::uint_bytes(o, wire::pattern32(mode as int), 4) + unused + rest;
    wire::lemma_uint_bytes_len(o, fh as nat, 8);
    wire::lemma_uint_bytes_len(o, wire::pattern64(offset as int), 8);
    wire::lemma_uint_bytes_len(o, wire::pattern64(len as int), 8);
    wire::lemma_uint_bytes_len(o, wire::pattern32(mode as int), 4);
    assert(s.subrange(0, 8) =~= wire::uint_bytes(o, fh as nat, 8));
    wire::lemma_u64_at(o, s, 0, fh);
    assert(s.subrange(8, 16) =~= wire::uint_bytes(o, wire::pattern64(offset as int), 8));
    wire::lemma_i64_at(o, s, 8, offset);
    assert(s.subrange(16, 24) =~= wire::uint_bytes(o, wire::pattern64(len as int), 8));
    wire::lemma_i64_at(o, s, 16, len);
    assert(s.subrange(24, 28) =~= wire::uint_bytes(o, wire::pattern32(mode as int), 4));
    wire::lemma_i32_at(o, s, 24, mode);
}

/// To read a directory with attributes: as without.
pub proof fn law_readdirplus_reads_back(
    os: Os,
    o: ByteOrder,
    fh: u64,
    offset: i64,
    size: u32,
    unused: Seq<u8>,
    rest: Seq<u8>,
)
    requires
        unused.len() == 20,
    ensures
        operation::operation_of(
            os,
            o,
            44,
            wire::uint_bytes(o, fh as nat, 8)
                + wire::uint_bytes(o, wire::pattern64(offset as int), 8)
                + wire::uint_bytes(o, size as nat, 4) + unused + rest,
        ) == Some((OpView::ReadDirPlus { fh, offset, size })),
{
    let s = wire::uint_bytes(o, fh as nat, 8)
        + wire::uint_bytes(o, wire::pattern64(offset as int), 8)
        + wire::uint_bytes(o, size as nat, 4) + unused + rest;
    wire::lemma_uint_bytes_len(o, fh as nat, 8);
    wire::lemma_uint_bytes_len(o, wire::pattern64(offset as int), 8);
    wire::lemma_uint_bytes_len(o, size as nat, 4);
    assert(s.subrange(0, 8) =~= wire::uint_bytes(o, fh as nat, 8));
    wire::lemma_u64_at(o, s, 0, fh);
    assert(s.subrange(8, 16) =~= wire::uint_bytes(o, wire::pattern64(offset as int), 8));
    wire::lemma_i64_at(o, s, 8, offset);
    assert(s.subrange(16, 20) =~= wire::uint_bytes(o, size as nat, 4));
    wire::lemma_u32_at(o, s, 16, size);
}

/// To rename with flags: the new directory, the flags, the old name and the new one.
pub proof fn law_rename2_reads_back(
    os: Os,
    o: ByteOrder,
    newdir: u64,
    flags: u32,
    unused: Seq<u8>,
    name: Seq<u8>,
    newname: Seq<u8>,
    rest: Seq<u8>,
)
    requires
        unused.len() == 4,
        !name.contains(0),
        !newname.contains(0),
    ensures
        operation::operation_of(
            os,
            o,
            45,
            wire::uint_bytes(o, newdir as nat, 8) + wire::uint_bytes(o, flags as nat, 4) + unused
                + name.push(0) + newname.push(0) + rest,
        ) == Some((OpView::Rename2 { newdir, flags, name, newname })),
{
    let fixed = wire::uint_bytes(o, newdir as nat, 8) + wire::uint_bytes(o, flags as nat, 4)
        + unused;
    let s = wire::uint_bytes(o, newdir as nat, 8) + wire::uint_bytes(o, flags as nat, 4) + unused
        + name.push(0) + newname.push(0) + rest;
    wire::lemma_uint_bytes_len(o, newdir as nat, 8);
    wire::lemma_uint_bytes_len(o, flags as nat, 4);
    assert(s.subrange(0, 8) =~= wire::uint_bytes(o, newdir as nat, 8));
    wire::lemma_u64_at(o, s, 0, newdir);
    assert(s.subrange(8, 12) =~= wire::uint_bytes(o, flags as nat, 4));
    wire::lemma_u32_at(o, s, 8, flags);
    operation::law_names_read_back(fixed, name, newname.push(0) + rest);
    operation::law_names_read_back(fixed + name.push(0), newname, rest);
    assert(s =~= fixed + name.push(0) + (newname.push(0) + rest));
}

/// To reposition: the file, the offset, and what it counts from.
pub proof fn law_lseek_reads_back(
    os: Os,
    o: ByteOrder,
    fh: u64,
    offset: i64,
    whence: i32,
    unused: Seq<u8>,
    rest: Seq<u8>,
)
    requires
        unused.len() == 4,
    ensures
        operation::operation_of(
            os,
            o,
            46,
            wire::uint_bytes(o, fh as nat, 8)
                + wire::uint_bytes(o, wire::pattern64(offset as int), 8)
                + wire::uint_bytes(o, wire::pattern32(whence as int), 4) + unused + rest,
        ) == Some((OpView::Lseek { fh, offset, whence })),
{
    let s = wire::uint_bytes(o, fh as nat, 8)
        + wire::uint_bytes(o, wire::pattern64(offset as int), 8)
        + wire::uint_bytes(o, wire::pattern32(whence as int), 4) + unused + rest;
    wire::lemma_uint_bytes_len(o, fh as nat, 8);
    wire::lemma_uint_bytes_len(o, wire::pattern64(offset as int), 8);
    wire::lemma_uint_bytes_len(o, wire::pattern32(whence as int), 4);
    assert(s.subrange(0, 8) =~= wire::uint_bytes(o, fh as nat, 8));
    wire::lemma_u64_at(o, s, 0, fh);
    assert(s.subrange(8, 16) =~= wire::uint_bytes(o, wire::pattern64(offset as int), 8));
    wire::lemma_i64_at(o, s, 8, offset);
    assert(s.subrange(16, 20) =~= wire::uint_bytes(o, wire::pattern32(whence as int), 4));
    wire::lemma_i32_at(o, s, 16, whence);
}

/// To copy a range: source file and offset, destination inode, file and offset, length and flags.
pub proof fn law_copy_file_range_reads_back(
    os: Os,
    o: ByteOrder,
    fh_in: u64,
    offset_in: i64,
    nodeid_out: u64,
    fh_out: u64,
    offset_out: i64,
    len: u64,
    flags: u64,
    rest: Seq<u8>,
)
    ensures
        operation::operation_of(
            os,
            o,
            47,
            wire::uint_bytes(o, fh_in as nat, 8)
                + wire::uint_bytes(o, wire::pattern64(offset_in as int), 8)
                + wire::uint_bytes(o, nodeid_out as nat, 8) + wire::uint_bytes(o, fh_out as nat, 8)
                + wire::uint_bytes(o, wire::pattern64(offset_out as int), 8)
                + wire::uint_bytes(o, len as nat, 8) + wire::uint_bytes(o, flags as nat, 8) + rest,
        ) == Some(
            (OpView::CopyFileRange {
                fh_in,
                offset_in,
                nodeid_out,
                fh_out,
                offset_out,
                len,
                flags,
            }),
        ),
{
    let s = wire::uint_bytes(o, fh_in as nat, 8)
        + wire::uint_bytes(o, wire::pattern64(offset_in as int), 8)
        + wire::uint_bytes(o, nodeid_out as nat, 8) + wire::uint_bytes(o, fh_out as nat, 8)
        + wire::uint_bytes(o, wire::pattern64(offset_out as int), 8)
        + wire::uint_bytes(o, len as nat, 8) + wire::uint_bytes(o, flags as nat, 8) + rest;
    wire::lemma_uint_bytes_len(o, fh_in as nat, 8);
    wire::lemma_uint_bytes_len(o, wire::pattern64(offset_in as int), 8);
    wire::lemma_uint_bytes_len(o, nodeid_out as nat, 8);
    wire::lemma_uint_bytes_len(o, fh_out as nat, 8);
    wire::lemma_uint_bytes_len(o, wire::pattern64(offset_out as int), 8);
    wire::lemma_uint_bytes_len(o, len as nat, 8);
    wire::lemma_uint_bytes_len(o, flags as nat, 8);
    assert(s.subrange(0, 8) =~= wire::uint_bytes(o, fh_in as nat, 8));
    wire::lemma_u64_at(o, s, 0, fh_in);
    assert(s.subrange(8, 16) =~= wire::uint_bytes(o, wire::pattern64(offset_in as int), 8));
    wire::lemma_i64_at(o, s, 8, offset_in);
    assert(s.subrange(16, 24) =~= wire::uint_bytes(o, nodeid_out as nat, 8));
    wire::lemma_u64_at(o, s, 16, nodeid_out);
    assert(s.subrange(24, 32) =~= wire::uint_bytes(o, fh_out as nat, 8));
    wire::lemma_u64_at(o, s, 24, fh_out);
    assert(s.subrange(32, 40) =~= wire::uint_bytes(o, wire::pattern64(offset_out as int), 8));
    wire::lemma_i64_at(o, s, 32, offset_out);
    assert(s.subrange(40, 48) =~= wire::uint_bytes(o, len as nat, 8));
    wire::lemma_u64_at(o, s, 40, len);
    assert(s.subrange(48, 56) =~= wire::uint_bytes(o, flags as nat, 8));
    wire::lemma_u64_at(o, s, 48, flags);
}

/// To initialize a character device: nothing that is used.
pub proof fn law_cuse_init_reads_back(os: Os, o: ByteOrder, unused: Seq<u8>, rest: Seq<u8>)
    requires
        unused.len() == 16,
    ensures
        operation::operation_of(os, o, 4096, unused + rest) == Some((OpView::CuseInit)),
{
}

/// To set attributes on macOS: as elsewhere, and four attributes more.
pub proof fn law_mac_setattr_reads_back(
    o: ByteOrder,
    valid: u32,
    unused: Seq<u8>,
    fh: u64,
    size: u64,
    unused2: Seq<u8>,
    atime: i64,
    mtime: i64,
    ctime: i64,
    atimensec: u32,
    mtimensec: u32,
    ctimensec: u32,
    mode: u32,
    unused3: Seq<u8>,
    uid: u32,
    gid: u32,
    unused4: Seq<u8>,
    bkuptime: i64,
    chgtime: i64,
    crtime: i64,
    bkuptimensec: u32,
    chgtimensec: u32,
    crtimensec: u32,
    flags: u32,
    rest: Seq<u8>,
)
    requires
        unused.len() == 4,
        unused2.len() == 8,
        unused3.len() == 4,
        unused4.len() == 4,
    ensures
        operation::operation_of(
            Os::MacOs,
            o,
            4,
            wire::uint_bytes(o, valid as nat, 4) + unused + wire::uint_bytes(o, fh as nat, 8)
                + wire::uint_bytes(o, size as nat, 8) + unused2
                + wire::uint_bytes(o, wire::pattern64(atime as int), 8)
                + wire::uint_bytes(o, wire::pattern64(mtime as int), 8)
                + wire::uint_bytes(o, wire::pattern64(ctime as int), 8)
                + wire::uint_bytes(o, atimensec as nat, 4)
                + wire::uint_bytes(o, mtimensec as nat, 4)
                + wire::uint_bytes(o, ctimensec as nat, 4) + wire::uint_bytes(o, mode as nat, 4)
                + unused3 + wire::uint_bytes(o, uid as nat, 4) + wire::uint_bytes(o, gid as nat, 4)
                + unused4 + wire::uint_bytes(o, wire::pattern64(bkuptime as int), 8)
                + wire::uint_bytes(o, wire::pattern64(chgtime as int), 8)
                + wire::uint_bytes(o, wire::pattern64(crtime as int), 8)
                + wire::uint_bytes(o, bkuptimensec as nat, 4)
                + wire::uint_bytes(o, chgtimensec as nat, 4)
                + wire::uint_bytes(o, crtimensec as nat, 4) + wire::uint_bytes(o, flags as nat, 4)
                + rest,
        ) == Some(
            (OpView::SetAttr {
                attrs: SetAttrs {
                    mode: if valid & 1 != 0 { Some(mode) } else { None },
                    uid: if valid & 2 != 0 { Some(uid) } else { None },
                    gid: if valid & 4 != 0 { Some(gid) } else { None },
                    size: if valid & 8 != 0 { Some(size) } else { None },
                    atime: if valid & 16 != 0 {
                        Some(
                            if valid & 128 != 0 {
                                TimeOrNow::Now
                            } else {
                                TimeOrNow::SpecificTime(
                                    Timestamp { secs: atime, nanos: atimensec },
                                )
                            },
                        )
                    } else {
                        None
                    },
                    mtime: if valid & 32 != 0 {
                        Some(
                            if valid & 256 != 0 {
                                TimeOrNow::Now
                            } else {
                                TimeOrNow::SpecificTime(
                                    Timestamp { secs: mtime, nanos: mtimensec },
                                )
                            },
                        )
                    } else {
                        None
                    },
                    ctime: if valid & 1024 != 0 {
                        Some(Timestamp { secs: ctime, nanos: ctimensec })
                    } else {
                        None
                    },
                    fh: if valid & 64 != 0 { Some(fh) } else { None },
                    crtime: if valid & 0x1000_0000 != 0 {
                        Some(Timestamp { secs: crtime, nanos: crtimensec })
                    } else {
                        None
                    },
                    chgtime: if valid & 0x2000_0000 != 0 {
                        Some(Timestamp { secs: chgtime, nanos: chgtimensec })
                    } else {
                        None
                    },
                    bkuptime: if valid & 0x4000_0000 != 0 {
                        Some(Timestamp { secs: bkuptime, nanos: bkuptimensec })
                    } else {
                        None
                    },
                    flags: if valid & 0x8000_0000 != 0 { Some(flags) } else { None },
                },
            }),
        ),
{
    let s = wire::uint_bytes(o, valid as nat, 4) + unused + wire::uint_bytes(o, fh as nat, 8)
        + wire::uint_bytes(o, size as nat, 8) + unused2
        + wire::uint_bytes(o, wire::pattern64(atime as int), 8)
        + wire::uint_bytes(o, wire::pattern64(mtime as int), 8)
        + wire::uint_bytes(o, wire::pattern64(ctime as int), 8)
        + wire::uint_bytes(o, atimensec as nat, 4)
        + wire::uint_bytes(o, mtimensec as nat, 4)
        + wire::uint_bytes(o, ctimensec as nat, 4) + wire::uint_bytes(o, mode as nat, 4)
        + unused3 + wire::uint_bytes(o, uid as nat, 4) + wire::uint_bytes(o, gid as nat, 4)
        + unused4 + wire::uint_bytes(o, wire::pattern64(bkuptime as int), 8)
        + wire::uint_bytes(o, wire::pattern64(chgtime as int), 8)
        + wire::uint_bytes(o, wire::pattern64(crtime as int), 8)
        + wire::uint_bytes(o, bkuptimensec as nat, 4)
        + wire::uint_bytes(o, chgtimensec as nat, 4)
        + wire::uint_bytes(o, crtimensec as nat, 4) + wire::uint_bytes(o, flags as nat, 4)
        + rest;
    wire::lemma_uint_bytes_len(o, valid as nat, 4);
    wire::lemma_uint_bytes_len(o, fh as nat, 8);
    wire::lemma_uint_bytes_len(o, size as nat, 8);
    wire::lemma_uint_bytes_len(o, wire::pattern64(atime as int), 8);
    wire::lemma_uint_bytes_len(o, wire::pattern64(mtime as int), 8);
    wire::lemma_uint_bytes_len(o, wire::pattern64(ctime as int), 8);
    wire::lemma_uint_bytes_len(o, atimensec as nat, 4);
    wire::lemma_uint_bytes_len(o, mtimensec as nat, 4);
    wire::lemma_uint_bytes_len(o, ctimensec as nat, 4);
    wire::lemma_uint_bytes_len(o, mode as nat, 4);
    wire::lemma_uint_bytes_len(o, uid as nat, 4);
    wire::lemma_uint_bytes_len(o, gid as nat, 4);
    wire::lemma_uint_bytes_len(o, wire::pattern64(bkuptime as int), 8);
    wire::lemma_uint_bytes_len(o, wire::pattern64(chgtime as int), 8);
    wire::lemma_uint_bytes_len(o, wire::pattern64(crtime as int), 8);
    wire::lemma_uint_bytes_len(o, bkuptimensec as nat, 4);
    wire::lemma_uint_bytes_len(o, chgtimensec as nat, 4);
    wire::lemma_uint_bytes_len(o, crtimensec as nat, 4);
    wire::lemma_uint_bytes_len(o, flags as nat, 4);
    assert(s.subrange(0, 4) =~= wire::uint_bytes(o, valid as nat, 4));
    wire::lemma_u32_at(o, s, 0, valid);
    assert(s.subrange(8, 16) =~= wire::uint_bytes(o, fh as nat, 8));
    wire::lemma_u64_at(o, s, 8, fh);
    assert(s.subrange(16, 24) =~= wire::uint_bytes(o, size as nat, 8));
    wire::lemma_u64_at(o, s, 16, size);
    assert(s.subrange(32, 40) =~= wire::uint_bytes(o, wire::pattern64(atime as int), 8));
    wire::lemma_i64_at(o, s, 32, atime);
    assert(s.subrange(40, 48) =~= wire::uint_bytes(o, wire::pattern64(mtime as int), 8));
    wire::lemma_i64_at(o, s, 40, mtime);
    assert(s.subrange(48, 56) =~= wire::uint_bytes(o, wire::pattern64(ctime as int), 8));
    wire::lemma_i64_at(o, s, 48, ctime);
    assert(s.subrange(56, 60) =~= wire::uint_bytes(o, atimensec as nat, 4));
    wire::lemma_u32_at(o, s, 56, atimensec);
    assert(s.subrange(60, 64) =~= wire::uint_bytes(o, mtimensec as nat, 4));
    wire::lemma_u32_at(o, s, 60, mtimensec);
    assert(s.subrange(64, 68) =~= wire::uint_bytes(o, ctimensec as nat, 4));
    wire::lemma_u32_at(o, s, 64, ctimensec);
    assert(s.subrange(68, 72) =~= wire::uint_bytes(o, mode as nat, 4));
    wire::lemma_u32_at(o, s, 68, mode);
    assert(s.subrange(76, 80) =~= wire::uint_bytes(o, uid as nat, 4));
    wire::lemma_u32_at(o, s, 76, uid);
    assert(s.subrange(80, 84) =~= wire::uint_bytes(o, gid as nat, 4));
    wire::lemma_u32_at(o, s, 80, gid);
    assert(s.subrange(88, 96) =~= wire::uint_bytes(o, wire::pattern64(bkuptime as int), 8));
    wire::lemma_i64_at(o, s, 88, bkuptime);
    assert(s.subrange(96, 104) =~= wire::uint_bytes(o, wire::pattern64(chgtime as int), 8));
    wire::lemma_i64_at(o, s, 96, chgtime);
    assert(s.subrange(104, 112) =~= wire::uint_bytes(o, wire::pattern64(crtime as int), 8));
    wire::lemma_i64_at(o, s, 104, crtime);
    assert(s.subrange(112, 116) =~= wire::uint_bytes(o, bkuptimensec as nat, 4));
    wire::lemma_u32_at(o, s, 112, bkuptimensec);
    assert(s.subrange(116, 120) =~= wire::uint_bytes(o, chgtimensec as nat, 4));
    wire::lemma_u32_at(o, s, 116, chgtimensec);
    assert(s.subrange(120, 124) =~= wire::uint_bytes(o, crtimensec as nat, 4));
    wire::lemma_u32_at(o, s, 120, crtimensec);
    assert(s.subrange(124, 128) =~= wire::uint_bytes(o, flags as nat, 4));
    wire::lemma_u32_at(o, s, 124, flags);
}

/// To set an extended attribute on macOS: with a position in it.
pub proof fn law_mac_setxattr_reads_back(
    o: ByteOrder,
    flags: i32,
    position: u32,
    unused: Seq<u8>,
    name: Seq<u8>,
    value: Seq<u8>,
)
    requires
        unused.len() == 4,
        !name.contains(0),
        value.len() <= u32::MAX,
    ensures
        operation::operation_of(
            Os::MacOs,
            o,
            21,
            wire::uint_bytes(o, value.len() as nat, 4)
                + wire::uint_bytes(o, wire::pattern32(flags as int), 4)
                + wire::uint_bytes(o, position as nat, 4) + unused + name.push(0) + value,
        ) == Some((OpView::SetXAttr { flags, name, value, position })),
{
    let fixed = wire::uint_bytes(o, value.len() as nat, 4)
        + wire::uint_bytes(o, wire::pattern32(flags as int), 4)
        + wire::uint_bytes(o, position as nat, 4) + unused;
    let s = wire::uint_bytes(o, value.len() as nat, 4)
        + wire::uint_bytes(o, wire::pattern32(flags as int), 4)
        + wire::uint_bytes(o, position as nat, 4) + unused + name.push(0) + value;
    wire::lemma_uint_bytes_len(o, value.len() as nat, 4);
    wire::lemma_uint_bytes_len(o, wire::pattern32(flags as int), 4);
    wire::lemma_uint_bytes_len(o, position as nat, 4);
    assert(s.subrange(0, 4) =~= wire::uint_bytes(o, value.len() as nat, 4));
    wire::lemma_u32_at(o, s, 0, (value.len()) as u32);
    assert(s.subrange(4, 8) =~= wire::uint_bytes(o, wire::pattern32(flags as int), 4));
    wire::lemma_i32_at(o, s, 4, flags);
    assert(s.subrange(8, 12) =~= wire::uint_bytes(o, position as nat, 4));
    wire::lemma_u32_at(o, s, 8, position);
    operation::law_names_read_back(fixed, name, value);
    assert(s.skip((16 + name.len() + 1) as int) =~= value);
}

/// To get an extended attribute on macOS: with a position, which is not used.
pub proof fn law_mac_getxattr_reads_back(
    o: ByteOrder,
    size: u32,
    unused: Seq<u8>,
    name: Seq<u8>,
    rest: Seq<u8>,
)
    requires
        unused.len() == 12,
        !name.contains(0),
    ensures
        operation::operation_of(
            Os::MacOs,
            o,
            22,
            wire::uint_bytes(o, size as nat, 4) + unused + name.push(0) + rest,
        ) == Some((OpView::GetXAttr { size, name })),
{
    let fixed = wire::uint_bytes(o, size as nat, 4) + unused;
    let s = wire::uint_bytes(o, size as nat, 4) + unused + name.push(0) + rest;
    wire::lemma_uint_bytes_len(o, size as nat, 4);
    assert(s.subrange(0, 4) =~= wire::uint_bytes(o, size as nat, 4));
    wire::lemma_u32_at(o, s, 0, size);
    operation::law_names_read_back(fixed, name, rest);
}

/// To list extended attributes on macOS: with a position, which is not used.
pub proof fn law_mac_listxattr_reads_back(o: ByteOrder, size: u32, unused: Seq<u8>, rest: Seq<u8>)
    requires
        unused.len() == 12,
    ensures
        operation::operation_of(
            Os::MacOs,
            o,
            23,
            wire::uint_bytes(o, size as nat, 4) + unused + rest,
        ) == Some((OpView::ListXAttr { size })),
{
    let s = wire::uint_bytes(o, size as nat, 4) + unused + rest;
    wire::lemma_uint_bytes_len(o, size as nat, 4);
    assert(s.subrange(0, 4) =~= wire::uint_bytes(o, size as nat, 4));
    wire::lemma_u32_at(o, s, 0, size);
}

/// To rename the volume on macOS: the name.
pub proof fn law_setvolname_reads_back(o: ByteOrder, name: Seq<u8>, rest: Seq<u8>)
    requires
        !name.contains(0),
    ensures
        operation::operation_of(
            Os::MacOs,
            o,
            61,
            Seq::<u8>::empty() + name.push(0) + rest,
        ) == Some((OpView::SetVolName { name })),
{
    let fixed = Seq::<u8>::empty();
    let s = Seq::<u8>::empty() + name.push(0) + rest;
    operation::law_names_read_back(fixed, name, rest);
    assert(s =~= fixed + s);
}

/// To query extended times on macOS: nothing.
pub proof fn law_getxtimes_reads_back(o: ByteOrder, rest: Seq<u8>)
    ensures
        operation::operation_of(Os::MacOs, o, 62, rest) == Some((OpView::GetXTimes)),
{
}

/// To exchange two files on macOS: their directories, options, and their names.
pub proof fn law_exchange_reads_back(
    o: ByteOrder,
    olddir: u64,
    newdir: u64,
    options: u64,
    name: Seq<u8>,
    newname: Seq<u8>,
    rest: Seq<u8>,
)
    requires
        !name.contains(0),
        !newname.contains(0),
    ensures
        operation::operation_of(
            Os::MacOs,
            o,
            63,
            wire::uint_bytes(o, olddir as nat, 8) + wire::uint_bytes(o, newdir as nat, 8)
                + wire::uint_bytes(o, options as nat, 8) + name.push(0) + newname.push(0) + rest,
        ) == Some((OpView::Exchange { olddir, newdir, options, name, newname })),
{
    let fixed = wire::uint_bytes(o, olddir as nat, 8) + wire::uint_bytes(o, newdir as nat, 8)
        + wire::uint_bytes(o, options as nat, 8);
    let s = wire::uint_bytes(o, olddir as nat, 8) + wire::uint_bytes(o, newdir as nat, 8)
        + wire::uint_bytes(o, options as nat, 8) + name.push(0) + newname.push(0) + rest;
    wire::lemma_uint_bytes_len(o, olddir as nat, 8);
    wire::lemma_uint_bytes_len(o, newdir as nat, 8);
    wire::lemma_uint_bytes_len(o, options as nat, 8);
    assert(s.subrange(0, 8) =~= wire::uint_bytes(o, olddir as nat, 8));
    wire::lemma_u64_at(o, s, 0, olddir);
    assert(s.subrange(8, 16) =~= wire::uint_bytes(o, newdir as nat, 8));
    wire::lemma_u64_at(o, s, 8, newdir);
    assert(s.subrange(16, 24) =~= wire::uint_bytes(o, options as nat, 8));
    wire::lemma_u64_at(o, s, 16, options);
    operation::law_names_read_back(fixed, name, newname.push(0) + rest);
    operation::law_names_read_back(fixed + name.push(0), newname, rest);
    assert(s =~= fixed + name.push(0) + (newname.push(0) + rest));
}

/// To forget several inodes: how many, and each with its number of lookups, sixteen bytes an
/// inode. None is read unless all of them are there.
pub proof fn law_batch_forget_reads_back(
    os: Os,
    o: ByteOrder,
    count: u32,
    unused: Seq<u8>,
    nodes: Seq<u8>,
)
    requires
        unused.len() == 4,
    ensures
        ({
            let op = operation::operation_of(
                os,
                o,
                42,
                wire::uint_bytes(o, count as nat, 4) + unused + nodes,
            );
            if nodes.len() >= 16 * count {
                op matches Some(Operation::BatchForget { nodes: read }) && {
                    &&& read.len() == count
                    &&& forall|i: int|
                        0 <= i < count ==> (#[trigger] read[i]).nodeid == wire::u64_at(
                            o,
                            nodes,
                            16 * i,
                        ) && read[i].nlookup == wire::u64_at(o, nodes, 16 * i + 8)
                }
            } else {
                op is None
            }
        }),
{
    let s = wire::uint_bytes(o, count as nat, 4) + unused + nodes;
    wire::lemma_uint_bytes_len(o, count as nat, 4);
    assert(s.subrange(0, 4) =~= wire::uint_bytes(o, count as nat, 4));
    wire::lemma_u32_at(o, s, 0, count);
    assert(nodes =~= s.subrange(8, s.len() as int));
    if nodes.len() >= 16 * count {
        assert forall|i: int| 0 <= i < count implies wire::u64_at(o, nodes, 16 * i)
            == #[trigger] wire::u64_at(o, s, 8 + 16 * i) && wire::u64_at(o, nodes, 16 * i + 8)
            == wire::u64_at(o, s, 16 + 16 * i) by {
            wire::lemma_read_in_part(o, s, 8, s.len() as int, 16 * i);
            wire::lemma_read_in_part(o, s, 8, s.len() as int, 16 * i + 8);
        }
        let read = operation::forget_nodes_of(o, s)->0;
        assert forall|i: int| 0 <= i < count implies (#[trigger] read[i]).nodeid == wire::u64_at(
            o,
            nodes,
            16 * i,
        ) && read[i].nlookup == wire::u64_at(o, nodes, 16 * i + 8) by {
            assert(wire::u64_at(o, s, 8 + 16 * i) == wire::u64_at(o, nodes, 16 * i));
        }
    }
}

/// An operation whose fixed arguments are not all there is not read, whatever they are.
pub proof fn law_short_arguments_are_not_read(os: Os, o: ByteOrder, opcode: u32, s: Seq<u8>)
    requires
        ({
            ||| s.len() < 8 && (opcode == 2 || opcode == 9 || opcode == 12 || opcode == 13
                || opcode == 14 || opcode == 21 || opcode == 22 || opcode == 23 || opcode == 27
                || opcode == 34 || opcode == 36 || opcode == 42)
            ||| s.len() < 16 && (opcode == 3 || opcode == 8 || opcode == 20 || opcode == 26
                || opcode == 30 || opcode == 35 || opcode == 37 || opcode == 45 || opcode == 4096)
            ||| s.len() < 24 && (opcode == 18 || opcode == 25 || opcode == 29 || opcode == 40
                || opcode == 46)
            ||| s.len() < 32 && (opcode == 39 || opcode == 43)
            ||| s.len() < 40 && (opcode == 15 || opcode == 16 || opcode == 28 || opcode == 44)
            ||| s.len() < 48 && (opcode == 31 || opcode == 32 || opcode == 33)
            ||| s.len() < 56 && opcode == 47
            ||| s.len() < 88 && opcode == 4
            ||| os == Os::MacOs && s.len() < 16 && (opcode == 21 || opcode == 22 || opcode == 23)
            ||| os == Os::MacOs && s.len() < 24 && opcode == 63
            ||| os == Os::MacOs && s.len() < 128 && opcode == 4
        }),
    ensures
        operation::operation_of(os, o, opcode, s) is None,
{
}

/// An operation whose name has no zero byte behind it is not read.
pub proof fn law_names_without_an_end_are_not_read(
    os: Os,
    o: ByteOrder,
    opcode: u32,
    s: Seq<u8>,
    from: int,
)
    requires
        0 <= from <= s.len(),
        forall|i: int| from <= i < s.len() ==> s[i] != 0,
        ({
            ||| from == 0 && (opcode == 1 || opcode == 6 || opcode == 10 || opcode == 11 || opcode
                == 24 || (os == Os::MacOs && opcode == 61))
            ||| from == 8 && (opcode == 9 || opcode == 12 || opcode == 13)
            ||| from == 8 && os != Os::MacOs && (opcode == 21 || opcode == 22)
            ||| from == 16 && (opcode == 8 || opcode == 35 || opcode == 45)
            ||| from == 16 && os == Os::MacOs && (opcode == 21 || opcode == 22)
            ||| from == 24 && os == Os::MacOs && opcode == 63
        }),
    ensures
        operation::operation_of(os, o, opcode, s) is None,
{
    operation::law_names_end_at_the_first_zero(s, from);
    if let Some((name, rest)) = operation::str_at(s, from) {
        assert(s.subrange(from, rest)[rest - 1 - from] == 0);
        assert(s[rest - 1] == 0);
    }
}

/// An operation with two names is not read if only the first has a zero byte behind it.
pub proof fn law_second_names_without_an_end_are_not_read(
    os: Os,
    o: ByteOrder,
    opcode: u32,
    fixed: Seq<u8>,
    name: Seq<u8>,
    newname: Seq<u8>,
)
    requires
        !name.contains(0),
        !newname.contains(0),
        ({
            ||| fixed.len() == 0 && opcode == 6
            ||| fixed.len() == 8 && opcode == 12
            ||| fixed.len() == 16 && opcode == 45
            ||| fixed.len() == 24 && opcode == 63
        }),
    ensures
        operation::operation_of(os, o, opcode, fixed + name.push(0) + newname) is None,
{
    let s = fixed + name.push(0) + newname;
    let at = fixed.len() + name.len() + 1;
    operation::law_names_read_back(fixed, name, newname);
    operation::law_names_end_at_the_first_zero(s, at as int);
    assert forall|i: int| at <= i < s.len() implies s[i] != 0 by {
        assert(s[i] == newname[i - at]);
    }
    if let Some((second, rest)) = operation::str_at(s, at as int) {
        assert(s.subrange(at as int, rest)[rest - 1 - at] == 0);
        assert(s[rest - 1] == 0);
    }
}

/// Data that does not have the announced length is not read: that of a write and the value of
/// an extended attribute have to end with the request, that of a control call has to be there.
pub proof fn law_data_of_another_length_is_not_read(
    os: Os,
    o: ByteOrder,
    s: Seq<u8>,
    name: Seq<u8>,
    value: Seq<u8>,
)
    ensures
        s.len() >= 40 && s.len() != 40 + wire::u32_at(o, s, 16) ==> operation::operation_of(
            os,
            o,
            16,
            s,
        ) is None,
        s.len() >= 32 && s.len() < 32 + wire::u32_at(o, s, 24) ==> operation::operation_of(
            os,
            o,
            39,
            s,
        ) is None,
        s.len() == 8 && !name.contains(0) && os != Os::MacOs && value.len() != wire::u32_at(
            o,
            s + name.push(0) + value,
            0,
        ) ==> operation::operation_of(os, o, 21, s + name.push(0) + value) is None,
        s.len() == 16 && !name.contains(0) && os == Os::MacOs && value.len() != wire::u32_at(
            o,
            s + name.push(0) + value,
            0,
        ) ==> operation::operation_of(os, o, 21, s + name.push(0) + value) is None,
{
    if !name.contains(0) {
        operation::law_names_read_back(s, name, value);
    }
}

/// A number that stands for no operation is read as none: those of macOS are among them on any
/// other system.
pub proof fn law_unknown_numbers_are_not_read(os: Os, o: ByteOrder, opcode: u32, s: Seq<u8>)
    requires
        ({
            ||| opcode == 0 || opcode == 7 || opcode == 19
            ||| 48 <= opcode <= 60
            ||| 64 <= opcode && opcode != 4096
            ||| 61 <= opcode <= 63 && os != Os::MacOs
        }),
    ensures
        operation::operation_of(os, o, opcode, s) is None,
{
}

} // verus!
