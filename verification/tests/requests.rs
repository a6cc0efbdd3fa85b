//! Requests, read from raw bytes.
use fuse_session::channel::ChannelSender;
use fuse_session::ll::AnyRequest;
use fuse_session::operation::{
    read_operation, FileLock, ForgetOne, Op, Operation, SetAttrs, TimeOrNow, Timestamp,
};
use fuse_session::owned_request::{FuseReader, OwnedRequest};
use fuse_session::platform::Os;
use fuse_session::wire::ByteOrder;
use std::sync::Arc;

const LE: ByteOrder = ByteOrder::Little;

fn header(len: u32, opcode: u32) -> Vec<u8> {
    let mut v = Vec::new();
    v.extend_from_slice(&len.to_ne_bytes());
    v.extend_from_slice(&opcode.to_ne_bytes());
    v.extend_from_slice(&0x1122_3344_5566_7788u64.to_ne_bytes());
    v.extend_from_slice(&42u64.to_ne_bytes());
    v.extend_from_slice(&1000u32.to_ne_bytes());
    v.extend_from_slice(&1001u32.to_ne_bytes());
    v.extend_from_slice(&1002u32.to_ne_bytes());
    v.extend_from_slice(&0u32.to_ne_bytes());
    v
}

fn sender() -> ChannelSender<String> {
    ChannelSender::new(Arc::new(String::from("device")))
}

fn words32(words: &[u32]) -> Vec<u8> {
    words.iter().flat_map(|w| w.to_le_bytes()).collect()
}

fn words64(words: &[u64]) -> Vec<u8> {
    words.iter().flat_map(|w| w.to_le_bytes()).collect()
}

fn cat(parts: &[&[u8]]) -> Vec<u8> {
    parts.concat()
}

#[test]
fn owned_request_keeps_data_and_sender() {
    let mut buf = header(40, 5);
    let req = OwnedRequest::new(&buf, sender());
    let copy = buf.clone();
    buf[0] = 99;
    assert_eq!(req.data(), &copy[..]);
    assert_eq!(req.sender().device(), "device");
    assert_eq!(req.clone_sender().device(), "device");
}

#[test]
fn clones_of_a_sender_lead_to_the_same_device() {
    let device = Arc::new(String::from("device"));
    let first = ChannelSender::new(Arc::clone(&device));
    let second = first.clone();
    assert!(std::ptr::eq(first.device(), second.device()));
    assert_eq!(Arc::strong_count(&device), 3);
    drop(first);
    drop(second);
    assert_eq!(Arc::strong_count(&device), 1);
}

#[test]
fn reader_makes_requests_that_answer_through_it() {
    let reader = FuseReader::new(sender());
    let req = reader.make_owned_request(&header(40, 5));
    assert!(std::ptr::eq(req.sender().device(), reader.sender().device()));
    assert_eq!(req.data().len(), 40);
}

#[test]
fn header_fields_are_read() {
    let req = OwnedRequest::new(&header(40, 5), sender());
    let any = req.parse().unwrap();
    assert_eq!(any.unique(), 0x1122_3344_5566_7788);
    assert_eq!(any.nodeid(), 42);
    assert_eq!(any.uid(), 1000);
    assert_eq!(any.gid(), 1001);
    assert_eq!(any.pid(), 1002);
    let legacy = req.as_legacy_request().unwrap();
    assert_eq!(legacy.unique(), 0x1122_3344_5566_7788);
    assert_eq!(legacy.uid(), 1000);
    assert_eq!(legacy.gid(), 1001);
    assert_eq!(legacy.pid(), 1002);
}

#[test]
fn native_order_is_that_of_the_machine() {
    let req = OwnedRequest::new(&header(40, 5), sender());
    let want = if cfg_little() { ByteOrder::Little } else { ByteOrder::Big };
    assert_eq!(req.order(), want);
}

fn cfg_little() -> bool {
    1u16.to_ne_bytes() == 1u16.to_le_bytes()
}

#[test]
fn short_and_lying_requests_are_invalid() {
    assert!(OwnedRequest::new(&[], sender()).parse().is_none());
    assert!(OwnedRequest::new(&header(40, 5)[..39], sender()).parse().is_none());
    assert!(OwnedRequest::new(&header(41, 5), sender()).parse().is_none());
    assert!(OwnedRequest::new(&header(39, 5), sender()).parse().is_none());
    assert!(OwnedRequest::new(&header(0, 5), sender()).parse().is_none());
    assert!(OwnedRequest::new(&header(41, 5), sender()).as_legacy_request().is_none());
    assert!(OwnedRequest::new(&header(40, 5), sender()).parse().is_some());
}

#[test]
fn bytes_behind_the_request_play_no_part() {
    let mut bytes = header(44, 1);
    bytes.extend_from_slice(b"abc\0rest");
    let req = OwnedRequest::new(&bytes, sender());
    match req.parse().unwrap().operation(Os::Linux) {
        Some(Operation::Lookup { name }) => assert_eq!(name, b"abc"),
        other => panic!("unexpected {:?}", other),
    }
}

#[test]
fn requests_are_read_in_both_orders() {
    let mut big = Vec::new();
    big.extend_from_slice(&48u32.to_be_bytes());
    big.extend_from_slice(&2u32.to_be_bytes());
    big.extend_from_slice(&7u64.to_be_bytes());
    big.extend_from_slice(&8u64.to_be_bytes());
    big.extend_from_slice(&[0; 16]);
    big.extend_from_slice(&3u64.to_be_bytes());
    let any = AnyRequest::parse(ByteOrder::Big, &big).unwrap();
    assert_eq!(any.unique(), 7);
    assert_eq!(any.nodeid(), 8);
    assert_eq!(any.operation(Os::Linux), Some(Operation::Forget { nlookup: 3 }));
    assert!(AnyRequest::parse(ByteOrder::Little, &big).is_none());
}

#[test]
fn read_outcome_tells_bytes_from_errors() {
    assert_eq!(FuseReader::<String>::read_outcome(0, 5), Ok(0));
    assert_eq!(FuseReader::<String>::read_outcome(80, 5), Ok(80));
    assert_eq!(FuseReader::<String>::read_outcome(-1, 5), Err(5));
}

#[test]
fn unknown_operations_are_not_read() {
    for opcode in [0u32, 7, 19, 48, 4095, 4097, u32::MAX] {
        assert_eq!(read_operation(Os::Linux, LE, opcode, &[0; 128]), None);
    }
}

#[test]
fn operations_without_arguments() {
    assert_eq!(read_operation(Os::Linux, LE, 5, &[]), Some(Operation::ReadLink));
    assert_eq!(read_operation(Os::Linux, LE, 17, &[]), Some(Operation::StatFs));
    assert_eq!(read_operation(Os::Linux, LE, 38, &[]), Some(Operation::Destroy));
    assert_eq!(read_operation(Os::Linux, LE, 4096, &[0; 16]), Some(Operation::CuseInit));
    assert_eq!(read_operation(Os::Linux, LE, 4096, &[0; 15]), None);
    assert_eq!(
        read_operation(Os::Linux, LE, 41, b"xy"),
        Some(Operation::NotifyReply { data: &b"xy"[..] })
    );
}

#[test]
fn names_end_at_the_first_zero() {
    assert_eq!(
        read_operation(Os::Linux, LE, 1, b"a\0b\0"),
        Some(Operation::Lookup { name: &b"a"[..] })
    );
    assert_eq!(read_operation(Os::Linux, LE, 1, b"\0"), Some(Operation::Lookup { name: &b""[..] }));
    assert_eq!(read_operation(Os::Linux, LE, 1, b"a"), None);
    assert_eq!(read_operation(Os::Linux, LE, 1, b""), None);
    assert_eq!(
        read_operation(Os::Linux, LE, 10, b"u\0"),
        Some(Operation::Unlink { name: &b"u"[..] })
    );
    assert_eq!(
        read_operation(Os::Linux, LE, 11, b"r\0"),
        Some(Operation::RmDir { name: &b"r"[..] })
    );
    assert_eq!(
        read_operation(Os::Linux, LE, 24, b"x\0"),
        Some(Operation::RemoveXAttr { name: &b"x"[..] })
    );
}

#[test]
fn operations_with_two_names() {
    assert_eq!(
        read_operation(Os::Linux, LE, 6, b"link\0target\0"),
        Some(Operation::SymLink { link_name: &b"link"[..], target: &b"target"[..] })
    );
    assert_eq!(read_operation(Os::Linux, LE, 6, b"link\0target"), None);
    let rename = cat(&[&words64(&[9]), b"old\0new\0"]);
    assert_eq!(
        read_operation(Os::Linux, LE, 12, &rename),
        Some(Operation::Rename { newdir: 9, name: &b"old"[..], newname: &b"new"[..] })
    );
    let rename2 = cat(&[&words64(&[9]), &words32(&[3, 0]), b"old\0new\0"]);
    assert_eq!(
        read_operation(Os::Linux, LE, 45, &rename2),
        Some(Operation::Rename2 { newdir: 9, flags: 3, name: &b"old"[..], newname: &b"new"[..] })
    );
}

#[test]
fn creating_operations() {
    let mknod = cat(&[&words32(&[1, 2, 3, 0]), b"n\0"]);
    assert_eq!(
        read_operation(Os::Linux, LE, 8, &mknod),
        Some(Operation::MkNod { mode: 1, rdev: 2, umask: 3, name: &b"n"[..] })
    );
    let mkdir = cat(&[&words32(&[1, 3]), b"d\0"]);
    assert_eq!(
        read_operation(Os::Linux, LE, 9, &mkdir),
        Some(Operation::MkDir { mode: 1, umask: 3, name: &b"d"[..] })
    );
    let create = cat(&[&words32(&[0x8000_0000, 2, 3, 0]), b"f\0"]);
    assert_eq!(
        read_operation(Os::Linux, LE, 35, &create),
        Some(Operation::Create { flags: i32::MIN, mode: 2, umask: 3, name: &b"f"[..] })
    );
    let link = cat(&[&words64(&[77]), b"l\0"]);
    assert_eq!(
        read_operation(Os::Linux, LE, 13, &link),
        Some(Operation::Link { oldnodeid: 77, name: &b"l"[..] })
    );
    assert_eq!(read_operation(Os::Linux, LE, 8, &mknod[..15]), None);
    assert_eq!(read_operation(Os::Linux, LE, 8, &mknod[..17]), None);
}

#[test]
fn attributes_of_a_file() {
    let with = cat(&[&words32(&[1, 0]), &words64(&[5])]);
    let without = cat(&[&words32(&[2, 0]), &words64(&[5])]);
    assert_eq!(read_operation(Os::Linux, LE, 3, &with), Some(Operation::GetAttr { fh: Some(5) }));
    assert_eq!(read_operation(Os::Linux, LE, 3, &without), Some(Operation::GetAttr { fh: None }));
}

fn setattr(valid: u32) -> Vec<u8> {
    cat(&[
        &words32(&[valid, 0]),
        &words64(&[11, 12, 13]),
        &words64(&[14, (-15i64) as u64, 16]),
        &words32(&[17, 18, 19, 20, 0, 21, 22, 0]),
    ])
}

#[test]
fn attributes_to_set() {
    let bytes = setattr(1 | 2 | 4 | 8 | 16 | 32 | 64 | 1024);
    assert_eq!(bytes.len(), 88);
    let all = SetAttrs {
        mode: Some(20),
        uid: Some(21),
        gid: Some(22),
        size: Some(12),
        atime: Some(TimeOrNow::SpecificTime(Timestamp { secs: 14, nanos: 17 })),
        mtime: Some(TimeOrNow::SpecificTime(Timestamp { secs: -15, nanos: 18 })),
        ctime: Some(Timestamp { secs: 16, nanos: 19 }),
        fh: Some(11),
        crtime: None,
        chgtime: None,
        bkuptime: None,
        flags: None,
    };
    assert_eq!(read_operation(Os::Linux, LE, 4, &bytes), Some(Operation::SetAttr { attrs: all }));
    let none = SetAttrs {
        mode: None,
        uid: None,
        gid: None,
        size: None,
        atime: None,
        mtime: None,
        ctime: None,
        fh: None,
        crtime: None,
        chgtime: None,
        bkuptime: None,
        flags: None,
    };
    assert_eq!(
        read_operation(Os::Linux, LE, 4, &setattr(0)),
        Some(Operation::SetAttr { attrs: none })
    );
    // "Now" counts only for a time that is set.
    assert_eq!(
        read_operation(Os::Linux, LE, 4, &setattr(128 | 256)),
        Some(Operation::SetAttr { attrs: none })
    );
    let now = SetAttrs { atime: Some(TimeOrNow::Now), mtime: Some(TimeOrNow::Now), ..none };
    assert_eq!(
        read_operation(Os::Linux, LE, 4, &setattr(16 | 32 | 128 | 256)),
        Some(Operation::SetAttr { attrs: now })
    );
    assert_eq!(read_operation(Os::Linux, LE, 4, &bytes[..87]), None);
}

#[test]
fn opening_and_releasing() {
    assert_eq!(
        read_operation(Os::Linux, LE, 14, &words32(&[2, 0])),
        Some(Operation::Open { flags: 2 })
    );
    assert_eq!(
        read_operation(Os::Linux, LE, 27, &words32(&[3, 0])),
        Some(Operation::OpenDir { flags: 3 })
    );
    let release = cat(&[&words64(&[4]), &words32(&[5, 3]), &words64(&[6])]);
    assert_eq!(
        read_operation(Os::Linux, LE, 18, &release),
        Some(Operation::Release { fh: 4, flags: 5, flush: true, lock_owner: Some(6) })
    );
    let quiet = cat(&[&words64(&[4]), &words32(&[5, 0]), &words64(&[6])]);
    assert_eq!(
        read_operation(Os::Linux, LE, 18, &quiet),
        Some(Operation::Release { fh: 4, flags: 5, flush: false, lock_owner: None })
    );
    assert_eq!(
        read_operation(Os::Linux, LE, 29, &quiet),
        Some(Operation::ReleaseDir { fh: 4, flags: 5 })
    );
    let flush = cat(&[&words64(&[4, 0, 9])]);
    assert_eq!(
        read_operation(Os::Linux, LE, 25, &flush),
        Some(Operation::Flush { fh: 4, lock_owner: 9 })
    );
    let fsync = cat(&[&words64(&[4]), &words32(&[1, 0])]);
    assert_eq!(
        read_operation(Os::Linux, LE, 20, &fsync),
        Some(Operation::FSync { fh: 4, datasync: true })
    );
    assert_eq!(
        read_operation(Os::Linux, LE, 30, &fsync),
        Some(Operation::FSyncDir { fh: 4, datasync: true })
    );
}

#[test]
fn reading_and_writing() {
    let read = cat(&[&words64(&[1, 2]), &words32(&[3, 2]), &words64(&[4]), &words32(&[5, 0])]);
    assert_eq!(
        read_operation(Os::Linux, LE, 15, &read),
        Some(Operation::Read { fh: 1, offset: 2, size: 3, lock_owner: Some(4), flags: 5 })
    );
    assert_eq!(
        read_operation(Os::Linux, LE, 28, &read),
        Some(Operation::ReadDir { fh: 1, offset: 2, size: 3 })
    );
    assert_eq!(
        read_operation(Os::Linux, LE, 44, &read),
        Some(Operation::ReadDirPlus { fh: 1, offset: 2, size: 3 })
    );
    let write = cat(&[&read, b"abc"]);
    assert_eq!(
        read_operation(Os::Linux, LE, 16, &write),
        Some(Operation::Write {
            fh: 1,
            offset: 2,
            write_flags: 2,
            lock_owner: Some(4),
            flags: 5,
            data: &b"abc"[..]
        })
    );
    // The announced size has to be that of the data.
    assert_eq!(read_operation(Os::Linux, LE, 16, &read), None);
    assert_eq!(read_operation(Os::Linux, LE, 16, &cat(&[&read, b"abcd"])), None);
}

#[test]
fn extended_attributes() {
    let set = cat(&[&words32(&[3, 1]), b"name\0val"]);
    assert_eq!(
        read_operation(Os::Linux, LE, 21, &set),
        Some(Operation::SetXAttr {
            flags: 1,
            name: &b"name"[..],
            value: &b"val"[..],
            position: 0
        })
    );
    assert_eq!(read_operation(Os::Linux, LE, 21, &set[..set.len() - 1]), None);
    let get = cat(&[&words32(&[64, 0]), b"name\0"]);
    assert_eq!(
        read_operation(Os::Linux, LE, 22, &get),
        Some(Operation::GetXAttr { size: 64, name: &b"name"[..] })
    );
    assert_eq!(
        read_operation(Os::Linux, LE, 23, &words32(&[64, 0])),
        Some(Operation::ListXAttr { size: 64 })
    );
}

#[test]
fn locks() {
    let lk = cat(&[&words64(&[1, 2, 3, 4]), &words32(&[1, 6, 0, 0])]);
    let lock = FileLock { start: 3, end: 4, typ: 1, pid: 6 };
    assert_eq!(
        read_operation(Os::Linux, LE, 31, &lk),
        Some(Operation::GetLk { fh: 1, lock_owner: 2, lock })
    );
    assert_eq!(
        read_operation(Os::Linux, LE, 32, &lk),
        Some(Operation::SetLk { fh: 1, lock_owner: 2, lock })
    );
    assert_eq!(
        read_operation(Os::Linux, LE, 33, &lk),
        Some(Operation::SetLkW { fh: 1, lock_owner: 2, lock })
    );
    assert_eq!(read_operation(Os::Linux, LE, 33, &lk[..47]), None);
}

#[test]
fn other_operations() {
    assert_eq!(
        read_operation(Os::Linux, LE, 26, &words32(&[7, 31, 4096, 0x40_0021])),
        Some(Operation::Init {
            major: 7,
            minor: 31,
            max_readahead: 4096,
            capabilities: 0x40_0021
        })
    );
    assert_eq!(
        read_operation(Os::Linux, LE, 34, &words32(&[4, 0])),
        Some(Operation::Access { mask: 4 })
    );
    assert_eq!(
        read_operation(Os::Linux, LE, 36, &words64(&[8])),
        Some(Operation::Interrupt { unique: 8 })
    );
    let bmap = cat(&[&words64(&[9]), &words32(&[512, 0])]);
    assert_eq!(
        read_operation(Os::Linux, LE, 37, &bmap),
        Some(Operation::BMap { block: 9, block_size: 512 })
    );
    let sizes = words32(&[2, 6]);
    let ioctl = cat(&[&words64(&[1]), &words32(&[2, 3]), &words64(&[4]), &sizes, b"xyz"]);
    assert_eq!(
        read_operation(Os::Linux, LE, 39, &ioctl),
        Some(Operation::IoCtl { fh: 1, flags: 2, command: 3, out_size: 6, in_data: &b"xy"[..] })
    );
    assert_eq!(read_operation(Os::Linux, LE, 39, &ioctl[..33]), None);
    let poll = cat(&[&words64(&[1, 2]), &words32(&[3, 4])]);
    assert_eq!(
        read_operation(Os::Linux, LE, 40, &poll),
        Some(Operation::Poll { fh: 1, kernel_handle: 2, flags: 3, events: 4 })
    );
    let fallocate = cat(&[&words64(&[1, 2, 3]), &words32(&[4, 0])]);
    assert_eq!(
        read_operation(Os::Linux, LE, 43, &fallocate),
        Some(Operation::FAllocate { fh: 1, offset: 2, len: 3, mode: 4 })
    );
    let lseek = cat(&[&words64(&[1, 2]), &words32(&[3, 0])]);
    assert_eq!(
        read_operation(Os::Linux, LE, 46, &lseek),
        Some(Operation::Lseek { fh: 1, offset: 2, whence: 3 })
    );
    assert_eq!(
        read_operation(Os::Linux, LE, 47, &words64(&[1, 2, 3, 4, 5, 6, 7])),
        Some(Operation::CopyFileRange {
            fh_in: 1,
            offset_in: 2,
            nodeid_out: 3,
            fh_out: 4,
            offset_out: 5,
            len: 6,
            flags: 7
        })
    );
}

#[test]
fn batches_of_inodes() {
    let batch = cat(&[&words32(&[2, 0]), &words64(&[1, 2, 3, 4])]);
    let op: Option<Op> = read_operation(Os::Linux, LE, 42, &batch);
    assert_eq!(
        op,
        Some(Operation::BatchForget {
            nodes: vec![
                ForgetOne { nodeid: 1, nlookup: 2 },
                ForgetOne { nodeid: 3, nlookup: 4 }
            ]
        })
    );
    assert_eq!(read_operation(Os::Linux, LE, 42, &batch[..batch.len() - 1]), None);
    assert_eq!(
        read_operation(Os::Linux, LE, 42, &words32(&[0, 0])),
        Some(Operation::BatchForget { nodes: vec![] })
    );
    assert_eq!(read_operation(Os::Linux, LE, 42, &words32(&[u32::MAX, 0])), None);
}

#[test]
fn macos_has_more_operations() {
    let read =
        |opcode: u32, body: &[u8]| format!("{:?}", read_operation(Os::MacOs, LE, opcode, body));
    let want = |op: Op| format!("{:?}", Some(op));
    assert_eq!(read(61, b"vol\0"), want(Operation::SetVolName { name: b"vol" }));
    assert_eq!(read(62, &[]), want(Operation::GetXTimes));
    let exchange = cat(&[&words64(&[1, 2, 3]), b"a\0b\0"]);
    assert_eq!(
        read(63, &exchange),
        want(Operation::Exchange { olddir: 1, newdir: 2, options: 3, name: b"a", newname: b"b" })
    );
    for os in [Os::Linux, Os::Other] {
        assert_eq!(read_operation(os, LE, 61, b"vol\0"), None);
        assert_eq!(read_operation(os, LE, 62, &[]), None);
        assert_eq!(read_operation(os, LE, 63, &exchange), None);
    }
    let set = cat(&[&words32(&[3, 1, 9, 0]), b"name\0val"]);
    assert_eq!(
        read(21, &set),
        want(Operation::SetXAttr { flags: 1, name: b"name", value: b"val", position: 9 })
    );
    let get = cat(&[&words32(&[64, 0, 9, 0]), b"name\0"]);
    assert_eq!(read(22, &get), want(Operation::GetXAttr { size: 64, name: b"name" }));
    assert_eq!(read(17, &[]), want(Operation::StatFs));
}

#[test]
fn macos_sets_more_attributes() {
    let times = cat(&[&words64(&[31, 32, 33]), &words32(&[34, 35, 36, 37])]);
    let more = cat(&[&setattr(0xf000_0000), &times]);
    assert_eq!(more.len(), 128);
    match read_operation(Os::MacOs, LE, 4, &more) {
        Some(Operation::SetAttr { attrs }) => {
            assert_eq!(attrs.bkuptime, Some(Timestamp { secs: 31, nanos: 34 }));
            assert_eq!(attrs.chgtime, Some(Timestamp { secs: 32, nanos: 35 }));
            assert_eq!(attrs.crtime, Some(Timestamp { secs: 33, nanos: 36 }));
            assert_eq!(attrs.flags, Some(37));
            assert_eq!(attrs.mode, None);
        }
        other => panic!("unexpected {:?}", other),
    }
    assert_eq!(read_operation(Os::MacOs, LE, 4, &more[..127]), None);
    match read_operation(Os::Linux, LE, 4, &more) {
        Some(Operation::SetAttr { attrs }) => assert_eq!((attrs.crtime, attrs.flags), (None, None)),
        other => panic!("unexpected {:?}", other),
    }
}
