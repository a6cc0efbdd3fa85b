//! Integers in both byte orders, and error numbers.
use fuse_session::platform::{Errnos, Os, Platform};
use fuse_session::wire::{
    native_order, order_of_one, push_i32, push_uint, push_zeros, read_i32, read_i64, read_u32,
    read_u64, read_uint, ByteOrder,
};

#[test]
fn numbers_are_written_in_both_orders() {
    let mut out = vec![9u8];
    push_uint(ByteOrder::Little, &mut out, 0x0102_0304, 4);
    push_uint(ByteOrder::Big, &mut out, 0x0102_0304, 4);
    push_zeros(&mut out, 2);
    assert_eq!(out, [9, 4, 3, 2, 1, 1, 2, 3, 4, 0, 0]);
}

#[test]
fn only_the_lowest_bytes_are_written() {
    let mut out = Vec::new();
    push_uint(ByteOrder::Little, &mut out, 0x01_02_03, 2);
    assert_eq!(out, [3, 2]);
}

#[test]
fn numbers_are_read_in_both_orders() {
    let data = [0u8, 1, 2, 3, 4, 5, 6, 7, 8];
    assert_eq!(read_uint(ByteOrder::Little, &data, 1, 3), 0x03_02_01);
    assert_eq!(read_uint(ByteOrder::Big, &data, 1, 3), 0x01_02_03);
    assert_eq!(read_u32(ByteOrder::Big, &data, 1), 0x0102_0304);
    assert_eq!(read_u32(ByteOrder::Little, &data, 1), 0x0403_0201);
    assert_eq!(read_u64(ByteOrder::Big, &data, 1), 0x0102_0304_0506_0708);
    assert_eq!(read_uint(ByteOrder::Big, &data, 9, 0), 0);
}

#[test]
fn signed_numbers_are_twos_complement() {
    for order in [ByteOrder::Little, ByteOrder::Big] {
        for v in [0i32, 1, -1, -38, i32::MAX, i32::MIN] {
            let mut out = Vec::new();
            push_i32(order, &mut out, v);
            let want = match order {
                ByteOrder::Little => v.to_le_bytes(),
                ByteOrder::Big => v.to_be_bytes(),
            };
            assert_eq!(out, want);
            assert_eq!(read_i32(order, &out, 0), v);
        }
    }
    assert_eq!(read_i64(ByteOrder::Little, &(-5i64).to_le_bytes(), 0), -5);
    assert_eq!(read_i64(ByteOrder::Big, &i64::MIN.to_be_bytes(), 0), i64::MIN);
    assert_eq!(read_i64(ByteOrder::Big, &i64::MAX.to_be_bytes(), 0), i64::MAX);
}

#[test]
fn a_written_number_reads_back() {
    for order in [ByteOrder::Little, ByteOrder::Big] {
        for v in [0u64, 255, 256, 0xdead_beef, u64::MAX] {
            let mut out = Vec::new();
            push_uint(order, &mut out, v, 8);
            assert_eq!(read_u64(order, &out, 0), v);
        }
    }
}

#[test]
fn error_numbers_are_those_of_the_system() {
    let errnos = Errnos {
        eperm: libc::EPERM,
        enoent: libc::ENOENT,
        eintr: libc::EINTR,
        eio: libc::EIO,
        eagain: libc::EAGAIN,
        eacces: libc::EACCES,
        enodev: libc::ENODEV,
        enosys: libc::ENOSYS,
        eproto: libc::EPROTO,
    };
    assert_eq!(Errnos::native(), errnos);
    assert_eq!(Platform::native(), Platform { os: Os::Linux, errnos });
}

#[test]
fn the_number_one_shows_the_order() {
    assert_eq!(order_of_one([1, 0]), ByteOrder::Little);
    assert_eq!(order_of_one([0, 1]), ByteOrder::Big);
    assert_eq!(order_of_one(1u16.to_le_bytes()), ByteOrder::Little);
    assert_eq!(native_order(), order_of_one(1u16.to_ne_bytes()));
}
