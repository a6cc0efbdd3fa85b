//! What a filesystem and the kernel agree on when a connection is initialized.
use crate::session::MAX_WRITE_SIZE;
use crate::wire::{self, ByteOrder};
use vstd::prelude::*;

verus! {

/// Major version of the protocol that a session speaks.
pub const FUSE_KERNEL_VERSION: u32 = 7;

/// Minor version of the protocol that a session speaks.
pub const FUSE_KERNEL_MINOR_VERSION: u32 = 28;

/// Capability: reads may be sent in parallel.
pub const FUSE_ASYNC_READ: u64 = 1;

/// Capability: writes may be larger than a page.
pub const FUSE_BIG_WRITES: u64 = 32;

/// Capability: the reply tells how many pages a request may have.
pub const FUSE_MAX_PAGES: u64 = 0x40_0000;

/// The configuration that a filesystem may change while it is initialized.
#[derive(Debug, Clone, Copy, PartialEq, Eq, Structural)]
pub struct KernelConfig {
    /// Capabilities that the kernel offers.
    pub capabilities: u64,
    /// Capabilities that the filesystem asks for.
    pub requested: u64,
    /// Largest readahead.
    pub max_readahead: u32,
    /// Largest number of requests in the background.
    pub max_background: u16,
    /// Number of background requests at which the kernel holds back; three quarters of the
    /// largest number if it is not given.
    pub congestion_threshold: Option<u16>,
    /// Largest amount of data in a write.
    pub max_write: u32,
    /// Granularity of times, in nanoseconds.
    pub time_gran: u32,
}

/// The configuration that a filesystem starts from.
pub open spec fn initial_config(capabilities: u64, max_readahead: u32) -> KernelConfig {
    KernelConfig {
        capabilities,
        requested: FUSE_ASYNC_READ | FUSE_BIG_WRITES | (capabilities & FUSE_MAX_PAGES),
        max_readahead,
        max_background: 16,
        congestion_threshold: None,
        max_write: MAX_WRITE_SIZE as u32,
        time_gran: 1,
    }
}

impl KernelConfig {
    /// The number of background requests at which the kernel holds back.
    pub open spec fn threshold(self) -> int {
        match self.congestion_threshold {
            None => self.max_background * 3 / 4,
            Some(n) => if n <= self.max_background {
                n as int
            } else {
                self.max_background as int
            },
        }
    }

    /// The number of pages that the largest transfer takes, as far as the reply can tell it.
    pub open spec fn pages(self, page_size: u32) -> int {
        let largest = if self.max_write >= self.max_readahead {
            self.max_write
        } else {
            self.max_readahead
        };
        let pages = (largest + page_size - 1) / page_size as int;
        if pages <= u16::MAX {
            pages
        } else {
            u16::MAX as int
        }
    }

    /// What follows the header of the reply to an initialization by a kernel that offers the
    /// capabilities `offered`: only those of them that are requested are confirmed. The eight
    /// words at the end are unused.
    pub open spec fn payload(self, o: ByteOrder, offered: u64, page_size: u32) -> Seq<u8> {
        wire::uint_bytes(o, FUSE_KERNEL_VERSION as nat, 4) + wire::uint_bytes(
            o,
            FUSE_KERNEL_MINOR_VERSION as nat,
            4,
        ) + wire::uint_bytes(o, self.max_readahead as nat, 4) + wire::uint_bytes(
            o,
            (offered & self.requested) as nat,
            4,
        ) + wire::uint_bytes(o, self.max_background as nat, 2) + wire::uint_bytes(
            o,
            self.threshold() as nat,
            2,
        ) + wire::uint_bytes(o, self.max_write as nat, 4) + wire::uint_bytes(
            o,
            self.time_gran as nat,
            4,
        ) + wire::uint_bytes(o, self.pages(page_size) as nat, 2) + Seq::new(34, |i: int| 0u8)
    }

    /// Makes the configuration that a filesystem starts from.
    pub fn new(capabilities: u64, max_readahead: u32) -> (r: KernelConfig)
        ensures
            r == initial_config(capabilities, max_readahead),
    {
        KernelConfig {
            capabilities,
            requested: FUSE_ASYNC_READ | FUSE_BIG_WRITES | (capabilities & FUSE_MAX_PAGES),
            max_readahead,
            max_background: 16,
            congestion_threshold: None,
            max_write: MAX_WRITE_SIZE as u32,
            time_gran: 1,
        }
    }

    /// Makes what follows the header of the reply to an initialization by a kernel that offers
    /// the capabilities `offered`.
    pub fn make_payload(&self, o: ByteOrder, offered: u64, page_size: u32) -> (r: Vec<u8>)
        requires
            page_size > 0,
        ensures
            r@ == self.payload(o, offered, page_size),
            r@.len() == 64,
    {
        let threshold: u64 = match self.congestion_threshold {
            None => self.max_background as u64 * 3 / 4,
            Some(n) => if n <= self.max_background {
                n as u64
            } else {
                self.max_background as u64
            },
        };
        let largest: u64 = if self.max_write >= self.max_readahead {
            self.max_write as u64
        } else {
            self.max_readahead as u64
        };
        let whole: u64 = (largest + page_size as u64 - 1) / page_size as u64;
        let pages: u64 = if whole <= 0xffff {
            whole
        } else {
            0xffff
        };
        proof {
            wire::lemma_uint_bytes_len(o, FUSE_KERNEL_VERSION as nat, 4);
            wire::lemma_uint_bytes_len(o, FUSE_KERNEL_MINOR_VERSION as nat, 4);
            wire::lemma_uint_bytes_len(o, self.max_readahead as nat, 4);
            wire::lemma_uint_bytes_len(o, (offered & self.requested) as nat, 4);
            wire::lemma_uint_bytes_len(o, self.max_background as nat, 2);
            wire::lemma_uint_bytes_len(o, self.threshold() as nat, 2);
            wire::lemma_uint_bytes_len(o, self.max_write as nat, 4);
            wire::lemma_uint_bytes_len(o, self.time_gran as nat, 4);
            wire::lemma_uint_bytes_len(o, self.pages(page_size) as nat, 2);
        }
        let mut out: Vec<u8> = Vec::new();
        wire::push_uint(o, &mut out, FUSE_KERNEL_VERSION as u64, 4);
        wire::push_uint(o, &mut out, FUSE_KERNEL_MINOR_VERSION as u64, 4);
        wire::push_uint(o, &mut out, self.max_readahead as u64, 4);
        wire::push_uint(o, &mut out, offered & self.requested, 4);
        wire::push_uint(o, &mut out, self.max_background as u64, 2);
        wire::push_uint(o, &mut out, threshold, 2);
        wire::push_uint(o, &mut out, self.max_write as u64, 4);
        wire::push_uint(o, &mut out, self.time_gran as u64, 4);
        wire::push_uint(o, &mut out, pages, 2);
        wire::push_zeros(&mut out, 34);
        out
    }
}

/// Whatever a filesystem does to its configuration, no capability is confirmed that the kernel
/// did not offer, and of those offered the requested ones are.
pub proof fn law_only_offered_capabilities_are_confirmed(
    config: KernelConfig,
    o: ByteOrder,
    offered: u32,
    page_size: u32,
)
    ensures
        ({
            let confirmed = wire::u32_at(o, config.payload(o, offered as u64, page_size), 12);
            &&& confirmed == offered as u64 & config.requested
            &&& confirmed & !offered == 0
        }),
{
    let s = config.payload(o, offered as u64, page_size);
    let requested = config.requested;
    let both = offered as u64 & requested;
    assert(both <= 0xffff_ffff && (both as u32) & !offered == 0) by (bit_vector)
        requires
            both == offered as u64 & requested,
    ;
    wire::lemma_pow256_values();
    wire::lemma_uint_round_trip(o, both as nat, 4);
    wire::lemma_uint_bytes_len(o, FUSE_KERNEL_VERSION as nat, 4);
    wire::lemma_uint_bytes_len(o, FUSE_KERNEL_MINOR_VERSION as nat, 4);
    wire::lemma_uint_bytes_len(o, config.max_readahead as nat, 4);
    reveal(wire::u32_at);
    assert(s.subrange(12, 16) =~= wire::uint_bytes(o, both as nat, 4));
}

/// The configuration that a filesystem starts from: it asks for parallel reads and big writes,
/// and to be told of pages if the kernel offers that; sixteen requests may be in the background,
/// and a write may have sixteen mebibytes.
pub proof fn law_initial_config(capabilities: u64, max_readahead: u32)
    ensures
        ({
            let config = initial_config(capabilities, max_readahead);
            &&& config.capabilities == capabilities
            &&& config.requested & 0xffff_ffff_ffbf_ffff == 33
            &&& config.requested & 0x40_0000 == capabilities & 0x40_0000
            &&& config.max_readahead == max_readahead
            &&& config.max_background == 16
            &&& config.congestion_threshold is None
            &&& config.max_write == 16777216
            &&& config.time_gran == 1
        }),
{
    assert((1u64 | 32u64 | (capabilities & 0x40_0000)) & 0xffff_ffff_ffbf_ffff == 33)
        by (bit_vector);
    assert((1u64 | 32u64 | (capabilities & 0x40_0000)) & 0x40_0000 == capabilities & 0x40_0000)
        by (bit_vector);
}

/// The kernel holds back at the number that the filesystem gives, but never above the largest
/// number of requests in the background; if none is given, at three quarters of that number,
/// rounded down.
pub proof fn law_threshold(config: KernelConfig)
    ensures
        config.congestion_threshold is None ==> 4 * config.threshold() <= 3 * config.max_background
            && 3 * config.max_background < 4 * config.threshold() + 4,
        config.congestion_threshold matches Some(n) ==> config.threshold() <= n
            && config.threshold() <= config.max_background && (config.threshold() == n
            || config.threshold() == config.max_background),
{
}

/// The pages told of hold the largest write and the largest readahead, and one page less would
/// not; where there are more than the reply can tell, it tells as many as it can.
pub proof fn law_pages(config: KernelConfig, page_size: u32)
    requires
        page_size > 0,
    ensures
        ({
            let pages = config.pages(page_size);
            &&& 0 <= pages <= 65535
            &&& pages < 65535 ==> pages * page_size >= config.max_write && pages * page_size
                >= config.max_readahead
            &&& pages > 0 ==> (pages - 1) * page_size < config.max_write || (pages - 1) * page_size
                < config.max_readahead
        }),
{
    let largest = if config.max_write >= config.max_readahead {
        config.max_write as int
    } else {
        config.max_readahead as int
    };
    let size = page_size as int;
    let whole = (largest + size - 1) / size;
    assert(whole * size <= largest + size - 1 < whole * size + size) by (nonlinear_arith)
        requires
            size > 0,
            whole == (largest + size - 1) / size,
    ;
    assert((whole - 1) * size == whole * size - size) by (nonlinear_arith);
    if whole > 65535 {
        assert(65534 * size <= (whole - 1) * size) by (nonlinear_arith)
            requires
                whole > 65535,
                size > 0,
        ;
    }
    assert(whole >= 0) by (nonlinear_arith)
        requires
            size > 0,
            largest >= 0,
            whole == (largest + size - 1) / size,
    ;
}

/// The capabilities are confirmed in the fourth number behind the header, as far as that holds
/// them: those that are both offered and requested.
pub proof fn law_where_capabilities_are_confirmed(
    config: KernelConfig,
    o: ByteOrder,
    offered: u64,
    page_size: u32,
)
    ensures
        config.payload(o, offered, page_size).subrange(12, 16) == wire::uint_bytes(
            o,
            (offered & config.requested) as nat,
            4,
        ),
{
    wire::lemma_uint_bytes_len(o, 7, 4);
    wire::lemma_uint_bytes_len(o, 28, 4);
    wire::lemma_uint_bytes_len(o, config.max_readahead as nat, 4);
    wire::lemma_uint_bytes_len(o, (offered & config.requested) as nat, 4);
    assert(config.payload(o, offered, page_size).subrange(12, 16) =~= wire::uint_bytes(
        o,
        (offered & config.requested) as nat,
        4,
    ));
}

/// The kernel reads back what was agreed on from behind the header of the reply: the version
/// that the session speaks, the largest readahead, the capabilities that are both offered and
/// requested, the numbers of requests in the background, the largest write, the granularity of
/// times and the number of pages, with nothing but zeros behind them.
pub proof fn law_agreement_reads_back(
    config: KernelConfig,
    o: ByteOrder,
    offered: u32,
    page_size: u32,
)
    requires
        page_size > 0,
    ensures
        ({
            let s = config.payload(o, offered as u64, page_size);
            &&& s.len() == 64
            &&& wire::u32_at(o, s, 0) == 7
            &&& wire::u32_at(o, s, 4) == 28
            &&& wire::u32_at(o, s, 8) == config.max_readahead
            &&& wire::u32_at(o, s, 12) == offered as u64 & config.requested
            &&& wire::uint_at(o, s, 16, 2) == config.max_background
            &&& wire::uint_at(o, s, 18, 2) == config.threshold()
            &&& wire::u32_at(o, s, 20) == config.max_write
            &&& wire::u32_at(o, s, 24) == config.time_gran
            &&& wire::uint_at(o, s, 28, 2) == config.pages(page_size)
            &&& forall|i: int| 30 <= i < 64 ==> s[i] == 0
        }),
{
    let s = config.payload(o, offered as u64, page_size);
    let both = offered as u64 & config.requested;
    let threshold = config.threshold() as nat;
    let pages = config.pages(page_size) as nat;
    law_only_offered_capabilities_are_confirmed(config, o, offered, page_size);
    law_threshold(config);
    law_pages(config, page_size);
    wire::lemma_pow256_values();
    wire::lemma_uint_bytes_len(o, 7, 4);
    wire::lemma_uint_bytes_len(o, 28, 4);
    wire::lemma_uint_bytes_len(o, config.max_readahead as nat, 4);
    wire::lemma_uint_bytes_len(o, both as nat, 4);
    wire::lemma_uint_round_trip(o, config.max_background as nat, 2);
    wire::lemma_uint_round_trip(o, threshold, 2);
    wire::lemma_uint_bytes_len(o, config.max_write as nat, 4);
    wire::lemma_uint_bytes_len(o, config.time_gran as nat, 4);
    wire::lemma_uint_round_trip(o, pages, 2);
    assert(s.subrange(0, 4) =~= wire::uint_bytes(o, 7, 4));
    assert(s.subrange(4, 8) =~= wire::uint_bytes(o, 28, 4));
    assert(s.subrange(8, 12) =~= wire::uint_bytes(o, config.max_readahead as nat, 4));
    assert(s.subrange(16, 18) =~= wire::uint_bytes(o, config.max_background as nat, 2));
    assert(s.subrange(18, 20) =~= wire::uint_bytes(o, threshold, 2));
    assert(s.subrange(20, 24) =~= wire::uint_bytes(o, config.max_write as nat, 4));
    assert(s.subrange(24, 28) =~= wire::uint_bytes(o, config.time_gran as nat, 4));
    assert(s.subrange(28, 30) =~= wire::uint_bytes(o, pages, 2));
    wire::lemma_u32_at(o, s, 0, 7);
    wire::lemma_u32_at(o, s, 4, 28);
    wire::lemma_u32_at(o, s, 8, config.max_readahead);
    wire::lemma_u32_at(o, s, 20, config.max_write);
    wire::lemma_u32_at(o, s, 24, config.time_gran);
}

} // verus!
