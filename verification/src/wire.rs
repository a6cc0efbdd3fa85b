//! Integers as the kernel lays them out in FUSE messages.
//!
//! FUSE messages are C structures in the host's own byte order. The order is a
//! value here, so that every layout is stated for both of them.
use vstd::prelude::*;

verus! {

/// The order in which the bytes of an integer are stored.
#[derive(Debug, Clone, Copy, PartialEq, Eq, Structural)]
pub enum ByteOrder {
    /// Least significant byte first.
    Little,
    /// Most significant byte first.
    Big,
}

/// The number 256 to the power `n`.
pub open spec fn pow256(n: nat) -> nat
    decreases n,
{
    if n == 0 {
        1
    } else {
        256 * pow256((n - 1) as nat)
    }
}

/// The number whose base-256 digits, least significant first, are `s`.
pub open spec fn digits_value(s: Seq<u8>) -> nat
    decreases s.len(),
{
    if s.len() == 0 {
        0
    } else {
        s[0] as nat + 256 * digits_value(s.drop_first())
    }
}

/// The `n` lowest base-256 digits of `v`, least significant first.
pub open spec fn digits(v: nat, n: nat) -> Seq<u8>
    decreases n,
{
    if n == 0 {
        seq![]
    } else {
        seq![(v % 256) as u8] + digits(v / 256, (n - 1) as nat)
    }
}

/// The unsigned number stored in `s` in the order `o`.
pub open spec fn uint_value(o: ByteOrder, s: Seq<u8>) -> nat {
    match o {
        ByteOrder::Little => digits_value(s),
        ByteOrder::Big => digits_value(s.reverse()),
    }
}

/// The `n` bytes that store the unsigned number `v` in the order `o`.
pub open spec fn uint_bytes(o: ByteOrder, v: nat, n: nat) -> Seq<u8> {
    match o {
        ByteOrder::Little => digits(v, n),
        ByteOrder::Big => digits(v, n).reverse(),
    }
}

/// The unsigned number in the `n` bytes of `s` from `at` on.
pub open spec fn uint_at(o: ByteOrder, s: Seq<u8>, at: int, n: int) -> nat {
    uint_value(o, s.subrange(at, at + n))
}

/// The 32-bit number stored at `at`.
#[verifier::opaque]
pub open spec fn u32_at(o: ByteOrder, s: Seq<u8>, at: int) -> u32 {
    uint_at(o, s, at, 4) as u32
}

/// The 64-bit number stored at `at`.
#[verifier::opaque]
pub open spec fn u64_at(o: ByteOrder, s: Seq<u8>, at: int) -> u64 {
    uint_at(o, s, at, 8) as u64
}

/// The signed 32-bit number stored at `at`.
#[verifier::opaque]
pub open spec fn i32_at(o: ByteOrder, s: Seq<u8>, at: int) -> i32 {
    signed32(uint_at(o, s, at, 4)) as i32
}

/// The signed 64-bit number stored at `at`.
#[verifier::opaque]
pub open spec fn i64_at(o: ByteOrder, s: Seq<u8>, at: int) -> i64 {
    signed64(uint_at(o, s, at, 8)) as i64
}

/// The two's complement reading of a 32-bit pattern.
pub open spec fn signed32(v: nat) -> int {
    if v < 0x8000_0000 {
        v as int
    } else {
        v - 0x1_0000_0000
    }
}

/// The two's complement reading of a 64-bit pattern.
pub open spec fn signed64(v: nat) -> int {
    if v < 0x8000_0000_0000_0000 {
        v as int
    } else {
        v - 0x1_0000_0000_0000_0000
    }
}

/// The 32-bit two's complement pattern of `v`.
pub open spec fn pattern32(v: int) -> nat {
    if v >= 0 {
        v as nat
    } else {
        (v + 0x1_0000_0000) as nat
    }
}

/// The 64-bit two's complement pattern of `v`.
pub open spec fn pattern64(v: int) -> nat {
    if v >= 0 {
        v as nat
    } else {
        (v + 0x1_0000_0000_0000_0000) as nat
    }
}

/// `n` digits have a value below 256 to the power `n`.
proof fn lemma_digits_value_bound(s: Seq<u8>)
    ensures
        digits_value(s) < pow256(s.len()),
    decreases s.len(),
{
    if s.len() > 0 {
        lemma_digits_value_bound(s.drop_first());
    }
}

/// `digits` gives `n` digits.
proof fn lemma_digits_len(v: nat, n: nat)
    ensures
        digits(v, n).len() == n,
    decreases n,
{
    if n > 0 {
        lemma_digits_len(v / 256, (n - 1) as nat);
    }
}

/// The digits of a number that fits give the number back.
proof fn lemma_digits_round_trip(v: nat, n: nat)
    requires
        v < pow256(n),
    ensures
        digits_value(digits(v, n)) == v,
    decreases n,
{
    if n > 0 {
        lemma_digits_round_trip(v / 256, (n - 1) as nat);
        assert(digits(v, n).drop_first() =~= digits(v / 256, (n - 1) as nat));
    }
}

/// Writing a number and reading it back in the same order gives the number,
/// whenever it fits in the bytes written.
pub proof fn lemma_uint_round_trip(o: ByteOrder, v: nat, n: nat)
    requires
        v < pow256(n),
    ensures
        uint_bytes(o, v, n).len() == n,
        uint_value(o, uint_bytes(o, v, n)) == v,
{
    lemma_digits_len(v, n);
    lemma_digits_round_trip(v, n);
    assert(digits(v, n).reverse().reverse() =~= digits(v, n));
}

/// The byte at the place `i` of a number that is stored least significant byte first is its
/// digit for 256 to the power `i`; most significant byte first, the bytes stand the other way
/// round.
pub proof fn law_place_value(v: nat, n: nat, i: nat)
    requires
        i < n,
    ensures
        uint_bytes(ByteOrder::Little, v, n).len() == n,
        uint_bytes(ByteOrder::Big, v, n).len() == n,
        uint_bytes(ByteOrder::Little, v, n)[i as int] == (v as int
            / vstd::arithmetic::power::pow(256, i)) % 256,
        uint_bytes(ByteOrder::Big, v, n)[n - 1 - i] == uint_bytes(
            ByteOrder::Little,
            v,
            n,
        )[i as int],
    decreases n,
{
    lemma_digits_len(v, n);
    if i == 0 {
        vstd::arithmetic::power::lemma_pow0(256);
        assert(digits(v, n)[0] == (v % 256) as u8);
    } else {
        let k = (i - 1) as nat;
        law_place_value(v / 256, (n - 1) as nat, k);
        lemma_digits_len(v / 256, (n - 1) as nat);
        vstd::arithmetic::power::lemma_pow_positive(256, k);
        vstd::arithmetic::div_mod::lemma_div_denominator(
            v as int,
            256,
            vstd::arithmetic::power::pow(256, k),
        );
        reveal(vstd::arithmetic::power::pow);
        assert(digits(v, n)[i as int] == digits(v / 256, (n - 1) as nat)[k as int]);
    }
}

/// Bytes are told by the number that they store, and by how many they are.
pub proof fn law_bytes_read_back(o: ByteOrder, s: Seq<u8>)
    ensures
        uint_bytes(o, uint_value(o, s), s.len()) == s,
        uint_value(o, s) < vstd::arithmetic::power::pow(256, s.len()),
{
    lemma_pow256_is_pow(s.len());
    lemma_uint_value_bound(o, s);
    lemma_digits_of_value(s);
    lemma_digits_of_value(s.reverse());
    assert(s.reverse().reverse() =~= s);
}

proof fn lemma_digits_of_value(s: Seq<u8>)
    ensures
        digits(digits_value(s), s.len()) == s,
    decreases s.len(),
{
    if s.len() > 0 {
        lemma_digits_of_value(s.drop_first());
        assert(seq![s[0]] + s.drop_first() =~= s);
    } else {
        assert(digits(digits_value(s), 0) =~= s);
    }
}

proof fn lemma_pow256_is_pow(n: nat)
    ensures
        pow256(n) == vstd::arithmetic::power::pow(256, n),
    decreases n,
{
    reveal(vstd::arithmetic::power::pow);
    if n > 0 {
        lemma_pow256_is_pow((n - 1) as nat);
    }
}

/// A number that is written in enough bytes reads back, in either order.
pub proof fn law_number_reads_back(o: ByteOrder, v: nat, n: nat)
    requires
        v < vstd::arithmetic::power::pow(256, n),
    ensures
        uint_value(o, uint_bytes(o, v, n)) == v,
{
    lemma_pow256_is_pow(n);
    lemma_uint_round_trip(o, v, n);
}

/// What is read at a place are the bytes from there on, as an unsigned number or as the signed
/// one that agrees with it in its lowest bits.
pub proof fn law_numbers_are_read_at_their_place(o: ByteOrder, s: Seq<u8>, at: int)
    requires
        0 <= at,
    ensures
        at + 4 <= s.len() ==> u32_at(o, s, at) == uint_value(o, s.subrange(at, at + 4)),
        at + 8 <= s.len() ==> u64_at(o, s, at) == uint_value(o, s.subrange(at, at + 8)),
        at + 4 <= s.len() ==> (i32_at(o, s, at) - uint_value(o, s.subrange(at, at + 4)))
            % 0x1_0000_0000 == 0,
        at + 8 <= s.len() ==> (i64_at(o, s, at) - uint_value(o, s.subrange(at, at + 8)))
            % 0x1_0000_0000_0000_0000 == 0,
{
    reveal(u32_at);
    reveal(u64_at);
    reveal(i32_at);
    reveal(i64_at);
    lemma_pow256_values();
    if at + 4 <= s.len() {
        lemma_uint_value_bound(o, s.subrange(at, at + 4));
    }
    if at + 8 <= s.len() {
        lemma_uint_value_bound(o, s.subrange(at, at + 8));
    }
}

/// The pattern of a signed number agrees with it in its lowest bits.
pub proof fn law_patterns(a: i32, b: i64)
    ensures
        pattern32(a as int) < 0x1_0000_0000,
        (pattern32(a as int) - a) % 0x1_0000_0000 == 0,
        pattern64(b as int) < 0x1_0000_0000_0000_0000,
        (pattern64(b as int) - b) % 0x1_0000_0000_0000_0000 == 0,
{
}

/// A 32-bit number is read where its bytes stand.
pub proof fn lemma_u32_at(o: ByteOrder, s: Seq<u8>, at: int, v: u32)
    requires
        0 <= at,
        at + 4 <= s.len(),
        s.subrange(at, at + 4) == uint_bytes(o, v as nat, 4),
    ensures
        u32_at(o, s, at) == v,
{
    reveal(u32_at);
    lemma_pow256_values();
    lemma_uint_round_trip(o, v as nat, 4);
}

/// A 64-bit number is read where its bytes stand.
pub proof fn lemma_u64_at(o: ByteOrder, s: Seq<u8>, at: int, v: u64)
    requires
        0 <= at,
        at + 8 <= s.len(),
        s.subrange(at, at + 8) == uint_bytes(o, v as nat, 8),
    ensures
        u64_at(o, s, at) == v,
{
    reveal(u64_at);
    lemma_pow256_values();
    lemma_uint_round_trip(o, v as nat, 8);
}

/// A signed 32-bit number is read where the bytes of its pattern stand.
pub proof fn lemma_i32_at(o: ByteOrder, s: Seq<u8>, at: int, v: i32)
    requires
        0 <= at,
        at + 4 <= s.len(),
        s.subrange(at, at + 4) == uint_bytes(o, pattern32(v as int), 4),
    ensures
        i32_at(o, s, at) == v,
{
    reveal(i32_at);
    lemma_pow256_values();
    lemma_uint_round_trip(o, pattern32(v as int), 4);
}

/// A signed 64-bit number is read where the bytes of its pattern stand.
pub proof fn lemma_i64_at(o: ByteOrder, s: Seq<u8>, at: int, v: i64)
    requires
        0 <= at,
        at + 8 <= s.len(),
        s.subrange(at, at + 8) == uint_bytes(o, pattern64(v as int), 8),
    ensures
        i64_at(o, s, at) == v,
{
    reveal(i64_at);
    lemma_pow256_values();
    lemma_uint_round_trip(o, pattern64(v as int), 8);
}

/// What is read in a part of a sequence is what is read there in the whole.
pub proof fn lemma_read_in_part(o: ByteOrder, s: Seq<u8>, from: int, to: int, at: int)
    requires
        0 <= from <= to <= s.len(),
        0 <= at,
    ensures
        at + 4 <= to - from ==> u32_at(o, s.subrange(from, to), at) == u32_at(o, s, from + at),
        at + 8 <= to - from ==> u64_at(o, s.subrange(from, to), at) == u64_at(o, s, from + at),
{
    reveal(u32_at);
    reveal(u64_at);
    let part = s.subrange(from, to);
    if at + 4 <= to - from {
        assert(part.subrange(at, at + 4) =~= s.subrange(from + at, from + at + 4));
    }
    if at + 8 <= to - from {
        assert(part.subrange(at, at + 8) =~= s.subrange(from + at, from + at + 8));
    }
}

/// A number is stored in as many bytes as are asked for.
pub proof fn lemma_uint_bytes_len(o: ByteOrder, v: nat, n: nat)
    ensures
        uint_bytes(o, v, n).len() == n,
{
    lemma_digits_len(v, n);
}

/// The powers of 256 that bound the machine integers.
pub proof fn lemma_pow256_values()
    ensures
        pow256(2) == 0x1_0000,
        pow256(4) == 0x1_0000_0000,
        pow256(8) == 0x1_0000_0000_0000_0000,
{
    reveal_with_fuel(pow256, 9);
}

/// The powers of 256 grow with their exponent.
proof fn lemma_pow256_monotone(m: nat, n: nat)
    requires
        m <= n,
    ensures
        0 < pow256(m) <= pow256(n),
    decreases n,
{
    if m < n {
        lemma_pow256_monotone(m, (n - 1) as nat);
    } else if m > 0 {
        lemma_pow256_monotone((m - 1) as nat, (n - 1) as nat);
    }
}

/// A number that is stored in few bytes is bounded by them.
pub proof fn lemma_uint_value_bound(o: ByteOrder, s: Seq<u8>)
    ensures
        uint_value(o, s) < pow256(s.len()),
{
    lemma_digits_value_bound(s);
    lemma_digits_value_bound(s.reverse());
}

/// Reads the unsigned number that is stored in `n` bytes of `data` from `at` on.
pub fn read_uint(o: ByteOrder, data: &[u8], at: usize, n: usize) -> (v: u64)
    requires
        n <= 8,
        at + n <= data@.len(),
    ensures
        v == uint_at(o, data@, at as int, n as int),
        v < pow256(n as nat),
{
    let len: usize = data.len();
    let mut acc: u64 = 0;
    let mut k: usize = 0;
    proof {
        lemma_pow256_values();
    }
    match o {
        ByteOrder::Little => {
            while k < n
                invariant
                    n <= 8,
                    k <= n,
                    at + n <= len,
                    len == data@.len(),
                    acc == digits_value(data@.subrange(at + n - k, at + n)),
                    pow256(8) == 0x1_0000_0000_0000_0000,
                decreases n - k,
            {
                let b: u8 = data[at + (n - k - 1)];
                let ghost tail = data@.subrange(at + n - k, at + n);
                let ghost more = data@.subrange(at + n - k - 1, at + n);
                proof {
                    assert(more.drop_first() =~= tail);
                    lemma_digits_value_bound(more);
                    lemma_pow256_monotone(more.len(), 8);
                }
                acc = b as u64 + 256 * acc;
                k = k + 1;
            }
        },
        ByteOrder::Big => {
            while k < n
                invariant
                    n <= 8,
                    k <= n,
                    at + n <= len,
                    len == data@.len(),
                    acc == digits_value(data@.subrange(at as int, at + k).reverse()),
                    pow256(8) == 0x1_0000_0000_0000_0000,
                decreases n - k,
            {
                let b: u8 = data[at + k];
                let ghost head = data@.subrange(at as int, at + k).reverse();
                let ghost more = data@.subrange(at as int, at + k + 1).reverse();
                proof {
                    assert(more.drop_first() =~= head);
                    lemma_digits_value_bound(more);
                    lemma_pow256_monotone(more.len(), 8);
                }
                acc = b as u64 + 256 * acc;
                k = k + 1;
            }
        },
    }
    proof {
        lemma_uint_value_bound(o, data@.subrange(at as int, at + n));
    }
    acc
}

/// Appends the `n` bytes that store `v` to `out`.
pub fn push_uint(o: ByteOrder, out: &mut Vec<u8>, v: u64, n: usize)
    requires
        n <= 8,
    ensures
        final(out)@ == old(out)@ + uint_bytes(o, v as nat, n as nat),
{
    let mut low: Vec<u8> = Vec::new();
    let mut rest: u64 = v;
    while low.len() < n
        invariant
            low.len() <= n,
            digits(v as nat, n as nat) =~= low@ + digits(rest as nat, (n - low@.len()) as nat),
        decreases n - low.len(),
    {
        let b: u8 = (rest % 256) as u8;
        low.push(b);
        rest = rest / 256;
    }
    match o {
        ByteOrder::Little => {
            out.append(&mut low);
        },
        ByteOrder::Big => {
            let mut k: usize = 0;
            let ghost before = out@;
            while k < n
                invariant
                    k <= n,
                    low@.len() == n,
                    out@ =~= before + low@.reverse().subrange(0, k as int),
                decreases n - k,
            {
                let b: u8 = low[n - 1 - k];
                out.push(b);
                k = k + 1;
            }
            assert(low@.reverse().subrange(0, n as int) =~= low@.reverse());
        },
    }
}

/// Appends `n` zero bytes.
pub fn push_zeros(out: &mut Vec<u8>, n: usize)
    ensures
        final(out)@ == old(out)@ + Seq::new(n as nat, |i: int| 0u8),
{
    let ghost before = out@;
    let mut k: usize = 0;
    while k < n
        invariant
            k <= n,
            out@ =~= before + Seq::new(k as nat, |i: int| 0u8),
        decreases n - k,
    {
        out.push(0);
        k = k + 1;
    }
}

/// Reads a 32-bit number.
pub fn read_u32(o: ByteOrder, data: &[u8], at: usize) -> (v: u32)
    requires
        at + 4 <= data@.len(),
    ensures
        v == u32_at(o, data@, at as int),
        v == uint_at(o, data@, at as int, 4),
{
    reveal(u32_at);
    proof {
        lemma_pow256_values();
    }
    read_uint(o, data, at, 4) as u32
}

/// Reads a 64-bit number.
pub fn read_u64(o: ByteOrder, data: &[u8], at: usize) -> (v: u64)
    requires
        at + 8 <= data@.len(),
    ensures
        v == u64_at(o, data@, at as int),
        v == uint_at(o, data@, at as int, 8),
{
    reveal(u64_at);
    read_uint(o, data, at, 8)
}

/// Reads a signed 32-bit number.
pub fn read_i32(o: ByteOrder, data: &[u8], at: usize) -> (v: i32)
    requires
        at + 4 <= data@.len(),
    ensures
        v == i32_at(o, data@, at as int),
        v == signed32(uint_at(o, data@, at as int, 4)),
{
    reveal(i32_at);
    let u: u32 = read_u32(o, data, at);
    assert(u < 0x8000_0000u32 ==> u as i32 == u) by (bit_vector);
    assert(u >= 0x8000_0000u32 ==> u as i32 == u - 0x1_0000_0000) by (bit_vector);
    u as i32
}

/// Reads a signed 64-bit number.
pub fn read_i64(o: ByteOrder, data: &[u8], at: usize) -> (v: i64)
    requires
        at + 8 <= data@.len(),
    ensures
        v == i64_at(o, data@, at as int),
        v == signed64(uint_at(o, data@, at as int, 8)),
{
    reveal(i64_at);
    let u: u64 = read_u64(o, data, at);
    assert(u < 0x8000_0000_0000_0000u64 ==> u as i64 == u) by (bit_vector);
    assert(u >= 0x8000_0000_0000_0000u64 ==> u as i64 == u - 0x1_0000_0000_0000_0000)
        by (bit_vector);
    u as i64
}

/// Appends a signed 32-bit number.
pub fn push_i32(o: ByteOrder, out: &mut Vec<u8>, v: i32)
    ensures
        final(out)@ == old(out)@ + uint_bytes(o, pattern32(v as int), 4),
{
    assert(v >= 0 ==> v as u32 == v) by (bit_vector);
    assert(v < 0 ==> v as u32 == v + 0x1_0000_0000) by (bit_vector);
    push_uint(o, out, v as u32 as u64, 4)
}

/// The order in which the machine that runs this code stores integers: vstd leaves open which
/// of the two it is, and so does this library.
pub open spec fn host_order() -> ByteOrder {
    match vstd::endian::endianness() {
        vstd::endian::Endian::Little => ByteOrder::Little,
        vstd::endian::Endian::Big => ByteOrder::Big,
    }
}

/// Calls `u16::to_ne_bytes`.
///
/// Trusted: the two bytes are those of `v`, in the order of the machine that runs this code.
#[verifier::external_body]
fn to_ne_bytes(v: u16) -> (bytes: [u8; 2])
    ensures
        bytes@ == uint_bytes(host_order(), v as nat, 2),
{
    v.to_ne_bytes()
}

/// How the number 1 is stored in two bytes.
proof fn lemma_bytes_of_one()
    ensures
        uint_bytes(ByteOrder::Little, 1, 2) == seq![1u8, 0u8],
        uint_bytes(ByteOrder::Big, 1, 2) == seq![0u8, 1u8],
{
    reveal_with_fuel(digits, 3);
    assert(uint_bytes(ByteOrder::Little, 1, 2) =~= seq![1u8, 0u8]);
    assert(uint_bytes(ByteOrder::Big, 1, 2) =~= seq![0u8, 1u8]);
}

/// The order in which the number 1 is stored as `bytes`.
pub fn order_of_one(bytes: [u8; 2]) -> (r: ByteOrder)
    requires
        bytes@ == uint_bytes(ByteOrder::Little, 1, 2) || bytes@ == uint_bytes(
            ByteOrder::Big,
            1,
            2,
        ),
    ensures
        bytes@ == uint_bytes(r, 1, 2),
{
    proof {
        lemma_bytes_of_one();
    }
    if bytes[0] == 1 {
        ByteOrder::Little
    } else {
        ByteOrder::Big
    }
}

/// The order in which this machine stores integers.
pub fn native_order() -> (r: ByteOrder)
    ensures
        r == host_order(),
{
    let one: [u8; 2] = to_ne_bytes(1);
    proof {
        lemma_bytes_of_one();
    }
    order_of_one(one)
}

} // verus!
