//! Little-endian numbers and identities inside a record's bytes.

use vstd::prelude::*;
use crate::pubkey::Pubkey;

verus! {

/// The number that `s` writes with its least significant byte first.
pub open spec fn le_value(s: Seq<u8>) -> nat
    decreases s.len(),
{
    if s.len() == 0 {
        0
    } else {
        s[0] as nat + 256 * le_value(s.skip(1))
    }
}

/// The signed 64-bit number that eight bytes write in two's complement, least significant
/// byte first.
pub open spec fn le_signed(s: Seq<u8>) -> int {
    if le_value(s) < 0x8000_0000_0000_0000 {
        le_value(s) as int
    } else {
        le_value(s) - 0x1_0000_0000_0000_0000
    }
}

/// 256 to the power `n`.
pub open spec fn pow256(n: nat) -> nat
    decreases n,
{
    if n == 0 {
        1
    } else {
        256 * pow256((n - 1) as nat)
    }
}

/// The powers of 256 that bound the widths read here.
pub proof fn pow256_widths()
    ensures
        pow256(4) == 0x1_0000_0000,
        pow256(8) == 0x1_0000_0000_0000_0000,
        pow256(16) == 0x1_0000_0000_0000_0000_0000_0000_0000_0000,
{
    reveal_with_fuel(pow256, 17);
}

/// Powers of 256 grow with the exponent.
pub proof fn pow256_grows(a: nat, b: nat)
    requires
        a <= b,
    ensures
        0 < pow256(a) <= pow256(b),
    decreases b,
{
    if b == 0 {
    } else if a == b {
        pow256_grows(0, (b - 1) as nat);
    } else {
        pow256_grows(a, (b - 1) as nat);
    }
}

/// The number written in the `width` bytes of `data` that start at `at`.
pub fn read_le(data: &[u8], at: usize, width: usize) -> (r: u128)
    requires
        width <= 16,
        at + width <= data@.len(),
    ensures
        r == le_value(data@.subrange(at as int, at + width)),
        r < pow256(width as nat),
{
    let total = data.len();
    let ghost end = at + width;
    let mut acc: u128 = 0;
    let mut k: usize = width;
    proof {
        pow256_widths();
        assert(data@.subrange(at + width, end).len() == 0);
    }
    while k > 0
        invariant
            k <= width <= 16,
            end == at + width,
            end <= data@.len() == total,
            acc == le_value(data@.subrange(at + k, end)),
            acc < pow256((width - k) as nat),
            pow256(16) == 0x1_0000_0000_0000_0000_0000_0000_0000_0000,
        decreases k,
    {
        k -= 1;
        proof {
            let tail = data@.subrange(at + k + 1, end);
            let whole = data@.subrange(at + k, end);
            assert(whole.skip(1) =~= tail);
            assert(whole[0] == data@[at + k]);
            pow256_grows((width - k) as nat, 16);
            assert(pow256((width - k) as nat) == 256 * pow256((width - k - 1) as nat));
        }
        acc = acc * 256 + data[at + k] as u128;
    }
    acc
}

/// The 8-bit number at `at`.
pub fn read_u8(data: &[u8], at: usize) -> (r: u8)
    requires
        at < data@.len(),
    ensures
        r == data@[at as int],
{
    data[at]
}

/// The 32-bit number in the four bytes that start at `at`.
pub fn read_u32(data: &[u8], at: usize) -> (r: u32)
    requires
        at + 4 <= data@.len(),
    ensures
        r == le_value(data@.subrange(at as int, at + 4)),
{
    proof {
        pow256_widths();
    }
    read_le(data, at, 4) as u32
}

/// The 64-bit number in the eight bytes that start at `at`.
pub fn read_u64(data: &[u8], at: usize) -> (r: u64)
    requires
        at + 8 <= data@.len(),
    ensures
        r == le_value(data@.subrange(at as int, at + 8)),
{
    proof {
        pow256_widths();
    }
    read_le(data, at, 8) as u64
}

/// The signed 64-bit number in the eight bytes that start at `at`.
pub fn read_i64(data: &[u8], at: usize) -> (r: i64)
    requires
        at + 8 <= data@.len(),
    ensures
        r == le_signed(data@.subrange(at as int, at + 8)),
{
    let raw = read_u64(data, at);
    if raw < 0x8000_0000_0000_0000 {
        raw as i64
    } else {
        let low = (raw - 0x8000_0000_0000_0000) as i64;
        low + i64::MIN
    }
}

/// The 128-bit number in the sixteen bytes that start at `at`.
pub fn read_u128(data: &[u8], at: usize) -> (r: u128)
    requires
        at + 16 <= data@.len(),
    ensures
        r == le_value(data@.subrange(at as int, at + 16)),
{
    read_le(data, at, 16)
}

/// The identity in the thirty-two bytes that start at `at`.
pub fn read_pubkey(data: &[u8], at: usize) -> (key: Pubkey)
    requires
        at + 32 <= data@.len(),
    ensures
        key@ == data@.subrange(at as int, at + 32),
{
    let total = data.len();
    let mut bytes: [u8; 32] = [0u8; 32];
    let mut i: usize = 0;
    while i < 32
        invariant
            i <= 32,
            at + 32 <= data@.len() == total,
            forall|j: int| 0 <= j < i ==> bytes@[j] == data@[at + j],
        decreases 32 - i,
    {
        bytes[i] = data[at + i];
        i += 1;
    }
    assert(bytes@ =~= data@.subrange(at as int, at + 32));
    Pubkey { bytes }
}

} // verus!
