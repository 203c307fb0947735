//! Fixed-offset reads and writes on byte buffers: flags, little-endian
//! integers and 32-byte keys.

use vstd::prelude::*;

verus! {

/// Length of a key: a commitment, a secret or an address.
pub const KEY_LEN: usize = 32;

/// The number that four bytes spell, least significant byte first.
pub open spec fn le_u32(b: Seq<u8>) -> u32
    recommends
        b.len() == 4,
{
    (b[0] + 256 * b[1] + 65536 * b[2] + 16777216 * b[3]) as u32
}

/// The four bytes that spell `x`, least significant byte first.
pub open spec fn u32_le(x: u32) -> Seq<u8> {
    seq![
        (x % 256) as u8,
        ((x / 256) % 256) as u8,
        ((x / 65536) % 256) as u8,
        (x / 16777216) as u8,
    ]
}

/// `buf` with the bytes from `at` on replaced by `part`.
pub open spec fn splice(buf: Seq<u8>, at: int, part: Seq<u8>) -> Seq<u8>
    recommends
        0 <= at,
        at + part.len() <= buf.len(),
{
    Seq::new(
        buf.len(),
        |i: int|
            if at <= i < at + part.len() {
                part[i - at]
            } else {
                buf[i]
            },
    )
}

/// The byte that stores a flag.
pub open spec fn flag_byte(flag: bool) -> u8 {
    if flag {
        1
    } else {
        0
    }
}

/// Reading back the bytes of a number gives the number.
pub proof fn lemma_u32_le_roundtrip(x: u32)
    ensures
        u32_le(x).len() == 4,
        le_u32(u32_le(x)) == x,
{
    let b = u32_le(x);
    let q1 = x / 256;
    let q2 = x / 65536;
    let q3 = x / 16777216;
    assert(x == 256 * q1 + x % 256);
    assert(q2 == q1 / 256 && q1 == 256 * q2 + q1 % 256);
    assert(q3 == q2 / 256 && q2 == 256 * q3 + q2 % 256);
    assert(q3 < 256);
    assert(b[0] == x % 256 && b[1] == q1 % 256 && b[2] == q2 % 256 && b[3] == q3);
}

/// Reads the little-endian number stored at `at`.
pub fn read_u32(src: &[u8], at: usize) -> (x: u32)
    requires
        at + 4 <= src@.len(),
    ensures
        x == le_u32(src@.subrange(at as int, at + 4)),
{
    let n: usize = src.len();
    let b0: u32 = src[at] as u32;
    let b1: u32 = src[at + 1] as u32;
    let b2: u32 = src[at + 2] as u32;
    let b3: u32 = src[at + 3] as u32;
    b0 + 256 * b1 + 65536 * b2 + 16777216 * b3
}

/// Stores `x` at `at`, least significant byte first.
pub fn write_u32(dst: &mut [u8], at: usize, x: u32)
    requires
        at + 4 <= old(dst)@.len(),
    ensures
        final(dst)@ == splice(old(dst)@, at as int, u32_le(x)),
{
    let n: usize = dst.len();
    dst[at] = (x % 256) as u8;
    dst[at + 1] = ((x / 256) % 256) as u8;
    dst[at + 2] = ((x / 65536) % 256) as u8;
    dst[at + 3] = (x / 16777216) as u8;
    assert(dst@ =~= splice(old(dst)@, at as int, u32_le(x)));
}

/// Stores a flag at `at`: 1 for true, 0 for false.
pub fn write_flag(dst: &mut [u8], at: usize, flag: bool)
    requires
        at < old(dst)@.len(),
    ensures
        final(dst)@ == old(dst)@.update(at as int, flag_byte(flag)),
{
    dst[at] = if flag {
        1
    } else {
        0
    };
}

/// Reads the key stored at `at`.
pub fn read_key(src: &[u8], at: usize) -> (key: [u8; 32])
    requires
        at + KEY_LEN <= src@.len(),
    ensures
        key@ == src@.subrange(at as int, at + KEY_LEN),
{
    let n: usize = src.len();
    let mut key: [u8; 32] = [0u8; 32];
    let mut i: usize = 0;
    while i < KEY_LEN
        invariant
            i <= KEY_LEN,
            at + KEY_LEN <= src@.len() == n,
            forall|j: int| 0 <= j < i ==> key@[j] == src@[at + j],
        decreases KEY_LEN - i,
    {
        key[i] = src[at + i];
        i += 1;
    }
    assert(key@ =~= src@.subrange(at as int, at + KEY_LEN));
    key
}

/// Stores `key` at `at`.
pub fn write_key(dst: &mut [u8], at: usize, key: &[u8; 32])
    requires
        at + KEY_LEN <= old(dst)@.len(),
    ensures
        final(dst)@ == splice(old(dst)@, at as int, key@),
{
    let n: usize = dst.len();
    let mut i: usize = 0;
    while i < KEY_LEN
        invariant
            i <= KEY_LEN,
            at + KEY_LEN <= n == dst@.len() == old(dst)@.len(),
            forall|j: int| 0 <= j < at + i ==> dst@[j] == splice(old(dst)@, at as int, key@)[j],
            forall|j: int| at + i <= j < n ==> dst@[j] == old(dst)@[j],
        decreases KEY_LEN - i,
    {
        dst[at + i] = key[i];
        i += 1;
    }
    assert(dst@ =~= splice(old(dst)@, at as int, key@));
}

/// Whether two keys hold the same bytes.
pub fn keys_equal(a: &[u8; 32], b: &[u8; 32]) -> (same: bool)
    ensures
        same == (a@ == b@),
{
    let mut i: usize = 0;
    while i < KEY_LEN
        invariant
            i <= KEY_LEN,
            forall|j: int| 0 <= j < i ==> a@[j] == b@[j],
        decreases KEY_LEN - i,
    {
        if a[i] != b[i] {
            return false;
        }
        i += 1;
    }
    assert(a@ =~= b@);
    true
}

} // verus!
