//! Constant-behavior byte primitives: zeroing, filling, full-scan equality
//! and full-scan lexicographic comparison, plus the locking primitives'
//! portable contract. The scans visit every byte and test their accumulator
//! only after the last one, so control flow never depends on where two
//! buffers first differ.

use vstd::prelude::*;

verus! {

/// Overwrite `buf[offset .. offset + len]` with `value`, leaving every byte
/// outside that window unchanged.
pub fn memset(buf: &mut Vec<u8>, value: u8, offset: usize, len: usize)
    requires
        offset + len <= old(buf)@.len(),
    ensures
        final(buf)@.len() == old(buf)@.len(),
        forall|j: int| offset <= j < offset + len ==> final(buf)@[j] == value,
        forall|j: int|
            0 <= j < old(buf)@.len() && !(offset <= j < offset + len)
                ==> final(buf)@[j] == old(buf)@[j],
{
    let n = buf.len();
    let mut i: usize = 0;
    while i < len
        invariant
            i <= len,
            offset + len <= n,
            buf@.len() == n,
            buf@.len() == old(buf)@.len(),
            forall|j: int| offset <= j < offset + i ==> buf@[j] == value,
            forall|j: int|
                0 <= j < old(buf)@.len() && !(offset <= j < offset + i)
                    ==> buf@[j] == old(buf)@[j],
        decreases len - i,
    {
        buf.set(offset + i, value);
        i = i + 1;
    }
}

/// Overwrite `buf[offset .. offset + len]` with zero bytes. The verified
/// model writes through ordinary stores; the process-memory shim must use
/// stores the compiler cannot elide.
pub fn memzero(buf: &mut Vec<u8>, offset: usize, len: usize)
    requires
        offset + len <= old(buf)@.len(),
    ensures
        final(buf)@.len() == old(buf)@.len(),
        forall|j: int| offset <= j < offset + len ==> final(buf)@[j] == 0,
        forall|j: int|
            0 <= j < old(buf)@.len() && !(offset <= j < offset + len)
                ==> final(buf)@[j] == old(buf)@[j],
{
    memset(buf, 0, offset, len);
}

/// True exactly when the first `len` bytes of the two buffers agree. Every
/// byte is visited; the folded accumulator is examined once, after the scan.
pub fn memeq(a: &[u8], b: &[u8], len: usize) -> (r: bool)
    requires
        len <= a@.len(),
        len <= b@.len(),
    ensures
        r <==> a@.subrange(0, len as int) == b@.subrange(0, len as int),
{
    let mut acc: u8 = 0;
    let mut i: usize = 0;
    while i < len
        invariant
            i <= len,
            len <= a@.len(),
            len <= b@.len(),
            acc == 0 <==> (forall|j: int| 0 <= j < i ==> a@[j] == b@[j]),
        decreases len - i,
    {
        let x = a[i];
        let y = b[i];
        proof {
            assert((acc | (x ^ y)) == 0 <==> acc == 0 && x == y) by (bit_vector);
        }
        acc = acc | (x ^ y);
        i = i + 1;
    }
    if acc == 0 {
        proof {
            assert(a@.subrange(0, len as int) =~= b@.subrange(0, len as int));
        }
        true
    } else {
        proof {
            let j = choose|j: int| 0 <= j < len && a@[j] != b@[j];
            assert(a@.subrange(0, len as int)[j] != b@.subrange(0, len as int)[j]);
        }
        false
    }
}

/// The sign of the lexicographic, unsigned-byte comparison of two
/// equal-length byte sequences: -1, 0 or 1.
pub open spec fn cmp_sign(a: Seq<u8>, b: Seq<u8>) -> int
    recommends
        a.len() == b.len(),
    decreases a.len(),
{
    if a.len() == 0 {
        0
    } else if a[0] != b[0] {
        if a[0] < b[0] {
            -1
        } else {
            1
        }
    } else {
        cmp_sign(a.skip(1), b.skip(1))
    }
}

/// The comparison only ever takes the values -1, 0 and 1.
pub proof fn lemma_cmp_sign_range(a: Seq<u8>, b: Seq<u8>)
    ensures
        -1 <= cmp_sign(a, b) <= 1,
    decreases a.len(),
{
    if a.len() != 0 && a[0] == b[0] {
        lemma_cmp_sign_range(a.skip(1), b.skip(1));
    }
}

/// Swapping the operands flips the sign of the comparison.
pub proof fn lemma_cmp_sign_antisym(a: Seq<u8>, b: Seq<u8>)
    requires
        a.len() == b.len(),
    ensures
        cmp_sign(a, b) == -cmp_sign(b, a),
    decreases a.len(),
{
    if a.len() != 0 && a[0] == b[0] {
        lemma_cmp_sign_antisym(a.skip(1), b.skip(1));
    }
}

/// The comparison is zero exactly on equal sequences.
pub proof fn lemma_cmp_sign_zero_iff_eq(a: Seq<u8>, b: Seq<u8>)
    requires
        a.len() == b.len(),
    ensures
        cmp_sign(a, b) == 0 <==> a == b,
    decreases a.len(),
{
    if a.len() == 0 {
        assert(a =~= b);
    } else if a[0] == b[0] {
        lemma_cmp_sign_zero_iff_eq(a.skip(1), b.skip(1));
        if cmp_sign(a, b) == 0 {
            assert forall|j: int| 0 <= j < a.len() implies a[j] == b[j] by {
                if j > 0 {
                    assert(a[j] == a.skip(1)[j - 1]);
                    assert(b[j] == b.skip(1)[j - 1]);
                }
            }
            assert(a =~= b);
        } else {
            if a == b {
                assert(a.skip(1) == b.skip(1));
            }
        }
    } else {
        assert(a[0] != b[0]);
    }
}

/// Lexicographic byte comparison over the first `len` bytes of each buffer,
/// returning -1, 0 or 1. The scan visits every byte; a per-byte mask folds
/// the first difference into the accumulator without an early exit, and the
/// accumulator is decoded only after the last byte.
pub fn memcmp(a: &[u8], b: &[u8], len: usize) -> (r: i32)
    requires
        len <= a@.len(),
        len <= b@.len(),
    ensures
        r as int == cmp_sign(a@.subrange(0, len as int), b@.subrange(0, len as int)),
        -1 <= r <= 1,
{
    let mut res: u32 = 0;
    let mut i: usize = len;
    while i > 0
        invariant
            i <= len,
            len <= a@.len(),
            len <= b@.len(),
            ({
                let s = cmp_sign(
                    a@.subrange(i as int, len as int),
                    b@.subrange(i as int, len as int),
                );
                &&& (res == 0 <==> s == 0)
                &&& (s == -1 ==> 1 <= res <= 255)
                &&& (s == 1 ==> 257 <= res <= 511)
            }),
        decreases i,
    {
        i = i - 1;
        let x = a[i] as u32;
        let y = b[i] as u32;
        let diff = x ^ y;
        proof {
            assert(x < 256 && y < 256 ==> (x ^ y) < 256 && (((x ^ y) == 0) <==> (x == y)))
                by (bit_vector);
            assert(diff == 0 ==> (((diff + 255) as u32) >> 8u32) == 0) by (bit_vector)
                requires diff < 256u32,
            ;
            assert(diff != 0 ==> (((diff + 255) as u32) >> 8u32) == 1) by (bit_vector)
                requires diff < 256u32,
            ;
        }
        let neq = (diff + 255) >> 8;
        let sel = neq * 0xffff_ffff;
        let cur = 256 + x - y;
        proof {
            assert(sel == 0 ==> ((res & !sel) | (cur & sel)) == res) by (bit_vector);
            assert(sel == 0xffff_ffffu32 ==> ((res & !sel) | (cur & sel)) == cur)
                by (bit_vector);
        }
        res = (res & !sel) | (cur & sel);
        proof {
            let sa = a@.subrange(i as int, len as int);
            let sb = b@.subrange(i as int, len as int);
            assert(sa[0] == a@[i as int] && sb[0] == b@[i as int]);
            assert(sa.skip(1) =~= a@.subrange(i + 1, len as int));
            assert(sb.skip(1) =~= b@.subrange(i + 1, len as int));
        }
    }
    proof {
        assert(a@.subrange(0, len as int) == a@.subrange(i as int, len as int));
        assert(b@.subrange(0, len as int) == b@.subrange(i as int, len as int));
        lemma_cmp_sign_range(a@.subrange(0, len as int), b@.subrange(0, len as int));
    }
    if res == 0 {
        0
    } else if res > 256 {
        1
    } else {
        -1
    }
}

/// Portable contract of the residency-locking primitive: requesting a lock
/// changes no byte; `os_ok`, the platform's answer, is passed through.
pub fn mlock(region: &mut Vec<u8>, os_ok: bool) -> (r: bool)
    ensures
        final(region)@ == old(region)@,
        r == os_ok,
{
    os_ok
}

/// Portable contract of the unlock primitive: the region is zeroed before
/// the lock is released, whatever the platform answered — unlocking
/// sensitive memory never leaves it populated.
pub fn munlock(region: &mut Vec<u8>, os_ok: bool) -> (r: bool)
    ensures
        final(region)@.len() == old(region)@.len(),
        forall|j: int| 0 <= j < final(region)@.len() ==> final(region)@[j] == 0,
        r == os_ok,
{
    let n = region.len();
    memzero(region, 0, n);
    os_ok
}

} // verus!
