//! Little-endian wire primitives.
//!
//! Every field of the protocol is a fixed-width little-endian integer
//! (floating-point fields travel as their raw IEEE-754 bit patterns, held
//! here in unsigned integers of the same width).  Each width has a spec-level
//! encoding into a byte sequence, an exec reader that consumes bytes at a
//! cursor, and an exec writer that appends bytes to a buffer.  The reader
//! and writer contracts are both phrased through the spec encoding, so a
//! decoded value is exactly the value whose encoding occupies the bytes it
//! was read from.

use vstd::prelude::*;

verus! {

/// Encoding of a byte: itself.
pub open spec fn le8(v: u8) -> Seq<u8> {
    seq![v]
}

/// Little-endian encoding of a 16-bit value.
pub open spec fn le16(v: u16) -> Seq<u8> {
    seq![(v & 0xff) as u8, ((v >> 8) & 0xff) as u8]
}

/// Little-endian encoding of a 32-bit value.
pub open spec fn le32(v: u32) -> Seq<u8> {
    seq![
        (v & 0xff) as u8,
        ((v >> 8) & 0xff) as u8,
        ((v >> 16) & 0xff) as u8,
        ((v >> 24) & 0xff) as u8,
    ]
}

/// Little-endian encoding of a 64-bit value.
pub open spec fn le64(v: u64) -> Seq<u8> {
    seq![
        (v & 0xff) as u8,
        ((v >> 8) & 0xff) as u8,
        ((v >> 16) & 0xff) as u8,
        ((v >> 24) & 0xff) as u8,
        ((v >> 32) & 0xff) as u8,
        ((v >> 40) & 0xff) as u8,
        ((v >> 48) & 0xff) as u8,
        ((v >> 56) & 0xff) as u8,
    ]
}

/// Encoding of a signed byte: its two's-complement bit pattern.
pub open spec fn le_i8(v: i8) -> Seq<u8> {
    seq![v as u8]
}

/// Little-endian encoding of a signed 16-bit value.
pub open spec fn le_i16(v: i16) -> Seq<u8> {
    le16(v as u16)
}

/// Adjacent subranges concatenate to the enclosing subrange.
pub proof fn lemma_subrange_adjacent(s: Seq<u8>, a: int, b: int, c: int)
    requires
        0 <= a <= b <= c <= s.len(),
    ensures
        s.subrange(a, b) + s.subrange(b, c) == s.subrange(a, c),
{
    assert(s.subrange(a, b) + s.subrange(b, c) =~= s.subrange(a, c));
}

/// Equal concatenations with equally long first parts have equal parts.
pub proof fn lemma_concat_split(a1: Seq<u8>, b1: Seq<u8>, a2: Seq<u8>, b2: Seq<u8>)
    requires
        a1 + b1 == a2 + b2,
        a1.len() == a2.len(),
    ensures
        a1 == a2,
        b1 == b2,
{
    broadcast use vstd::seq_lib::group_seq_properties;

    assert((a1 + b1).len() == (a2 + b2).len());
    assert forall|i: int| 0 <= i < a1.len() implies a1[i] == a2[i] by {
        assert(a1[i] == (a1 + b1)[i]);
        assert(a2[i] == (a2 + b2)[i]);
    }
    assert(a1 =~= a2);
    assert((a1 + b1).skip(a1.len() as int) == b1);
    assert((a2 + b2).skip(a2.len() as int) == b2);
}

/// Reads one byte and advances the cursor.
pub fn read_u8(buf: &[u8], pos: &mut usize) -> (r: u8)
    requires
        *old(pos) + 1 <= buf@.len(),
    ensures
        *final(pos) == *old(pos) + 1,
        le8(r) == buf@.subrange(*old(pos) as int, *final(pos) as int),
{
    let p = *pos;
    let r = buf[p];
    proof {
        assert(le8(r) =~= buf@.subrange(p as int, p as int + 1));
    }
    *pos = p + 1;
    r
}

/// Reads a little-endian 16-bit value and advances the cursor.
pub fn read_u16(buf: &[u8], pos: &mut usize) -> (r: u16)
    requires
        *old(pos) + 2 <= buf@.len(),
    ensures
        *final(pos) == *old(pos) + 2,
        le16(r) == buf@.subrange(*old(pos) as int, *final(pos) as int),
{
    let p = *pos;
    let b0 = buf[p];
    let b1 = buf[p + 1];
    let r = (b0 as u16) | ((b1 as u16) << 8);
    proof {
        assert((r & 0xff) as u8 == b0 && ((r >> 8) & 0xff) as u8 == b1) by (bit_vector)
            requires
                r == (b0 as u16) | ((b1 as u16) << 8),
        ;
        assert(le16(r) =~= buf@.subrange(p as int, p as int + 2));
    }
    *pos = p + 2;
    r
}

/// Reads a little-endian 32-bit value and advances the cursor.
pub fn read_u32(buf: &[u8], pos: &mut usize) -> (r: u32)
    requires
        *old(pos) + 4 <= buf@.len(),
    ensures
        *final(pos) == *old(pos) + 4,
        le32(r) == buf@.subrange(*old(pos) as int, *final(pos) as int),
{
    let p = *pos;
    let b0 = buf[p];
    let b1 = buf[p + 1];
    let b2 = buf[p + 2];
    let b3 = buf[p + 3];
    let r = (b0 as u32) | ((b1 as u32) << 8) | ((b2 as u32) << 16) | ((b3 as u32) << 24);
    proof {
        assert((r & 0xff) as u8 == b0 && ((r >> 8) & 0xff) as u8 == b1
            && ((r >> 16) & 0xff) as u8 == b2 && ((r >> 24) & 0xff) as u8 == b3) by (bit_vector)
            requires
                r == (b0 as u32) | ((b1 as u32) << 8) | ((b2 as u32) << 16) | ((b3 as u32) << 24),
        ;
        assert(le32(r) =~= buf@.subrange(p as int, p as int + 4));
    }
    *pos = p + 4;
    r
}

/// Reads a little-endian 64-bit value and advances the cursor.
pub fn read_u64(buf: &[u8], pos: &mut usize) -> (r: u64)
    requires
        *old(pos) + 8 <= buf@.len(),
    ensures
        *final(pos) == *old(pos) + 8,
        le64(r) == buf@.subrange(*old(pos) as int, *final(pos) as int),
{
    let p = *pos;
    let b0 = buf[p];
    let b1 = buf[p + 1];
    let b2 = buf[p + 2];
    let b3 = buf[p + 3];
    let b4 = buf[p + 4];
    let b5 = buf[p + 5];
    let b6 = buf[p + 6];
    let b7 = buf[p + 7];
    let r = (b0 as u64) | ((b1 as u64) << 8) | ((b2 as u64) << 16) | ((b3 as u64) << 24)
        | ((b4 as u64) << 32) | ((b5 as u64) << 40) | ((b6 as u64) << 48) | ((b7 as u64) << 56);
    proof {
        assert((r & 0xff) as u8 == b0 && ((r >> 8) & 0xff) as u8 == b1
            && ((r >> 16) & 0xff) as u8 == b2 && ((r >> 24) & 0xff) as u8 == b3
            && ((r >> 32) & 0xff) as u8 == b4 && ((r >> 40) & 0xff) as u8 == b5
            && ((r >> 48) & 0xff) as u8 == b6 && ((r >> 56) & 0xff) as u8 == b7) by (bit_vector)
            requires
                r == (b0 as u64) | ((b1 as u64) << 8) | ((b2 as u64) << 16) | ((b3 as u64) << 24)
                    | ((b4 as u64) << 32) | ((b5 as u64) << 40) | ((b6 as u64) << 48)
                    | ((b7 as u64) << 56),
        ;
        assert(le64(r) =~= buf@.subrange(p as int, p as int + 8));
    }
    *pos = p + 8;
    r
}

/// Reads a signed byte and advances the cursor.
pub fn read_i8(buf: &[u8], pos: &mut usize) -> (r: i8)
    requires
        *old(pos) + 1 <= buf@.len(),
    ensures
        *final(pos) == *old(pos) + 1,
        le_i8(r) == buf@.subrange(*old(pos) as int, *final(pos) as int),
{
    let p = *pos;
    let b = buf[p];
    let r = b as i8;
    proof {
        assert(r as u8 == b) by (bit_vector)
            requires
                r == b as i8,
        ;
        assert(le_i8(r) =~= buf@.subrange(p as int, p as int + 1));
    }
    *pos = p + 1;
    r
}

/// Reads a little-endian signed 16-bit value and advances the cursor.
pub fn read_i16(buf: &[u8], pos: &mut usize) -> (r: i16)
    requires
        *old(pos) + 2 <= buf@.len(),
    ensures
        *final(pos) == *old(pos) + 2,
        le_i16(r) == buf@.subrange(*old(pos) as int, *final(pos) as int),
{
    let p = *pos;
    let b0 = buf[p];
    let b1 = buf[p + 1];
    let u = (b0 as u16) | ((b1 as u16) << 8);
    let r = u as i16;
    proof {
        assert(r as u16 == u) by (bit_vector)
            requires
                r == u as i16,
        ;
        assert((u & 0xff) as u8 == b0 && ((u >> 8) & 0xff) as u8 == b1) by (bit_vector)
            requires
                u == (b0 as u16) | ((b1 as u16) << 8),
        ;
        assert(le_i16(r) =~= buf@.subrange(p as int, p as int + 2));
    }
    *pos = p + 2;
    r
}

/// Appends one byte.
pub fn write_u8(out: &mut Vec<u8>, v: u8)
    ensures
        final(out)@ == old(out)@ + le8(v),
{
    out.push(v);
    proof {
        assert(out@ =~= old(out)@ + le8(v));
    }
}

/// Appends a 16-bit value in little-endian order.
pub fn write_u16(out: &mut Vec<u8>, v: u16)
    ensures
        final(out)@ == old(out)@ + le16(v),
{
    out.push((v & 0xff) as u8);
    out.push(((v >> 8) & 0xff) as u8);
    proof {
        assert(out@ =~= old(out)@ + le16(v));
    }
}

/// Appends a 32-bit value in little-endian order.
pub fn write_u32(out: &mut Vec<u8>, v: u32)
    ensures
        final(out)@ == old(out)@ + le32(v),
{
    out.push((v & 0xff) as u8);
    out.push(((v >> 8) & 0xff) as u8);
    out.push(((v >> 16) & 0xff) as u8);
    out.push(((v >> 24) & 0xff) as u8);
    proof {
        assert(out@ =~= old(out)@ + le32(v));
    }
}

/// Appends a 64-bit value in little-endian order.
pub fn write_u64(out: &mut Vec<u8>, v: u64)
    ensures
        final(out)@ == old(out)@ + le64(v),
{
    out.push((v & 0xff) as u8);
    out.push(((v >> 8) & 0xff) as u8);
    out.push(((v >> 16) & 0xff) as u8);
    out.push(((v >> 24) & 0xff) as u8);
    out.push(((v >> 32) & 0xff) as u8);
    out.push(((v >> 40) & 0xff) as u8);
    out.push(((v >> 48) & 0xff) as u8);
    out.push(((v >> 56) & 0xff) as u8);
    proof {
        assert(out@ =~= old(out)@ + le64(v));
    }
}

/// Appends a signed byte as its bit pattern.
pub fn write_i8(out: &mut Vec<u8>, v: i8)
    ensures
        final(out)@ == old(out)@ + le_i8(v),
{
    out.push(v as u8);
    proof {
        assert(out@ =~= old(out)@ + le_i8(v));
    }
}

/// Appends a signed 16-bit value in little-endian order.
pub fn write_i16(out: &mut Vec<u8>, v: i16)
    ensures
        final(out)@ == old(out)@ + le_i16(v),
{
    let u = v as u16;
    out.push((u & 0xff) as u8);
    out.push(((u >> 8) & 0xff) as u8);
    proof {
        assert(out@ =~= old(out)@ + le_i16(v));
    }
}

/// An 8-bit encoding determines its value.
pub proof fn lemma_le8_injective(a: u8, b: u8)
    requires
        le8(a) == le8(b),
    ensures
        a == b,
{
    assert(le8(a)[0] == a);
    assert(le8(b)[0] == b);
}

/// A 16-bit encoding determines its value.
pub proof fn lemma_le16_injective(a: u16, b: u16)
    requires
        le16(a) == le16(b),
    ensures
        a == b,
{
    let x0 = le16(a)[0];
    let x1 = le16(a)[1];
    assert(x0 == le16(b)[0] && x1 == le16(b)[1]);
    assert(((a & 0xff) as u8 == (b & 0xff) as u8 && ((a >> 8) & 0xff) as u8 == ((b >> 8)
        & 0xff) as u8) ==> a == b) by (bit_vector);
}

/// A 32-bit encoding determines its value.
pub proof fn lemma_le32_injective(a: u32, b: u32)
    requires
        le32(a) == le32(b),
    ensures
        a == b,
{
    assert(le32(a)[0] == le32(b)[0] && le32(a)[1] == le32(b)[1] && le32(a)[2] == le32(b)[2]
        && le32(a)[3] == le32(b)[3]);
    assert(((a & 0xff) as u8 == (b & 0xff) as u8 && ((a >> 8) & 0xff) as u8 == ((b >> 8)
        & 0xff) as u8 && ((a >> 16) & 0xff) as u8 == ((b >> 16) & 0xff) as u8 && ((a >> 24)
        & 0xff) as u8 == ((b >> 24) & 0xff) as u8) ==> a == b) by (bit_vector);
}

/// A 64-bit encoding determines its value.
pub proof fn lemma_le64_injective(a: u64, b: u64)
    requires
        le64(a) == le64(b),
    ensures
        a == b,
{
    assert(le64(a)[0] == le64(b)[0] && le64(a)[1] == le64(b)[1] && le64(a)[2] == le64(b)[2]
        && le64(a)[3] == le64(b)[3] && le64(a)[4] == le64(b)[4] && le64(a)[5] == le64(b)[5]
        && le64(a)[6] == le64(b)[6] && le64(a)[7] == le64(b)[7]);
    assert(((a & 0xff) as u8 == (b & 0xff) as u8 && ((a >> 8) & 0xff) as u8 == ((b >> 8)
        & 0xff) as u8 && ((a >> 16) & 0xff) as u8 == ((b >> 16) & 0xff) as u8 && ((a >> 24)
        & 0xff) as u8 == ((b >> 24) & 0xff) as u8 && ((a >> 32) & 0xff) as u8 == ((b >> 32)
        & 0xff) as u8 && ((a >> 40) & 0xff) as u8 == ((b >> 40) & 0xff) as u8 && ((a >> 48)
        & 0xff) as u8 == ((b >> 48) & 0xff) as u8 && ((a >> 56) & 0xff) as u8 == ((b >> 56)
        & 0xff) as u8) ==> a == b) by (bit_vector);
}

/// A signed 8-bit encoding determines its value.
pub proof fn lemma_le_i8_injective(a: i8, b: i8)
    requires
        le_i8(a) == le_i8(b),
    ensures
        a == b,
{
    assert(le_i8(a)[0] == a as u8);
    assert(le_i8(b)[0] == b as u8);
    assert(a as u8 == b as u8 ==> a == b) by (bit_vector);
}

/// Encoding of a sequence of records: each element's encoding in order.
pub open spec fn enc_each<T>(a: Seq<T>, f: spec_fn(T) -> Seq<u8>) -> Seq<u8>
    decreases a.len(),
{
    if a.len() == 0 {
        Seq::empty()
    } else {
        f(a[0]) + enc_each(a.drop_first(), f)
    }
}

/// Appending a record appends its encoding.
pub proof fn lemma_enc_each_push<T>(a: Seq<T>, f: spec_fn(T) -> Seq<u8>, x: T)
    ensures
        enc_each(a.push(x), f) == enc_each(a, f) + f(x),
    decreases a.len(),
{
    if a.len() == 0 {
        assert(a.push(x)[0] == x);
        assert(a.push(x).drop_first().len() == 0);
        assert(enc_each(a.push(x).drop_first(), f) == Seq::<u8>::empty());
        assert(enc_each(a.push(x), f) == f(x) + Seq::<u8>::empty());
        assert(f(x) + Seq::<u8>::empty() =~= f(x));
        assert(enc_each(a, f) + f(x) =~= f(x));
    } else {
        assert(a.push(x).drop_first() =~= a.drop_first().push(x));
        lemma_enc_each_push(a.drop_first(), f, x);
        assert(enc_each(a.push(x), f) == f(a[0]) + (enc_each(a.drop_first(), f) + f(x)));
        assert(f(a[0]) + (enc_each(a.drop_first(), f) + f(x)) =~= (f(a[0]) + enc_each(
            a.drop_first(),
            f,
        )) + f(x));
    }
}

/// A sequence of fixed-width records encodes to a fixed total width.
pub proof fn lemma_enc_each_len<T>(a: Seq<T>, f: spec_fn(T) -> Seq<u8>, n: nat)
    requires
        forall|x: T| (#[trigger] f(x)).len() == n,
    ensures
        enc_each(a, f).len() == a.len() * n,
    decreases a.len(),
{
    if a.len() == 0 {
    } else {
        lemma_enc_each_len(a.drop_first(), f, n);
        assert(n + (a.len() - 1) * n == a.len() * n) by (nonlinear_arith);
    }
}

/// An element-wise injective fixed-width encoding of a sequence determines
/// the sequence, given its length.
pub proof fn lemma_enc_each_injective<T>(a: Seq<T>, b: Seq<T>, f: spec_fn(T) -> Seq<u8>, n: nat)
    requires
        enc_each(a, f) == enc_each(b, f),
        a.len() == b.len(),
        forall|x: T| (#[trigger] f(x)).len() == n,
        forall|x: T, y: T| #[trigger] f(x) == #[trigger] f(y) ==> x == y,
    ensures
        a =~= b,
    decreases a.len(),
{
    if a.len() > 0 {
        lemma_concat_split(
            f(a[0]),
            enc_each(a.drop_first(), f),
            f(b[0]),
            enc_each(b.drop_first(), f),
        );
        assert(a[0] == b[0]);
        lemma_enc_each_injective(a.drop_first(), b.drop_first(), f, n);
        assert(forall|i: int|
            1 <= i < a.len() ==> a[i] == a.drop_first()[i - 1] && b[i] == b.drop_first()[i - 1]);
    }
}

/// Encoding of a four-element array of 16-bit values.
pub open spec fn le16x4(a: [u16; 4]) -> Seq<u8> {
    le16(a@[0]) + le16(a@[1]) + le16(a@[2]) + le16(a@[3])
}

/// Encoding of a four-element array of 32-bit values.
pub open spec fn le32x4(a: [u32; 4]) -> Seq<u8> {
    le32(a@[0]) + le32(a@[1]) + le32(a@[2]) + le32(a@[3])
}

/// Reads four little-endian 16-bit values and advances the cursor.
pub fn read_u16x4(buf: &[u8], pos: &mut usize) -> (r: [u16; 4])
    requires
        *old(pos) + 8 <= buf@.len(),
    ensures
        *final(pos) == *old(pos) + 8,
        le16x4(r) == buf@.subrange(*old(pos) as int, *final(pos) as int),
{
    let ghost p0 = *pos;
    let v0 = read_u16(buf, pos);
    let v1 = read_u16(buf, pos);
    let v2 = read_u16(buf, pos);
    let v3 = read_u16(buf, pos);
    let mut r = [0u16; 4];
    r[0] = v0;
    r[1] = v1;
    r[2] = v2;
    r[3] = v3;
    proof {
        assert(r@[0] == v0 && r@[1] == v1 && r@[2] == v2 && r@[3] == v3);
        assert(le16x4(r) =~= buf@.subrange(p0 as int, p0 as int + 8));
    }
    r
}

/// Reads four little-endian 32-bit values and advances the cursor.
pub fn read_u32x4(buf: &[u8], pos: &mut usize) -> (r: [u32; 4])
    requires
        *old(pos) + 16 <= buf@.len(),
    ensures
        *final(pos) == *old(pos) + 16,
        le32x4(r) == buf@.subrange(*old(pos) as int, *final(pos) as int),
{
    let ghost p0 = *pos;
    let v0 = read_u32(buf, pos);
    let v1 = read_u32(buf, pos);
    let v2 = read_u32(buf, pos);
    let v3 = read_u32(buf, pos);
    let mut r = [0u32; 4];
    r[0] = v0;
    r[1] = v1;
    r[2] = v2;
    r[3] = v3;
    proof {
        assert(r@[0] == v0 && r@[1] == v1 && r@[2] == v2 && r@[3] == v3);
        assert(le32x4(r) =~= buf@.subrange(p0 as int, p0 as int + 16));
    }
    r
}

/// Appends four 16-bit values in little-endian order.
pub fn write_u16x4(out: &mut Vec<u8>, v: &[u16; 4])
    ensures
        final(out)@ == old(out)@ + le16x4(*v),
{
    write_u16(out, v[0]);
    write_u16(out, v[1]);
    write_u16(out, v[2]);
    write_u16(out, v[3]);
    proof {
        assert(out@ =~= old(out)@ + le16x4(*v));
    }
}

/// Appends four 32-bit values in little-endian order.
pub fn write_u32x4(out: &mut Vec<u8>, v: &[u32; 4])
    ensures
        final(out)@ == old(out)@ + le32x4(*v),
{
    write_u32(out, v[0]);
    write_u32(out, v[1]);
    write_u32(out, v[2]);
    write_u32(out, v[3]);
    proof {
        assert(out@ =~= old(out)@ + le32x4(*v));
    }
}

/// A 16-bit quad encoding determines its values.
pub proof fn lemma_le16x4_injective(a: [u16; 4], b: [u16; 4])
    requires
        le16x4(a) == le16x4(b),
    ensures
        a == b,
{
    lemma_concat_split(le16(a@[0]) + le16(a@[1]) + le16(a@[2]), le16(a@[3]),
        le16(b@[0]) + le16(b@[1]) + le16(b@[2]), le16(b@[3]));
    lemma_concat_split(le16(a@[0]) + le16(a@[1]), le16(a@[2]),
        le16(b@[0]) + le16(b@[1]), le16(b@[2]));
    lemma_concat_split(le16(a@[0]), le16(a@[1]), le16(b@[0]), le16(b@[1]));
    lemma_le16_injective(a@[0], b@[0]);
    lemma_le16_injective(a@[1], b@[1]);
    lemma_le16_injective(a@[2], b@[2]);
    lemma_le16_injective(a@[3], b@[3]);
    assert(a =~= b);
}

/// A 32-bit quad encoding determines its values.
pub proof fn lemma_le32x4_injective(a: [u32; 4], b: [u32; 4])
    requires
        le32x4(a) == le32x4(b),
    ensures
        a == b,
{
    lemma_concat_split(le32(a@[0]) + le32(a@[1]) + le32(a@[2]), le32(a@[3]),
        le32(b@[0]) + le32(b@[1]) + le32(b@[2]), le32(b@[3]));
    lemma_concat_split(le32(a@[0]) + le32(a@[1]), le32(a@[2]),
        le32(b@[0]) + le32(b@[1]), le32(b@[2]));
    lemma_concat_split(le32(a@[0]), le32(a@[1]), le32(b@[0]), le32(b@[1]));
    lemma_le32_injective(a@[0], b@[0]);
    lemma_le32_injective(a@[1], b@[1]);
    lemma_le32_injective(a@[2], b@[2]);
    lemma_le32_injective(a@[3], b@[3]);
    assert(a =~= b);
}

/// Equal views make equal byte arrays.
pub proof fn lemma_bytes_injective<const N: usize>(a: [u8; N], b: [u8; N])
    requires
        a@ == b@,
    ensures
        a == b,
{
    assert(a =~= b);
}

/// Reads a fixed run of raw bytes and advances the cursor.
pub fn read_bytes<const N: usize>(buf: &[u8], pos: &mut usize) -> (r: [u8; N])
    requires
        *old(pos) + N <= buf@.len(),
    ensures
        *final(pos) == *old(pos) + N,
        r@ == buf@.subrange(*old(pos) as int, *final(pos) as int),
{
    let n = buf.len();
    let start = *pos;
    let mut r: [u8; N] = [0u8; N];
    for i in 0..N
        invariant
            start + N <= n == buf@.len(),
            r@.len() == N,
            forall|j: int| 0 <= j < i ==> r@[j] == buf@[start + j],
    {
        r[i] = buf[start + i];
    }
    proof {
        assert(r@ =~= buf@.subrange(start as int, start as int + N as int));
    }
    *pos = start + N;
    r
}

/// Appends a fixed run of raw bytes.
pub fn write_bytes<const N: usize>(out: &mut Vec<u8>, v: &[u8; N])
    ensures
        final(out)@ == old(out)@ + v@,
{
    for i in 0..N
        invariant
            out@.len() == old(out)@.len() + i,
            forall|j: int| 0 <= j < old(out)@.len() ==> out@[j] == old(out)@[j],
            forall|j: int| 0 <= j < i ==> out@[old(out)@.len() + j] == v@[j],
    {
        out.push(v[i]);
    }
    proof {
        assert(out@ =~= old(out)@ + v@);
    }
}

/// A signed 16-bit encoding determines its value.
pub proof fn lemma_le_i16_injective(a: i16, b: i16)
    requires
        le_i16(a) == le_i16(b),
    ensures
        a == b,
{
    lemma_le16_injective(a as u16, b as u16);
    assert(a as u16 == b as u16 ==> a == b) by (bit_vector);
}

} // verus!
