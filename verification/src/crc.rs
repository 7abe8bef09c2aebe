//! CRC-16/MODBUS checksum of RTU frames.

use vstd::prelude::*;

verus! {

/// Reflected CRC-16 polynomial used by Modbus RTU.
pub const CRC16_POLY: u16 = 0xA001;

/// One shift of the CRC register.
pub open spec fn crc_shift(crc: u16) -> u16 {
    if crc & 0x0001 != 0 {
        (crc >> 1u16) ^ 0xA001u16
    } else {
        crc >> 1u16
    }
}

/// The register after `n` shifts.
pub open spec fn crc_shifts(crc: u16, n: nat) -> u16
    decreases n,
{
    if n == 0 {
        crc
    } else {
        crc_shift(crc_shifts(crc, (n - 1) as nat))
    }
}

/// The register after feeding one byte.
pub open spec fn crc_feed(crc: u16, byte: u8) -> u16 {
    crc_shifts(crc ^ (byte as u16), 8)
}

/// The register after feeding every byte of `data`, starting from `0xFFFF`.
pub open spec fn crc_register(data: Seq<u8>) -> u16
    decreases data.len(),
{
    if data.len() == 0 {
        0xFFFFu16
    } else {
        crc_feed(crc_register(data.drop_last()), data.last())
    }
}

/// The two checksum bytes of `data`, low byte first, as they follow a frame.
pub open spec fn crc_bytes(data: Seq<u8>) -> Seq<u8> {
    let crc = crc_register(data);
    seq![(crc & 0xff) as u8, (crc >> 8u16) as u8]
}

fn shift_register(crc: u16) -> (r: u16)
    ensures
        r == crc_shift(crc),
{
    if crc & 0x0001 != 0 {
        (crc >> 1) ^ CRC16_POLY
    } else {
        crc >> 1
    }
}

/// Computes the CRC-16/MODBUS checksum of `data`, low byte first.
pub fn compute_crc(data: &[u8]) -> (r: [u8; 2])
    ensures
        r@ == crc_bytes(data@),
{
    let mut crc: u16 = 0xFFFF;
    let mut i: usize = 0;
    while i < data.len()
        invariant
            i <= data@.len(),
            crc == crc_register(data@.subrange(0, i as int)),
        decreases data@.len() - i,
    {
        let byte = data[i];
        assert(data@.subrange(0, i + 1).drop_last() =~= data@.subrange(0, i as int));
        crc = crc ^ (byte as u16);
        let mut k: usize = 0;
        let ghost start = crc;
        while k < 8
            invariant
                k <= 8,
                crc == crc_shifts(start, k as nat),
            decreases 8 - k,
        {
            crc = shift_register(crc);
            k = k + 1;
        }
        i = i + 1;
    }
    assert(data@.subrange(0, data@.len() as int) =~= data@);
    [(crc & 0xff) as u8, (crc >> 8) as u8]
}

/// Eight shifts, spelled out.
proof fn lemma_eight_shifts(c: u16)
    ensures
        crc_shifts(c, 8) == crc_shift(crc_shift(crc_shift(crc_shift(crc_shift(crc_shift(crc_shift(crc_shift(c)))))))),
{
    reveal_with_fuel(crc_shifts, 9);
}

/// Feeding the two checksum bytes of a register into that register clears it.
proof fn lemma_register_residue_bits(r: u16, x0: u16, x1: u16, x2: u16, x3: u16, x4: u16, x5: u16, x6: u16, x7: u16, x8: u16, y0: u16, y1: u16, y2: u16, y3: u16, y4: u16, y5: u16, y6: u16, y7: u16, y8: u16)
    by (bit_vector)
    requires
        x0 == r ^ (r & 0xffu16),
        x1 == (if x0 & 1u16 != 0u16 { (x0 >> 1u16) ^ 0xA001u16 } else { x0 >> 1u16 }),
        x2 == (if x1 & 1u16 != 0u16 { (x1 >> 1u16) ^ 0xA001u16 } else { x1 >> 1u16 }),
        x3 == (if x2 & 1u16 != 0u16 { (x2 >> 1u16) ^ 0xA001u16 } else { x2 >> 1u16 }),
        x4 == (if x3 & 1u16 != 0u16 { (x3 >> 1u16) ^ 0xA001u16 } else { x3 >> 1u16 }),
        x5 == (if x4 & 1u16 != 0u16 { (x4 >> 1u16) ^ 0xA001u16 } else { x4 >> 1u16 }),
        x6 == (if x5 & 1u16 != 0u16 { (x5 >> 1u16) ^ 0xA001u16 } else { x5 >> 1u16 }),
        x7 == (if x6 & 1u16 != 0u16 { (x6 >> 1u16) ^ 0xA001u16 } else { x6 >> 1u16 }),
        x8 == (if x7 & 1u16 != 0u16 { (x7 >> 1u16) ^ 0xA001u16 } else { x7 >> 1u16 }),
        y0 == x8 ^ (r >> 8u16),
        y1 == (if y0 & 1u16 != 0u16 { (y0 >> 1u16) ^ 0xA001u16 } else { y0 >> 1u16 }),
        y2 == (if y1 & 1u16 != 0u16 { (y1 >> 1u16) ^ 0xA001u16 } else { y1 >> 1u16 }),
        y3 == (if y2 & 1u16 != 0u16 { (y2 >> 1u16) ^ 0xA001u16 } else { y2 >> 1u16 }),
        y4 == (if y3 & 1u16 != 0u16 { (y3 >> 1u16) ^ 0xA001u16 } else { y3 >> 1u16 }),
        y5 == (if y4 & 1u16 != 0u16 { (y4 >> 1u16) ^ 0xA001u16 } else { y4 >> 1u16 }),
        y6 == (if y5 & 1u16 != 0u16 { (y5 >> 1u16) ^ 0xA001u16 } else { y5 >> 1u16 }),
        y7 == (if y6 & 1u16 != 0u16 { (y6 >> 1u16) ^ 0xA001u16 } else { y6 >> 1u16 }),
        y8 == (if y7 & 1u16 != 0u16 { (y7 >> 1u16) ^ 0xA001u16 } else { y7 >> 1u16 }),
    ensures
        y8 == 0u16,
{
}

proof fn lemma_register_residue(r: u16)
    ensures
        crc_feed(crc_feed(r, (r & 0xff) as u8), (r >> 8u16) as u8) == 0u16,
{
    let x0 = r ^ (r & 0xffu16);
    assert(((r & 0xff) as u8) as u16 == r & 0xffu16) by (bit_vector);
    assert(((r >> 8u16) as u8) as u16 == r >> 8u16) by (bit_vector);
    let x1 = crc_shift(x0);
    let x2 = crc_shift(x1);
    let x3 = crc_shift(x2);
    let x4 = crc_shift(x3);
    let x5 = crc_shift(x4);
    let x6 = crc_shift(x5);
    let x7 = crc_shift(x6);
    let x8 = crc_shift(x7);
    lemma_eight_shifts(x0);
    let y0 = x8 ^ (r >> 8u16);
    let y1 = crc_shift(y0);
    let y2 = crc_shift(y1);
    let y3 = crc_shift(y2);
    let y4 = crc_shift(y3);
    let y5 = crc_shift(y4);
    let y6 = crc_shift(y5);
    let y7 = crc_shift(y6);
    let y8 = crc_shift(y7);
    lemma_eight_shifts(y0);
    lemma_register_residue_bits(r, x0, x1, x2, x3, x4, x5, x6, x7, x8, y0, y1, y2, y3, y4, y5, y6, y7, y8);
}

/// A frame followed by its own checksum bytes checks: the checksum of the
/// whole is zero, which is how a receiver validates an RTU frame.
pub proof fn lemma_frame_with_checksum_checks(data: Seq<u8>)
    ensures
        crc_bytes(data + crc_bytes(data)) == seq![0u8, 0u8],
{
    let c = crc_bytes(data);
    let whole = data + c;
    assert(whole.drop_last().drop_last() =~= data);
    assert(whole.drop_last().last() == c[0]);
    assert(whole.last() == c[1]);
    let r = crc_register(data);
    lemma_register_residue(r);
    assert(crc_register(whole.drop_last()) == crc_feed(r, (r & 0xff) as u8));
    assert(crc_register(whole) == crc_feed(crc_register(whole.drop_last()), (r >> 8u16) as u8));
    assert((0u16 & 0xff) as u8 == 0u8) by (bit_vector);
    assert((0u16 >> 8u16) as u8 == 0u8) by (bit_vector);
}

proof fn lemma_shift_xor(x: u16, y: u16)
    ensures
        crc_shift(x ^ y) == crc_shift(x) ^ crc_shift(y),
{
    assert((if (x ^ y) & 0x0001u16 != 0 { ((x ^ y) >> 1u16) ^ 0xA001u16 } else { (x ^ y) >> 1u16 }) == (if x
        & 0x0001u16 != 0 { (x >> 1u16) ^ 0xA001u16 } else { x >> 1u16 }) ^ (if y & 0x0001u16 != 0 {
        (y >> 1u16) ^ 0xA001u16
    } else {
        y >> 1u16
    })) by (bit_vector);
}

proof fn lemma_shift_nonzero(x: u16)
    requires
        x != 0,
    ensures
        crc_shift(x) != 0,
{
    assert(x != 0u16 ==> (if x & 0x0001u16 != 0 { (x >> 1u16) ^ 0xA001u16 } else { x >> 1u16 }) != 0u16)
        by (bit_vector);
}

proof fn lemma_shifts_xor(x: u16, y: u16, n: nat)
    ensures
        crc_shifts(x ^ y, n) == crc_shifts(x, n) ^ crc_shifts(y, n),
    decreases n,
{
    if n > 0 {
        lemma_shifts_xor(x, y, (n - 1) as nat);
        lemma_shift_xor(crc_shifts(x, (n - 1) as nat), crc_shifts(y, (n - 1) as nat));
    }
}

proof fn lemma_shifts_nonzero(x: u16, n: nat)
    requires
        x != 0,
    ensures
        crc_shifts(x, n) != 0,
    decreases n,
{
    if n > 0 {
        lemma_shifts_nonzero(x, (n - 1) as nat);
        lemma_shift_nonzero(crc_shifts(x, (n - 1) as nat));
    }
}

/// Feeding is linear over GF(2) in the register and the byte together.
proof fn lemma_feed_xor(c1: u16, c2: u16, b1: u8, b2: u8)
    ensures
        crc_feed(c1 ^ c2, b1 ^ b2) == crc_feed(c1, b1) ^ crc_feed(c2, b2),
{
    assert(((b1 ^ b2) as u16) == (b1 as u16) ^ (b2 as u16)) by (bit_vector);
    assert((c1 ^ c2) ^ ((b1 as u16) ^ (b2 as u16)) == (c1 ^ (b1 as u16)) ^ (c2 ^ (b2 as u16))) by (bit_vector);
    lemma_shifts_xor(c1 ^ (b1 as u16), c2 ^ (b2 as u16), 8);
}

/// For frames of one length, the register is affine over GF(2): the register
/// of the bytewise XOR of two frames is the XOR of their registers and that of
/// the all-zero frame.
pub proof fn lemma_register_affine(a: Seq<u8>, b: Seq<u8>, x: Seq<u8>, z: Seq<u8>)
    requires
        a.len() == b.len(),
        x.len() == a.len(),
        z.len() == a.len(),
        forall|i: int| 0 <= i < a.len() ==> x[i] == a[i] ^ b[i],
        forall|i: int| 0 <= i < a.len() ==> z[i] == 0u8,
    ensures
        crc_register(x) == crc_register(a) ^ crc_register(b) ^ crc_register(z),
    decreases a.len(),
{
    if a.len() == 0 {
        assert(0xFFFFu16 == 0xFFFFu16 ^ 0xFFFFu16 ^ 0xFFFFu16) by (bit_vector);
    } else {
        let n = a.len() - 1;
        lemma_register_affine(a.drop_last(), b.drop_last(), x.drop_last(), z.drop_last());
        let ra = crc_register(a.drop_last());
        let rb = crc_register(b.drop_last());
        let rz = crc_register(z.drop_last());
        let (al, bl, xl, zl) = (a.last(), b.last(), x.last(), z.last());
        assert(xl == a[n] ^ b[n]);
        assert(zl == 0u8);
        assert(xl == (al ^ bl) ^ zl) by (bit_vector)
            requires
                xl == al ^ bl,
                zl == 0u8,
        ;
        lemma_feed_xor(ra ^ rb, rz, al ^ bl, zl);
        lemma_feed_xor(ra, rb, al, bl);
    }
}

/// For frames of one length, the checksum is affine over GF(2): each checksum
/// byte of the bytewise XOR of two frames is the XOR of that byte of their
/// checksums and of the all-zero frame's.
pub proof fn lemma_checksum_affine(a: Seq<u8>, b: Seq<u8>, x: Seq<u8>, z: Seq<u8>)
    requires
        a.len() == b.len(),
        x.len() == a.len(),
        z.len() == a.len(),
        forall|i: int| 0 <= i < a.len() ==> x[i] == a[i] ^ b[i],
        forall|i: int| 0 <= i < a.len() ==> z[i] == 0u8,
    ensures
        forall|k: int| 0 <= k < 2 ==> crc_bytes(x)[k] == crc_bytes(a)[k] ^ crc_bytes(b)[k] ^ crc_bytes(z)[k],
{
    lemma_register_affine(a, b, x, z);
    let (p, q, r) = (crc_register(a), crc_register(b), crc_register(z));
    assert(((p ^ q ^ r) & 0xff) as u8 == ((p & 0xff) as u8) ^ ((q & 0xff) as u8) ^ ((r & 0xff) as u8))
        by (bit_vector);
    assert(((p ^ q ^ r) >> 8u16) as u8 == ((p >> 8u16) as u8) ^ ((q >> 8u16) as u8) ^ ((r >> 8u16) as u8))
        by (bit_vector);
}

proof fn lemma_single_bit_difference_persists(a: Seq<u8>, b: Seq<u8>, i: int, k: u8, n: int)
    requires
        a.len() == b.len(),
        0 <= i < n <= a.len(),
        k < 8,
        b[i] == a[i] ^ (1u8 << k),
        forall|j: int| 0 <= j < a.len() && j != i ==> b[j] == a[j],
    ensures
        crc_register(a.take(n)) != crc_register(b.take(n)),
    decreases n,
{
    let pa = a.take(n);
    let pb = b.take(n);
    assert(pa.last() == a[n - 1]);
    assert(pb.last() == b[n - 1]);
    let ra = crc_register(pa.drop_last());
    let rb = crc_register(pb.drop_last());
    if n == i + 1 {
        assert(pa.drop_last() =~= pb.drop_last());
        let m = 1u8 << k;
        assert(m != 0u8) by (bit_vector)
            requires
                k < 8,
                m == 1u8 << k,
        ;
        assert(ra ^ 0u16 == ra) by (bit_vector);
        lemma_feed_xor(ra, 0u16, a[i], m);
        assert((m as u16) != 0u16 && 0u16 ^ (m as u16) == (m as u16)) by (bit_vector)
            requires
                m != 0u8,
        ;
        lemma_shifts_nonzero(0u16 ^ (m as u16), 8);
        let fa = crc_feed(ra, a[i]);
        let f0 = crc_feed(0u16, m);
        assert(fa ^ f0 != fa) by (bit_vector)
            requires
                f0 != 0u16,
        ;
    } else {
        assert(pa.drop_last() =~= a.take(n - 1));
        assert(pb.drop_last() =~= b.take(n - 1));
        lemma_single_bit_difference_persists(a, b, i, k, n - 1);
        let c = a[n - 1];
        assert(c ^ c == 0u8) by (bit_vector);
        lemma_feed_xor(ra, rb, c, c);
        assert((0u8 as u16) == 0u16 && (ra ^ rb) ^ 0u16 == ra ^ rb && ra ^ rb != 0u16) by (bit_vector)
            requires
                ra != rb,
        ;
        lemma_shifts_nonzero(ra ^ rb, 8);
        let fa = crc_feed(ra, c);
        let fb = crc_feed(rb, c);
        assert(fa != fb) by (bit_vector)
            requires
                fa ^ fb != 0u16,
        ;
    }
}

/// The checksum detects every single-bit error: two frames of one length
/// that differ in exactly one bit have different checksums.
pub proof fn lemma_single_bit_error_detected(a: Seq<u8>, b: Seq<u8>, i: int, k: u8)
    requires
        a.len() == b.len(),
        0 <= i < a.len(),
        k < 8,
        b[i] == a[i] ^ (1u8 << k),
        forall|j: int| 0 <= j < a.len() && j != i ==> b[j] == a[j],
    ensures
        crc_bytes(a) != crc_bytes(b),
{
    lemma_single_bit_difference_persists(a, b, i, k, a.len() as int);
    assert(a.take(a.len() as int) =~= a);
    assert(b.take(b.len() as int) =~= b);
    let (p, q) = (crc_register(a), crc_register(b));
    if crc_bytes(a) == crc_bytes(b) {
        assert(crc_bytes(a)[0] == crc_bytes(b)[0]);
        assert(crc_bytes(a)[1] == crc_bytes(b)[1]);
        assert(p == q) by (bit_vector)
            requires
                (p & 0xff) as u8 == (q & 0xff) as u8,
                (p >> 8u16) as u8 == (q >> 8u16) as u8,
        ;
    }
}

} // verus!
