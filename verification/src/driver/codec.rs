//! Little-endian encoding of the signed 16-bit pose registers.
use vstd::prelude::*;

verus! {

/// The two's complement value of `v` read as an unsigned 16-bit number.
pub open spec fn unsigned16(v: i16) -> int {
    if v < 0 {
        v + 65536
    } else {
        v as int
    }
}

/// The two bytes of `v`, least significant first.
pub open spec fn le_bytes(v: i16) -> Seq<u8> {
    seq![(unsigned16(v) % 256) as u8, (unsigned16(v) / 256) as u8]
}

/// The signed 16-bit number whose little-endian bytes are `lo`, `hi`.
pub open spec fn from_le(lo: u8, hi: u8) -> i16 {
    let u = lo + 256 * hi;
    if u >= 32768 {
        (u - 65536) as i16
    } else {
        u as i16
    }
}

/// A pose as the sensor's registers hold it: x, y and heading, each a signed
/// 16-bit count of the register's unit.
#[derive(Clone, Copy, Debug, PartialEq, Eq, Structural)]
pub struct RawPose {
    pub x: i16,
    pub y: i16,
    pub h: i16,
}

/// The six register bytes of a pose: x, y, heading, each little-endian.
pub open spec fn encoded(p: RawPose) -> Seq<u8> {
    le_bytes(p.x) + le_bytes(p.y) + le_bytes(p.h)
}

/// The pose held by the six register bytes starting at `start` of `b`.
pub open spec fn decoded_at(b: Seq<u8>, start: int) -> RawPose {
    RawPose {
        x: from_le(b[start], b[start + 1]),
        y: from_le(b[start + 2], b[start + 3]),
        h: from_le(b[start + 4], b[start + 5]),
    }
}

/// The pose held by the first six register bytes of `b`.
pub open spec fn decoded(b: Seq<u8>) -> RawPose {
    decoded_at(b, 0)
}

/// Signed 16-bit number from its little-endian bytes.
pub fn i16_from_le_bytes(lo: u8, hi: u8) -> (v: i16)
    ensures
        v == from_le(lo, hi),
{
    let u: i32 = lo as i32 + 256 * (hi as i32);
    if u >= 32768 {
        (u - 65536) as i16
    } else {
        u as i16
    }
}

/// Little-endian bytes of a signed 16-bit number.
pub fn i16_to_le_bytes(v: i16) -> (b: (u8, u8))
    ensures
        seq![b.0, b.1] == le_bytes(v),
{
    let u: i32 = if v < 0 {
        v as i32 + 65536
    } else {
        v as i32
    };
    ((u % 256) as u8, (u / 256) as u8)
}

/// Decoding the bytes of a number gives the number back.
pub proof fn lemma_i16_round_trip(v: i16)
    ensures
        from_le(le_bytes(v)[0], le_bytes(v)[1]) == v,
{
}

/// Encoding the number that two bytes hold gives the same two bytes.
pub proof fn lemma_le_bytes_round_trip(lo: u8, hi: u8)
    ensures
        le_bytes(from_le(lo, hi)) == seq![lo, hi],
{
    assert(le_bytes(from_le(lo, hi)) =~= seq![lo, hi]);
}

impl RawPose {
    /// Param units: register counts of x, y and heading.
    pub fn new(x: i16, y: i16, h: i16) -> (p: RawPose)
        ensures
            p == (RawPose { x, y, h }),
    {
        RawPose { x, y, h }
    }

    /// Reads a pose from its six register bytes.
    pub fn parse(rx: &[u8; 6]) -> (p: RawPose)
        ensures
            p == decoded(rx@),
    {
        let x = i16_from_le_bytes(rx[0], rx[1]);
        let y = i16_from_le_bytes(rx[2], rx[3]);
        let h = i16_from_le_bytes(rx[4], rx[5]);
        RawPose { x, y, h }
    }

    /// Reads the pose held by the six bytes starting at `start`.
    pub fn parse_at(rx: &[u8], start: usize) -> (p: RawPose)
        requires
            start + 6 <= rx@.len(),
        ensures
            p == decoded_at(rx@, start as int),
    {
        let block: [u8; 6] = [
            rx[start],
            rx[start + 1],
            rx[start + 2],
            rx[start + 3],
            rx[start + 4],
            rx[start + 5],
        ];
        RawPose::parse(&block)
    }

    /// The six register bytes of this pose.
    pub fn encode(&self) -> (b: [u8; 6])
        ensures
            b@ == encoded(*self),
    {
        let x = i16_to_le_bytes(self.x);
        let y = i16_to_le_bytes(self.y);
        let h = i16_to_le_bytes(self.h);
        let b = [x.0, x.1, y.0, y.1, h.0, h.1];
        assert(b@ =~= encoded(*self));
        b
    }

    /// Appends the six register bytes of this pose to `out`.
    pub fn encode_into(&self, out: &mut Vec<u8>)
        ensures
            final(out)@ == old(out)@ + encoded(*self),
    {
        let b = self.encode();
        out.push(b[0]);
        out.push(b[1]);
        out.push(b[2]);
        out.push(b[3]);
        out.push(b[4]);
        out.push(b[5]);
        assert(final(out)@ =~= old(out)@ + encoded(*self));
    }
}

/// Reading back the bytes of a pose gives the pose: what the sensor is sent
/// for a pose register is what it is read as.
pub proof fn lemma_pose_round_trip(p: RawPose)
    ensures
        encoded(p).len() == 6,
        decoded(encoded(p)) == p,
{
    lemma_i16_round_trip(p.x);
    lemma_i16_round_trip(p.y);
    lemma_i16_round_trip(p.h);
}

/// Encoding the pose read from six bytes gives the same six bytes.
pub proof fn lemma_bytes_round_trip(b: Seq<u8>)
    requires
        b.len() == 6,
    ensures
        encoded(decoded(b)) == b,
{
    lemma_le_bytes_round_trip(b[0], b[1]);
    lemma_le_bytes_round_trip(b[2], b[3]);
    lemma_le_bytes_round_trip(b[4], b[5]);
    assert(encoded(decoded(b)) =~= b);
}

/// Poses packed one after another are each read back from their place.
pub proof fn lemma_packed_poses(a: RawPose, b: RawPose, c: RawPose)
    ensures
        ({
            let s = encoded(a) + encoded(b) + encoded(c);
            &&& s.len() == 18
            &&& decoded_at(s, 0) == a
            &&& decoded_at(s, 6) == b
            &&& decoded_at(s, 12) == c
        }),
{
    lemma_i16_round_trip(a.x);
    lemma_i16_round_trip(a.y);
    lemma_i16_round_trip(a.h);
    lemma_i16_round_trip(b.x);
    lemma_i16_round_trip(b.y);
    lemma_i16_round_trip(b.h);
    lemma_i16_round_trip(c.x);
    lemma_i16_round_trip(c.y);
    lemma_i16_round_trip(c.h);
}

/// The bytes of a number are its value modulo 65536, least significant byte
/// first; and the number read from two bytes is that value, taken as signed.
pub proof fn lemma_le_bytes_value(v: i16, lo: u8, hi: u8)
    ensures
        le_bytes(v).len() == 2,
        (le_bytes(v)[0] + 256 * le_bytes(v)[1] - v) % 65536 == 0,
        (lo + 256 * hi - from_le(lo, hi)) % 65536 == 0,
{
}

/// Each field of a pose is read from its own two bytes, little-endian: x
/// from the first two, y from the next two, the heading from the last two;
/// and encoding puts each field's bytes in the same places.
pub proof fn lemma_pose_layout(b: Seq<u8>, p: RawPose)
    requires
        b.len() == 6,
    ensures
        (b[0] + 256 * b[1] - decoded(b).x) % 65536 == 0,
        (b[2] + 256 * b[3] - decoded(b).y) % 65536 == 0,
        (b[4] + 256 * b[5] - decoded(b).h) % 65536 == 0,
        (encoded(p)[0] + 256 * encoded(p)[1] - p.x) % 65536 == 0,
        (encoded(p)[2] + 256 * encoded(p)[3] - p.y) % 65536 == 0,
        (encoded(p)[4] + 256 * encoded(p)[5] - p.h) % 65536 == 0,
{
    lemma_le_bytes_value(p.x, b[0], b[1]);
    lemma_le_bytes_value(p.y, b[2], b[3]);
    lemma_le_bytes_value(p.h, b[4], b[5]);
}

} // verus!
