//! Calibration coefficients and their 22-byte wire encoding.

use vstd::prelude::*;

verus! {

/// Calibration data of a BMP180, per the datasheet.
///
/// Eleven fixed-width coefficients, parsed from the 22-byte calibration
/// block as big-endian 16-bit values at fixed byte-pair offsets, in the
/// order AC1, AC2, AC3, AC4, AC5, AC6, B1, B2, MB, MC, MD.
#[derive(Clone, Copy, Debug, PartialEq, Eq, Structural)]
pub struct Calibration {
    /// AC1.
    pub ac1: i16,
    /// AC2.
    pub ac2: i16,
    /// AC3.
    pub ac3: i16,
    /// AC4.
    pub ac4: u16,
    /// AC5.
    pub ac5: u16,
    /// AC6.
    pub ac6: u16,
    /// B1.
    pub b1: i16,
    /// B2.
    pub b2: i16,
    /// MB.
    pub mb: i16,
    /// MC.
    pub mc: i16,
    /// MD.
    pub md: i16,
}

/// The unsigned value of the big-endian byte pair `hi`, `lo`.
pub open spec fn be_u16(hi: u8, lo: u8) -> int {
    hi * 256 + lo
}

/// The signed (two's complement) value of the big-endian byte pair `hi`, `lo`.
pub open spec fn be_i16(hi: u8, lo: u8) -> int {
    if be_u16(hi, lo) >= 0x8000 {
        be_u16(hi, lo) - 0x10000
    } else {
        be_u16(hi, lo)
    }
}

/// The unsigned 16-bit representation of a signed 16-bit value.
pub open spec fn u16_rep(x: int) -> int
    recommends
        -0x8000 <= x < 0x8000,
{
    if x < 0 {
        x + 0x10000
    } else {
        x
    }
}

/// The high byte of an unsigned 16-bit value.
pub open spec fn hi_byte(v: int) -> u8
    recommends
        0 <= v < 0x10000,
{
    (v / 256) as u8
}

/// The low byte of an unsigned 16-bit value.
pub open spec fn lo_byte(v: int) -> u8
    recommends
        0 <= v < 0x10000,
{
    (v % 256) as u8
}

/// The coefficients encoded by a 22-byte calibration block.
pub open spec fn spec_parse(s: Seq<u8>) -> Calibration
    recommends
        s.len() == 22,
{
    Calibration {
        ac1: be_i16(s[0], s[1]) as i16,
        ac2: be_i16(s[2], s[3]) as i16,
        ac3: be_i16(s[4], s[5]) as i16,
        ac4: be_u16(s[6], s[7]) as u16,
        ac5: be_u16(s[8], s[9]) as u16,
        ac6: be_u16(s[10], s[11]) as u16,
        b1: be_i16(s[12], s[13]) as i16,
        b2: be_i16(s[14], s[15]) as i16,
        mb: be_i16(s[16], s[17]) as i16,
        mc: be_i16(s[18], s[19]) as i16,
        md: be_i16(s[20], s[21]) as i16,
    }
}

/// The 22-byte calibration block that encodes the coefficients `c`.
pub open spec fn spec_serialize(c: Calibration) -> Seq<u8> {
    seq![
        hi_byte(u16_rep(c.ac1 as int)),
        lo_byte(u16_rep(c.ac1 as int)),
        hi_byte(u16_rep(c.ac2 as int)),
        lo_byte(u16_rep(c.ac2 as int)),
        hi_byte(u16_rep(c.ac3 as int)),
        lo_byte(u16_rep(c.ac3 as int)),
        hi_byte(c.ac4 as int),
        lo_byte(c.ac4 as int),
        hi_byte(c.ac5 as int),
        lo_byte(c.ac5 as int),
        hi_byte(c.ac6 as int),
        lo_byte(c.ac6 as int),
        hi_byte(u16_rep(c.b1 as int)),
        lo_byte(u16_rep(c.b1 as int)),
        hi_byte(u16_rep(c.b2 as int)),
        lo_byte(u16_rep(c.b2 as int)),
        hi_byte(u16_rep(c.mb as int)),
        lo_byte(u16_rep(c.mb as int)),
        hi_byte(u16_rep(c.mc as int)),
        lo_byte(u16_rep(c.mc as int)),
        hi_byte(u16_rep(c.md as int)),
        lo_byte(u16_rep(c.md as int)),
    ]
}

/// The unsigned value of the big-endian byte pair `hi`, `lo`.
pub fn be_u16_of(hi: u8, lo: u8) -> (r: u16)
    ensures
        r == be_u16(hi, lo),
{
    (hi as u16) * 256 + (lo as u16)
}

/// The signed value of the big-endian byte pair `hi`, `lo`.
pub fn be_i16_of(hi: u8, lo: u8) -> (r: i16)
    ensures
        r == be_i16(hi, lo),
{
    let v = be_u16_of(hi, lo);
    if v >= 0x8000 {
        ((v as i32) - 0x10000) as i16
    } else {
        v as i16
    }
}

impl Calibration {
    /// Parse the eleven coefficients from the 22-byte calibration block.
    ///
    /// Each coefficient is the big-endian 16-bit value at its fixed byte-pair
    /// offset; AC4, AC5 and AC6 are unsigned, the rest signed.
    pub fn from_slice(slice: &[u8; 22]) -> (r: Self)
        ensures
            r == spec_parse(slice@),
    {
        let ac1 = be_i16_of(slice[0], slice[1]);
        let ac2 = be_i16_of(slice[2], slice[3]);
        let ac3 = be_i16_of(slice[4], slice[5]);
        let ac4 = be_u16_of(slice[6], slice[7]);
        let ac5 = be_u16_of(slice[8], slice[9]);
        let ac6 = be_u16_of(slice[10], slice[11]);

        let b1 = be_i16_of(slice[12], slice[13]);
        let b2 = be_i16_of(slice[14], slice[15]);

        let mb = be_i16_of(slice[16], slice[17]);
        let mc = be_i16_of(slice[18], slice[19]);
        let md = be_i16_of(slice[20], slice[21]);

        Self { ac1, ac2, ac3, ac4, ac5, ac6, b1, b2, mb, mc, md }
    }

    /// Serialize the coefficients back into their 22-byte calibration block.
    pub fn to_bytes(&self) -> (r: Vec<u8>)
        ensures
            r@ == spec_serialize(*self),
    {
        let mut out: Vec<u8> = Vec::new();
        push_be_i16(&mut out, self.ac1);
        push_be_i16(&mut out, self.ac2);
        push_be_i16(&mut out, self.ac3);
        push_be_u16(&mut out, self.ac4);
        push_be_u16(&mut out, self.ac5);
        push_be_u16(&mut out, self.ac6);
        push_be_i16(&mut out, self.b1);
        push_be_i16(&mut out, self.b2);
        push_be_i16(&mut out, self.mb);
        push_be_i16(&mut out, self.mc);
        push_be_i16(&mut out, self.md);
        proof {
            assert(out@ =~= spec_serialize(*self));
        }
        out
    }
}

impl Default for Calibration {
    /// All-zero coefficients.
    fn default() -> (r: Self)
        ensures
            r.ac1 == 0 && r.ac2 == 0 && r.ac3 == 0 && r.ac4 == 0 && r.ac5 == 0 && r.ac6 == 0
                && r.b1 == 0 && r.b2 == 0 && r.mb == 0 && r.mc == 0 && r.md == 0,
    {
        Calibration {
            ac1: 0,
            ac2: 0,
            ac3: 0,
            ac4: 0,
            ac5: 0,
            ac6: 0,
            b1: 0,
            b2: 0,
            mb: 0,
            mc: 0,
            md: 0,
        }
    }
}

/// Append the big-endian bytes of a signed 16-bit value.
fn push_be_i16(out: &mut Vec<u8>, x: i16)
    ensures
        final(out)@ == old(out)@ + seq![hi_byte(u16_rep(x as int)), lo_byte(u16_rep(x as int))],
{
    let rep: u16 = if x < 0 {
        ((x as i32) + 0x10000) as u16
    } else {
        x as u16
    };
    proof {
        assert(rep == u16_rep(x as int));
    }
    out.push((rep / 256) as u8);
    out.push((rep % 256) as u8);
    proof {
        assert(out@ =~= old(out)@ + seq![hi_byte(rep as int), lo_byte(rep as int)]);
    }
}

/// Append the big-endian bytes of an unsigned 16-bit value.
fn push_be_u16(out: &mut Vec<u8>, x: u16)
    ensures
        final(out)@ == old(out)@ + seq![hi_byte(x as int), lo_byte(x as int)],
{
    out.push((x / 256) as u8);
    out.push((x % 256) as u8);
    proof {
        assert(out@ =~= old(out)@ + seq![hi_byte(x as int), lo_byte(x as int)]);
    }
}

/// Serializing the value of a big-endian byte pair gives the pair back.
proof fn lemma_be_pair_round_trip(a: u8, b: u8)
    ensures
        hi_byte(u16_rep(be_i16(a, b))) == a,
        lo_byte(u16_rep(be_i16(a, b))) == b,
        hi_byte(be_u16(a, b)) == a,
        lo_byte(be_u16(a, b)) == b,
{
    assert(u16_rep(be_i16(a, b)) == be_u16(a, b));
    assert((a * 256 + b) / 256 == a as int) by (nonlinear_arith);
    assert((a * 256 + b) % 256 == b as int) by (nonlinear_arith);
}

/// Round trip of the calibration block: parsing a 22-byte block and
/// re-serializing the parsed coefficients at the same offsets reproduces
/// the original bytes.
pub proof fn lemma_calibration_round_trip(s: Seq<u8>)
    requires
        s.len() == 22,
    ensures
        spec_serialize(spec_parse(s)) == s,
{
    lemma_be_pair_round_trip(s[0], s[1]);
    lemma_be_pair_round_trip(s[2], s[3]);
    lemma_be_pair_round_trip(s[4], s[5]);
    lemma_be_pair_round_trip(s[6], s[7]);
    lemma_be_pair_round_trip(s[8], s[9]);
    lemma_be_pair_round_trip(s[10], s[11]);
    lemma_be_pair_round_trip(s[12], s[13]);
    lemma_be_pair_round_trip(s[14], s[15]);
    lemma_be_pair_round_trip(s[16], s[17]);
    lemma_be_pair_round_trip(s[18], s[19]);
    lemma_be_pair_round_trip(s[20], s[21]);
    assert(spec_serialize(spec_parse(s)) =~= s);
}

} // verus!
