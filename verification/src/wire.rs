//! Little-endian primitives for the wire codec.
//!
//! A cursor for reading multi-byte integers out of a decoded frame, and
//! helpers for appending them to a frame under construction. All multi-byte
//! integers of the protocol are little-endian.

use vstd::prelude::*;

use crate::errors::{Error, ErrorKind};

verus! {

/// The `u16` encoded little-endian by the bytes `lo`, `hi`.
pub open spec fn u16_of_le(lo: u8, hi: u8) -> u16 {
    (lo + hi * 0x100) as u16
}

/// The `u32` encoded little-endian by the bytes `b0` (least significant)
/// through `b3`.
pub open spec fn u32_of_le(b0: u8, b1: u8, b2: u8, b3: u8) -> u32 {
    (b0 + b1 * 0x100 + b2 * 0x1_0000 + b3 * 0x100_0000) as u32
}

/// The `u64` encoded little-endian by the bytes `b0` (least significant)
/// through `b7`.
pub open spec fn u64_of_le(
    b0: u8,
    b1: u8,
    b2: u8,
    b3: u8,
    b4: u8,
    b5: u8,
    b6: u8,
    b7: u8,
) -> u64 {
    (b0 + b1 * 0x100 + b2 * 0x1_0000 + b3 * 0x100_0000 + b4 * 0x1_0000_0000 + b5
        * 0x100_0000_0000 + b6 * 0x1_0000_0000_0000 + b7 * 0x100_0000_0000_0000) as u64
}

/// The two little-endian bytes of `x`, least significant first.
pub open spec fn u16_le_bytes(x: u16) -> Seq<u8> {
    seq![(x % 0x100) as u8, ((x / 0x100) % 0x100) as u8]
}

/// The four little-endian bytes of `x`, least significant first.
pub open spec fn u32_le_bytes(x: u32) -> Seq<u8> {
    seq![
        (x % 0x100) as u8,
        ((x / 0x100) % 0x100) as u8,
        ((x / 0x1_0000) % 0x100) as u8,
        ((x / 0x100_0000) % 0x100) as u8,
    ]
}

/// The eight little-endian bytes of `x`, least significant first.
pub open spec fn u64_le_bytes(x: u64) -> Seq<u8> {
    seq![
        (x % 0x100) as u8,
        ((x / 0x100) % 0x100) as u8,
        ((x / 0x1_0000) % 0x100) as u8,
        ((x / 0x100_0000) % 0x100) as u8,
        ((x / 0x1_0000_0000) % 0x100) as u8,
        ((x / 0x100_0000_0000) % 0x100) as u8,
        ((x / 0x1_0000_0000_0000) % 0x100) as u8,
        ((x / 0x100_0000_0000_0000) % 0x100) as u8,
    ]
}

/// Reading back the two little-endian bytes of `x` recovers `x`.
pub proof fn lemma_u16_le_round_trip(x: u16)
    ensures
        u16_of_le(u16_le_bytes(x)[0], u16_le_bytes(x)[1]) == x,
{
}

/// Reading back the four little-endian bytes of `x` recovers `x`.
pub proof fn lemma_u32_le_round_trip(x: u32)
    ensures
        u32_of_le(u32_le_bytes(x)[0], u32_le_bytes(x)[1], u32_le_bytes(x)[2], u32_le_bytes(x)[3])
            == x,
{
}

/// Reading back the eight little-endian bytes of `x` recovers `x`.
pub proof fn lemma_u64_le_round_trip(x: u64)
    ensures
        u64_of_le(
            u64_le_bytes(x)[0],
            u64_le_bytes(x)[1],
            u64_le_bytes(x)[2],
            u64_le_bytes(x)[3],
            u64_le_bytes(x)[4],
            u64_le_bytes(x)[5],
            u64_le_bytes(x)[6],
            u64_le_bytes(x)[7],
        ) == x,
{
    let xi = x as int;
    let r1 = xi / 0x100;
    let r2 = r1 / 0x100;
    let r3 = r2 / 0x100;
    let r4 = r3 / 0x100;
    let r5 = r4 / 0x100;
    let r6 = r5 / 0x100;
    let r7 = r6 / 0x100;
    vstd::arithmetic::div_mod::lemma_div_denominator(xi, 0x100, 0x100);
    vstd::arithmetic::div_mod::lemma_div_denominator(xi, 0x1_0000, 0x100);
    vstd::arithmetic::div_mod::lemma_div_denominator(xi, 0x100_0000, 0x100);
    vstd::arithmetic::div_mod::lemma_div_denominator(xi, 0x1_0000_0000, 0x100);
    vstd::arithmetic::div_mod::lemma_div_denominator(xi, 0x100_0000_0000, 0x100);
    vstd::arithmetic::div_mod::lemma_div_denominator(xi, 0x1_0000_0000_0000, 0x100);
    assert(xi / 0x1_0000 == r2);
    assert(xi / 0x100_0000 == r3);
    assert(xi / 0x1_0000_0000 == r4);
    assert(xi / 0x100_0000_0000 == r5);
    assert(xi / 0x1_0000_0000_0000 == r6);
    assert(xi / 0x100_0000_0000_0000 == r7);
    vstd::arithmetic::div_mod::lemma_fundamental_div_mod(xi, 0x100);
    vstd::arithmetic::div_mod::lemma_fundamental_div_mod(r1, 0x100);
    vstd::arithmetic::div_mod::lemma_fundamental_div_mod(r2, 0x100);
    vstd::arithmetic::div_mod::lemma_fundamental_div_mod(r3, 0x100);
    vstd::arithmetic::div_mod::lemma_fundamental_div_mod(r4, 0x100);
    vstd::arithmetic::div_mod::lemma_fundamental_div_mod(r5, 0x100);
    vstd::arithmetic::div_mod::lemma_fundamental_div_mod(r6, 0x100);
    assert(r7 >= 0 && r7 < 0x100) by {
        vstd::arithmetic::div_mod::lemma_div_pos_is_pos(xi, 0x100_0000_0000_0000);
        vstd::arithmetic::div_mod::lemma_fundamental_div_mod(xi, 0x100_0000_0000_0000);
        vstd::arithmetic::div_mod::lemma_mod_bound(xi, 0x100_0000_0000_0000);
    }
    vstd::arithmetic::div_mod::lemma_small_mod(r7 as nat, 0x100);
}

/// A cursor over the bytes of one decoded frame.
pub struct WireReader<'a> {
    data: &'a [u8],
    pos: usize,
}

impl<'a> WireReader<'a> {
    /// The bytes the cursor walks over.
    pub closed spec fn data(self) -> Seq<u8> {
        self.data@
    }

    /// How many bytes have been consumed.
    pub closed spec fn pos(self) -> int {
        self.pos as int
    }

    /// The cursor never points past the end of its bytes.
    pub open spec fn wf(self) -> bool {
        0 <= self.pos() <= self.data().len()
    }

    pub fn new(data: &'a [u8]) -> (r: WireReader<'a>)
        ensures
            r.wf(),
            r.data() == data@,
            r.pos() == 0,
    {
        WireReader { data, pos: 0 }
    }

    /// Read one byte, or fail if the frame is exhausted.
    pub fn read_u8(&mut self) -> (r: Result<u8, Error>)
        requires
            old(self).wf(),
        ensures
            final(self).wf(),
            final(self).data() == old(self).data(),
            match r {
                Ok(b) => old(self).pos() + 1 <= old(self).data().len() && b == old(self).data()[old(
                    self,
                ).pos()] && final(self).pos() == old(self).pos() + 1,
                Err(e) => old(self).pos() + 1 > old(self).data().len() && e.kind is Truncated
                    && final(self).pos() == old(self).pos(),
            },
    {
        if self.data.len() - self.pos >= 1 {
            let b = self.data[self.pos];
            self.pos = self.pos + 1;
            Ok(b)
        } else {
            Err(Error { kind: ErrorKind::Truncated })
        }
    }

    /// Read a little-endian `u16`, or fail if the frame is exhausted.
    pub fn read_u16(&mut self) -> (r: Result<u16, Error>)
        requires
            old(self).wf(),
        ensures
            final(self).wf(),
            final(self).data() == old(self).data(),
            match r {
                Ok(v) => old(self).pos() + 2 <= old(self).data().len() && v == u16_of_le(
                    old(self).data()[old(self).pos()],
                    old(self).data()[old(self).pos() + 1],
                ) && final(self).pos() == old(self).pos() + 2,
                Err(e) => old(self).pos() + 2 > old(self).data().len() && e.kind is Truncated
                    && final(self).pos() == old(self).pos(),
            },
    {
        if self.data.len() - self.pos >= 2 {
            let lo = self.data[self.pos];
            let hi = self.data[self.pos + 1];
            self.pos = self.pos + 2;
            Ok(lo as u16 + (hi as u16) * 0x100)
        } else {
            Err(Error { kind: ErrorKind::Truncated })
        }
    }

    /// Read a little-endian `u32`, or fail if the frame is exhausted.
    pub fn read_u32(&mut self) -> (r: Result<u32, Error>)
        requires
            old(self).wf(),
        ensures
            final(self).wf(),
            final(self).data() == old(self).data(),
            match r {
                Ok(v) => old(self).pos() + 4 <= old(self).data().len() && v == u32_of_le(
                    old(self).data()[old(self).pos()],
                    old(self).data()[old(self).pos() + 1],
                    old(self).data()[old(self).pos() + 2],
                    old(self).data()[old(self).pos() + 3],
                ) && final(self).pos() == old(self).pos() + 4,
                Err(e) => old(self).pos() + 4 > old(self).data().len() && e.kind is Truncated
                    && final(self).pos() == old(self).pos(),
            },
    {
        if self.data.len() - self.pos >= 4 {
            let b0 = self.data[self.pos];
            let b1 = self.data[self.pos + 1];
            let b2 = self.data[self.pos + 2];
            let b3 = self.data[self.pos + 3];
            self.pos = self.pos + 4;
            Ok(b0 as u32 + (b1 as u32) * 0x100 + (b2 as u32) * 0x1_0000 + (b3 as u32) * 0x100_0000)
        } else {
            Err(Error { kind: ErrorKind::Truncated })
        }
    }

    /// Read a little-endian `u64`, or fail if the frame is exhausted.
    pub fn read_u64(&mut self) -> (r: Result<u64, Error>)
        requires
            old(self).wf(),
        ensures
            final(self).wf(),
            final(self).data() == old(self).data(),
            match r {
                Ok(v) => old(self).pos() + 8 <= old(self).data().len() && v == u64_of_le(
                    old(self).data()[old(self).pos()],
                    old(self).data()[old(self).pos() + 1],
                    old(self).data()[old(self).pos() + 2],
                    old(self).data()[old(self).pos() + 3],
                    old(self).data()[old(self).pos() + 4],
                    old(self).data()[old(self).pos() + 5],
                    old(self).data()[old(self).pos() + 6],
                    old(self).data()[old(self).pos() + 7],
                ) && final(self).pos() == old(self).pos() + 8,
                Err(e) => old(self).pos() + 8 > old(self).data().len() && e.kind is Truncated
                    && final(self).pos() == old(self).pos(),
            },
    {
        if self.data.len() - self.pos >= 8 {
            let b0 = self.data[self.pos];
            let b1 = self.data[self.pos + 1];
            let b2 = self.data[self.pos + 2];
            let b3 = self.data[self.pos + 3];
            let b4 = self.data[self.pos + 4];
            let b5 = self.data[self.pos + 5];
            let b6 = self.data[self.pos + 6];
            let b7 = self.data[self.pos + 7];
            self.pos = self.pos + 8;
            Ok(
                b0 as u64 + (b1 as u64) * 0x100 + (b2 as u64) * 0x1_0000 + (b3 as u64) * 0x100_0000
                    + (b4 as u64) * 0x1_0000_0000 + (b5 as u64) * 0x100_0000_0000 + (b6 as u64)
                    * 0x1_0000_0000_0000 + (b7 as u64) * 0x100_0000_0000_0000,
            )
        } else {
            Err(Error { kind: ErrorKind::Truncated })
        }
    }

    /// Copy the next `n` bytes out of the frame, or fail if fewer remain.
    pub fn read_bytes(&mut self, n: usize) -> (r: Result<Vec<u8>, Error>)
        requires
            old(self).wf(),
        ensures
            final(self).wf(),
            final(self).data() == old(self).data(),
            match r {
                Ok(v) => old(self).pos() + n <= old(self).data().len() && v@ == old(
                    self,
                ).data().subrange(old(self).pos(), old(self).pos() + n) && final(self).pos() == old(
                    self,
                ).pos() + n,
                Err(e) => old(self).pos() + n > old(self).data().len() && e.kind is Truncated
                    && final(self).pos() == old(self).pos(),
            },
    {
        if self.data.len() - self.pos >= n {
            let sub = vstd::slice::slice_subrange(self.data, self.pos, self.pos + n);
            let v = vstd::slice::slice_to_vec(sub);
            self.pos = self.pos + n;
            Ok(v)
        } else {
            Err(Error { kind: ErrorKind::Truncated })
        }
    }
}

/// Fixed-width values that can be read off a frame cursor.
pub trait ReadWire: Sized {
    /// Width in bytes on the wire.
    spec fn wire_size() -> int;

    /// The value encoded little-endian by the bytes at `pos`.
    spec fn decode_spec(s: Seq<u8>, pos: int) -> Self;

    /// Read one value, or fail if the frame is exhausted.
    fn read_wire(rd: &mut WireReader<'_>) -> (r: Result<Self, Error>)
        requires
            old(rd).wf(),
        ensures
            final(rd).wf(),
            final(rd).data() == old(rd).data(),
            match r {
                Ok(v) => old(rd).pos() + Self::wire_size() <= old(rd).data().len() && v
                    == Self::decode_spec(old(rd).data(), old(rd).pos()) && final(rd).pos() == old(
                    rd,
                ).pos() + Self::wire_size(),
                Err(e) => old(rd).pos() + Self::wire_size() > old(rd).data().len()
                    && e.kind is Truncated && final(rd).pos() == old(rd).pos(),
            },
    ;
}

/// Fixed-width values that can be appended to a frame under construction.
pub trait WriteWire: Sized {
    /// The little-endian bytes of the value.
    spec fn encode_spec(self) -> Seq<u8>;

    /// Width in bytes on the wire.
    fn wire_len(&self) -> (r: u16)
        ensures
            r == self.encode_spec().len(),
    ;

    /// Append the value's bytes.
    fn write_wire(self, out: &mut Vec<u8>)
        ensures
            final(out)@ == old(out)@ + self.encode_spec(),
    ;
}

impl ReadWire for u8 {
    open spec fn wire_size() -> int {
        1
    }

    open spec fn decode_spec(s: Seq<u8>, pos: int) -> u8 {
        s[pos]
    }

    fn read_wire(rd: &mut WireReader<'_>) -> (r: Result<u8, Error>) {
        rd.read_u8()
    }
}

impl ReadWire for u16 {
    open spec fn wire_size() -> int {
        2
    }

    open spec fn decode_spec(s: Seq<u8>, pos: int) -> u16 {
        u16_of_le(s[pos], s[pos + 1])
    }

    fn read_wire(rd: &mut WireReader<'_>) -> (r: Result<u16, Error>) {
        rd.read_u16()
    }
}

impl ReadWire for u32 {
    open spec fn wire_size() -> int {
        4
    }

    open spec fn decode_spec(s: Seq<u8>, pos: int) -> u32 {
        u32_of_le(s[pos], s[pos + 1], s[pos + 2], s[pos + 3])
    }

    fn read_wire(rd: &mut WireReader<'_>) -> (r: Result<u32, Error>) {
        rd.read_u32()
    }
}

impl ReadWire for u64 {
    open spec fn wire_size() -> int {
        8
    }

    open spec fn decode_spec(s: Seq<u8>, pos: int) -> u64 {
        u64_of_le(
            s[pos],
            s[pos + 1],
            s[pos + 2],
            s[pos + 3],
            s[pos + 4],
            s[pos + 5],
            s[pos + 6],
            s[pos + 7],
        )
    }

    fn read_wire(rd: &mut WireReader<'_>) -> (r: Result<u64, Error>) {
        rd.read_u64()
    }
}

impl WriteWire for u8 {
    open spec fn encode_spec(self) -> Seq<u8> {
        seq![self]
    }

    fn wire_len(&self) -> (r: u16) {
        1
    }

    fn write_wire(self, out: &mut Vec<u8>) {
        out.push(self);
        assert(out@ =~= old(out)@ + seq![self]);
    }
}

impl WriteWire for u16 {
    open spec fn encode_spec(self) -> Seq<u8> {
        u16_le_bytes(self)
    }

    fn wire_len(&self) -> (r: u16) {
        2
    }

    fn write_wire(self, out: &mut Vec<u8>) {
        push_u16_le(out, self);
    }
}

impl WriteWire for u32 {
    open spec fn encode_spec(self) -> Seq<u8> {
        u32_le_bytes(self)
    }

    fn wire_len(&self) -> (r: u16) {
        4
    }

    fn write_wire(self, out: &mut Vec<u8>) {
        push_u32_le(out, self);
    }
}

impl WriteWire for u64 {
    open spec fn encode_spec(self) -> Seq<u8> {
        u64_le_bytes(self)
    }

    fn wire_len(&self) -> (r: u16) {
        8
    }

    fn write_wire(self, out: &mut Vec<u8>) {
        push_u64_le(out, self);
    }
}

/// Method-call form of [`ReadWire`] for frame cursors.
pub trait ReadWireExt {
    /// The bytes the cursor walks over.
    spec fn ext_data(&self) -> Seq<u8>;

    /// How many bytes have been consumed.
    spec fn ext_pos(&self) -> int;

    /// The cursor's well-formedness.
    spec fn ext_wf(&self) -> bool;

    /// Read one value of the inferred type, or fail if the frame is
    /// exhausted.
    fn read_wire<T: ReadWire>(&mut self) -> (r: Result<T, Error>)
        requires
            old(self).ext_wf(),
        ensures
            final(self).ext_wf(),
            final(self).ext_data() == old(self).ext_data(),
            match r {
                Ok(v) => old(self).ext_pos() + T::wire_size() <= old(self).ext_data().len() && v
                    == T::decode_spec(old(self).ext_data(), old(self).ext_pos())
                    && final(self).ext_pos() == old(self).ext_pos() + T::wire_size(),
                Err(e) => old(self).ext_pos() + T::wire_size() > old(self).ext_data().len()
                    && e.kind is Truncated && final(self).ext_pos() == old(self).ext_pos(),
            },
    ;
}

impl<'a> ReadWireExt for WireReader<'a> {
    open spec fn ext_data(&self) -> Seq<u8> {
        self.data()
    }

    open spec fn ext_pos(&self) -> int {
        self.pos()
    }

    open spec fn ext_wf(&self) -> bool {
        self.wf()
    }

    fn read_wire<T: ReadWire>(&mut self) -> (r: Result<T, Error>) {
        T::read_wire(self)
    }
}

/// Method-call form of [`WriteWire`] for frames under construction.
pub trait WriteWireExt {
    /// The bytes written so far.
    spec fn written(&self) -> Seq<u8>;

    /// Append one value's bytes.
    fn write_wire<T: WriteWire>(&mut self, value: T)
        ensures
            final(self).written() == old(self).written() + value.encode_spec(),
    ;
}

impl WriteWireExt for Vec<u8> {
    open spec fn written(&self) -> Seq<u8> {
        self@
    }

    fn write_wire<T: WriteWire>(&mut self, value: T) {
        value.write_wire(self);
    }
}

/// Append the two little-endian bytes of `x`.
pub fn push_u16_le(out: &mut Vec<u8>, x: u16)
    ensures
        final(out)@ == old(out)@ + u16_le_bytes(x),
{
    out.push((x % 0x100) as u8);
    out.push(((x / 0x100) % 0x100) as u8);
    assert(out@ =~= old(out)@ + u16_le_bytes(x));
}

/// Append the four little-endian bytes of `x`.
pub fn push_u32_le(out: &mut Vec<u8>, x: u32)
    ensures
        final(out)@ == old(out)@ + u32_le_bytes(x),
{
    out.push((x % 0x100) as u8);
    out.push(((x / 0x100) % 0x100) as u8);
    out.push(((x / 0x1_0000) % 0x100) as u8);
    out.push(((x / 0x100_0000) % 0x100) as u8);
    assert(out@ =~= old(out)@ + u32_le_bytes(x));
}

/// Append the eight little-endian bytes of `x`.
pub fn push_u64_le(out: &mut Vec<u8>, x: u64)
    ensures
        final(out)@ == old(out)@ + u64_le_bytes(x),
{
    out.push((x % 0x100) as u8);
    out.push(((x / 0x100) % 0x100) as u8);
    out.push(((x / 0x1_0000) % 0x100) as u8);
    out.push(((x / 0x100_0000) % 0x100) as u8);
    out.push(((x / 0x1_0000_0000) % 0x100) as u8);
    out.push(((x / 0x100_0000_0000) % 0x100) as u8);
    out.push(((x / 0x1_0000_0000_0000) % 0x100) as u8);
    out.push(((x / 0x100_0000_0000_0000) % 0x100) as u8);
    assert(out@ =~= old(out)@ + u64_le_bytes(x));
}

} // verus!
