//! Delimiter framing for the serial link.
//!
//! A frame on the wire is a leading `END` byte, the payload with `END` and
//! `ESC` bytes escaped, the two little-endian bytes of a 16-bit checksum of
//! the unescaped payload, and a trailing `END` byte. The checksum is the
//! two's complement of the 16-bit modular sum of the payload bytes.

use vstd::prelude::*;

use crate::wire::u16_of_le;

verus! {

/// Why a byte stream was rejected by the framer.
#[derive(Clone, Copy, Debug, PartialEq, Eq, Structural)]
pub enum SlipError {
    /// The frame ended before the two checksum bytes.
    MissingCrc,
    /// The checksum bytes do not match the frame body.
    MismatchedCrc,
    /// An escape introducer was followed by an undefined byte.
    InvalidEscape,
}

/// Frame delimiter byte.
pub const END: u8 = 0xC0;

/// Escape introducer byte.
pub const ESC: u8 = 0xDB;

/// Escaped stand-in for a literal `END`.
pub const ESC_END: u8 = 0xDC;

/// Escaped stand-in for a literal `ESC`.
pub const ESC_ESC: u8 = 0xDD;

/// Sum of the bytes of `s` as an unbounded integer.
pub open spec fn byte_sum(s: Seq<u8>) -> int
    decreases s.len(),
{
    if s.len() == 0 {
        0
    } else {
        byte_sum(s.drop_last()) + s.last()
    }
}

/// The frame checksum: the two's complement of the 16-bit modular byte sum.
pub open spec fn crc16_spec(s: Seq<u8>) -> u16 {
    ((0x10000 - (byte_sum(s) % 0x10000)) % 0x10000) as u16
}

proof fn lemma_byte_sum_nonneg(s: Seq<u8>)
    ensures
        byte_sum(s) >= 0,
    decreases s.len(),
{
    if s.len() > 0 {
        lemma_byte_sum_nonneg(s.drop_last());
    }
}

proof fn lemma_byte_sum_push(s: Seq<u8>, b: u8)
    ensures
        byte_sum(s.push(b)) == byte_sum(s) + b,
{
    assert(s.push(b).drop_last() =~= s);
}

/// The checksum appended to every frame. Per the device protocol this is a
/// plain modular sum, not a cyclic redundancy check, but the protocol calls
/// it a CRC and the name is kept.
pub fn crc16(data: &[u8]) -> (r: u16)
    ensures
        r == crc16_spec(data@),
{
    let mut crc: u16 = 0;
    let mut i: usize = 0;
    while i < data.len()
        invariant
            i <= data@.len(),
            crc == byte_sum(data@.subrange(0, i as int)) % 0x10000,
        decreases data@.len() - i,
    {
        proof {
            let prefix = data@.subrange(0, i as int);
            lemma_byte_sum_push(prefix, data@[i as int]);
            assert(prefix.push(data@[i as int]) =~= data@.subrange(0, i + 1));
            lemma_byte_sum_nonneg(prefix);
            vstd::arithmetic::div_mod::lemma_add_mod_noop(
                byte_sum(prefix),
                data@[i as int] as int,
                0x10000,
            );
            vstd::arithmetic::div_mod::lemma_small_mod(data@[i as int] as nat, 0x10000);
        }
        crc = crc.wrapping_add(data[i] as u16);
        i += 1;
    }
    proof {
        assert(data@.subrange(0, data@.len() as int) =~= data@);
        lemma_byte_sum_nonneg(data@);
        vstd::arithmetic::div_mod::lemma_mod_bound(byte_sum(data@), 0x10000);
    }
    let flipped: u16 = !crc;
    assert(flipped == 0xFFFFu16 - crc) by (bit_vector)
        requires
            flipped == !crc,
    ;
    flipped.wrapping_add(1)
}

/// The escaped form of one payload byte: `END` and `ESC` are replaced by
/// two-byte escape sequences, every other byte stands for itself.
pub open spec fn escape_byte(b: u8) -> Seq<u8> {
    if b == ESC {
        seq![ESC, ESC_ESC]
    } else if b == END {
        seq![ESC, ESC_END]
    } else {
        seq![b]
    }
}

/// The escaped form of a payload.
pub open spec fn escape_seq(s: Seq<u8>) -> Seq<u8>
    decreases s.len(),
{
    if s.len() == 0 {
        Seq::empty()
    } else {
        escape_seq(s.drop_last()) + escape_byte(s.last())
    }
}

/// The full wire form of a frame: a leading `END`, the escaped payload, the
/// two raw little-endian checksum bytes, and a trailing `END`.
pub open spec fn encode_spec(s: Seq<u8>) -> Seq<u8> {
    seq![END] + escape_seq(s) + crate::wire::u16_le_bytes(crc16_spec(s)) + seq![END]
}

proof fn lemma_escape_seq_push(s: Seq<u8>, b: u8)
    ensures
        escape_seq(s.push(b)) == escape_seq(s) + escape_byte(b),
{
    assert(s.push(b).drop_last() =~= s);
}

/// Wrap a payload for the wire.
pub fn encode_frame(data: &[u8]) -> (out: Vec<u8>)
    ensures
        out@ == encode_spec(data@),
{
    let crc = crc16(data);
    let mut out: Vec<u8> = Vec::new();
    out.push(END);
    assert(out@ =~= seq![END] + escape_seq(data@.subrange(0, 0)));
    let mut i: usize = 0;
    while i < data.len()
        invariant
            i <= data@.len(),
            out@ == seq![END] + escape_seq(data@.subrange(0, i as int)),
        decreases data@.len() - i,
    {
        let ghost prefix = data@.subrange(0, i as int);
        proof {
            lemma_escape_seq_push(prefix, data@[i as int]);
            assert(prefix.push(data@[i as int]) =~= data@.subrange(0, i + 1));
        }
        let b = data[i];
        if b == ESC {
            out.push(ESC);
            out.push(ESC_ESC);
        } else if b == END {
            out.push(ESC);
            out.push(ESC_END);
        } else {
            out.push(b);
        }
        assert(out@ =~= seq![END] + escape_seq(data@.subrange(0, i + 1)));
        i += 1;
    }
    assert(data@.subrange(0, data@.len() as int) =~= data@);
    out.push((crc % 0x100) as u8);
    out.push(((crc / 0x100) % 0x100) as u8);
    out.push(END);
    assert(out@ =~= encode_spec(data@));
    out
}

/// Verify and strip the trailing checksum of a delimited frame.
///
/// A frame shorter than the two checksum bytes is rejected as missing its
/// checksum; a frame whose last two bytes disagree with the checksum of the
/// rest is rejected as mismatched; otherwise the body is returned with the
/// checksum bytes removed.
pub fn check_and_remove_crc(frame: Vec<u8>) -> (r: Result<Vec<u8>, SlipError>)
    ensures
        match r {
            Ok(body) => {
                &&& frame@.len() >= 2
                &&& body@ == frame@.subrange(0, frame@.len() - 2)
                &&& u16_of_le(frame@[frame@.len() - 2], frame@[frame@.len() - 1]) == crc16_spec(
                    body@,
                )
            },
            Err(SlipError::MissingCrc) => frame@.len() < 2,
            Err(SlipError::MismatchedCrc) => {
                &&& frame@.len() >= 2
                &&& u16_of_le(frame@[frame@.len() - 2], frame@[frame@.len() - 1]) != crc16_spec(
                    frame@.subrange(0, frame@.len() - 2),
                )
            },
            Err(SlipError::InvalidEscape) => false,
        },
{
    if frame.len() < 2 {
        return Err(SlipError::MissingCrc);
    }
    let len = frame.len() - 2;
    let lo = frame[len];
    let hi = frame[len + 1];
    let provided: u16 = lo as u16 + (hi as u16) * 0x100;
    let body = vstd::slice::slice_subrange(frame.as_slice(), 0, len);
    let calculated = crc16(body);
    if provided != calculated {
        return Err(SlipError::MismatchedCrc);
    }
    let mut frame = frame;
    frame.truncate(len);
    Ok(frame)
}

/// What one decoder step produced.
pub enum SlipStep {
    /// The byte was consumed; no frame is complete yet.
    Pending,
    /// A terminating delimiter completed this frame body.
    Frame(Vec<u8>),
    /// The byte stream was rejected; the decoder has reset itself.
    Failed(SlipError),
}

/// The ghost mirror of [`SlipStep`], used to state the decoder's behaviour.
pub enum SlipOutcome {
    Pending,
    Done { frame: Seq<u8> },
    Bad { error: SlipError },
}

/// One step of the decoder: from a buffer of unescaped bytes, the
/// escape-pending flag, and the next wire byte, to the new buffer, the new
/// flag, and what the step produced.
///
/// A delimiter on an empty buffer is idle padding and is skipped. A
/// delimiter on a non-empty buffer closes the frame: its last two bytes
/// must hold the checksum of the rest. After a completed or rejected
/// frame the buffer is empty again.
pub open spec fn slip_step(buf: Seq<u8>, esc: bool, b: u8) -> (Seq<u8>, bool, SlipOutcome) {
    if esc {
        if b == ESC_ESC {
            (buf.push(ESC), false, SlipOutcome::Pending)
        } else if b == ESC_END {
            (buf.push(END), false, SlipOutcome::Pending)
        } else {
            (Seq::empty(), false, SlipOutcome::Bad { error: SlipError::InvalidEscape })
        }
    } else if b == END {
        if buf.len() == 0 {
            (buf, false, SlipOutcome::Pending)
        } else if buf.len() < 2 {
            (Seq::empty(), false, SlipOutcome::Bad { error: SlipError::MissingCrc })
        } else {
            let body = buf.subrange(0, buf.len() - 2);
            if u16_of_le(buf[buf.len() - 2], buf[buf.len() - 1]) == crc16_spec(body) {
                (Seq::empty(), false, SlipOutcome::Done { frame: body })
            } else {
                (Seq::empty(), false, SlipOutcome::Bad { error: SlipError::MismatchedCrc })
            }
        }
    } else if b == ESC {
        (buf, true, SlipOutcome::Pending)
    } else {
        (buf.push(b), false, SlipOutcome::Pending)
    }
}

/// Incremental decoder for the framing: fed one wire byte at a time, it
/// unescapes the body, watches for the closing delimiter, and hands back
/// the checked frame body.
pub struct SlipDecoder {
    buf: Vec<u8>,
    esc: bool,
}

impl SlipDecoder {
    /// The unescaped bytes of the frame being assembled.
    pub closed spec fn pending(self) -> Seq<u8> {
        self.buf@
    }

    /// Whether the last byte consumed was an unresolved escape introducer.
    pub closed spec fn escaping(self) -> bool {
        self.esc
    }

    /// A fresh decoder, between frames.
    pub fn new() -> (r: SlipDecoder)
        ensures
            r.pending() == Seq::<u8>::empty(),
            !r.escaping(),
    {
        SlipDecoder { buf: Vec::new(), esc: false }
    }

    /// Consume one wire byte, stepping the decoder as [`slip_step`] says.
    pub fn push_byte(&mut self, b: u8) -> (r: SlipStep)
        ensures
            ({
                let (nbuf, nesc, out) = slip_step(old(self).pending(), old(self).escaping(), b);
                &&& final(self).pending() == nbuf
                &&& final(self).escaping() == nesc
                &&& match r {
                    SlipStep::Pending => out is Pending,
                    SlipStep::Frame(f) => out matches SlipOutcome::Done { frame } && f@ == frame,
                    SlipStep::Failed(e) => out matches SlipOutcome::Bad { error } && e == error,
                }
            }),
    {
        if self.esc {
            self.esc = false;
            if b == ESC_ESC {
                self.buf.push(ESC);
                SlipStep::Pending
            } else if b == ESC_END {
                self.buf.push(END);
                SlipStep::Pending
            } else {
                self.buf.clear();
                SlipStep::Failed(SlipError::InvalidEscape)
            }
        } else if b == END {
            if self.buf.len() == 0 {
                SlipStep::Pending
            } else {
                let mut frame: Vec<u8> = Vec::new();
                core::mem::swap(&mut self.buf, &mut frame);
                match check_and_remove_crc(frame) {
                    Ok(body) => SlipStep::Frame(body),
                    Err(e) => SlipStep::Failed(e),
                }
            }
        } else if b == ESC {
            self.esc = true;
            SlipStep::Pending
        } else {
            self.buf.push(b);
            SlipStep::Pending
        }
    }
}

/// The decoder state after consuming `bytes` one at a time, starting from
/// buffer `buf` and escape flag `esc`.
pub open spec fn slip_feed(buf: Seq<u8>, esc: bool, bytes: Seq<u8>) -> (Seq<u8>, bool)
    decreases bytes.len(),
{
    if bytes.len() == 0 {
        (buf, esc)
    } else {
        let stepped = slip_step(buf, esc, bytes.first());
        slip_feed(stepped.0, stepped.1, bytes.drop_first())
    }
}

proof fn lemma_slip_feed_one(buf: Seq<u8>, esc: bool, b: u8)
    ensures
        slip_feed(buf, esc, seq![b]) == (slip_step(buf, esc, b).0, slip_step(buf, esc, b).1),
{
    reveal_with_fuel(slip_feed, 2);
    assert(seq![b].first() == b);
    assert(seq![b].drop_first() =~= Seq::<u8>::empty());
}

proof fn lemma_slip_feed_append(buf: Seq<u8>, esc: bool, a: Seq<u8>, b: Seq<u8>)
    ensures
        slip_feed(buf, esc, a + b) == slip_feed(slip_feed(buf, esc, a).0, slip_feed(buf, esc, a).1, b),
    decreases a.len(),
{
    if a.len() == 0 {
        assert(a + b =~= b);
    } else {
        assert((a + b).first() == a.first());
        assert((a + b).drop_first() =~= a.drop_first() + b);
        let stepped = slip_step(buf, esc, a.first());
        lemma_slip_feed_append(stepped.0, stepped.1, a.drop_first(), b);
    }
}

/// The escaped form of a payload holds no bare delimiter: it never contains
/// `END`, and every `ESC` in it introduces a two-byte escape sequence.
pub proof fn lemma_escaped_body_has_no_delimiter(s: Seq<u8>, i: int)
    requires
        0 <= i < escape_seq(s).len(),
    ensures
        escape_seq(s)[i] != END,
        escape_seq(s)[i] == ESC ==> i + 1 < escape_seq(s).len() && (escape_seq(s)[i + 1] == ESC_ESC
            || escape_seq(s)[i + 1] == ESC_END),
    decreases s.len(),
{
    if s.len() > 0 {
        let prefix = escape_seq(s.drop_last());
        if i < prefix.len() {
            lemma_escaped_body_has_no_delimiter(s.drop_last(), i);
            if i + 1 == prefix.len() && prefix[i] == ESC {
                lemma_escaped_body_has_no_delimiter(s.drop_last(), i);
            }
        }
    }
}

/// Feeding the escaped form of `s` to a decoder that is not mid-escape
/// appends exactly `s` to its buffer.
proof fn lemma_slip_feed_escaped(buf: Seq<u8>, s: Seq<u8>)
    ensures
        slip_feed(buf, false, escape_seq(s)) == (buf + s, false),
    decreases s.len(),
{
    if s.len() == 0 {
        assert(buf + s =~= buf);
    } else {
        let butlast = s.drop_last();
        let last = s.last();
        lemma_slip_feed_escaped(buf, butlast);
        lemma_slip_feed_append(buf, false, escape_seq(butlast), escape_byte(last));
        let mid = buf + butlast;
        if last == ESC {
            assert(escape_byte(last) =~= seq![ESC] + seq![ESC_ESC]);
            lemma_slip_feed_append(mid, false, seq![ESC], seq![ESC_ESC]);
            lemma_slip_feed_one(mid, false, ESC);
            lemma_slip_feed_one(mid, true, ESC_ESC);
            assert(slip_feed(mid, false, escape_byte(last)) == (mid.push(ESC), false));
        } else if last == END {
            assert(escape_byte(last) =~= seq![ESC] + seq![ESC_END]);
            lemma_slip_feed_append(mid, false, seq![ESC], seq![ESC_END]);
            lemma_slip_feed_one(mid, false, ESC);
            lemma_slip_feed_one(mid, true, ESC_END);
            assert(slip_feed(mid, false, escape_byte(last)) == (mid.push(END), false));
        } else {
            assert(escape_byte(last) =~= seq![last]);
            lemma_slip_feed_one(mid, false, last);
            assert(slip_feed(mid, false, escape_byte(last)) == (mid.push(last), false));
        }
        assert(mid.push(last) =~= buf + s);
    }
}

/// Round trip of the framer: decoding the wire form of any payload, byte by
/// byte from an idle decoder, accepts every byte and delivers exactly that
/// payload when the closing delimiter arrives.
///
/// The two raw checksum bytes must not collide with the delimiter or escape
/// bytes; a payload whose checksum contains `END` or `ESC` ends its frame
/// early on the wire and cannot survive the trip.
pub proof fn lemma_slip_round_trip(s: Seq<u8>)
    requires
        crate::wire::u16_le_bytes(crc16_spec(s))[0] != END,
        crate::wire::u16_le_bytes(crc16_spec(s))[0] != ESC,
        crate::wire::u16_le_bytes(crc16_spec(s))[1] != END,
        crate::wire::u16_le_bytes(crc16_spec(s))[1] != ESC,
    ensures
        ({
            let before_close = slip_feed(Seq::empty(), false, encode_spec(s).drop_last());
            &&& before_close == (s + crate::wire::u16_le_bytes(crc16_spec(s)), false)
            &&& slip_step(before_close.0, before_close.1, END).2 == (SlipOutcome::Done { frame: s })
            &&& slip_feed(Seq::empty(), false, encode_spec(s)) == (Seq::<u8>::empty(), false)
        }),
{
    let crc_bytes = crate::wire::u16_le_bytes(crc16_spec(s));
    let lo = crc_bytes[0];
    let hi = crc_bytes[1];
    let opening = seq![END];
    let body = escape_seq(s);
    let wire = encode_spec(s);
    assert(wire.drop_last() =~= (opening + body) + crc_bytes);

    // The leading delimiter is skipped while the buffer is empty.
    lemma_slip_feed_one(Seq::empty(), false, END);
    assert(slip_feed(Seq::empty(), false, opening) == (Seq::<u8>::empty(), false));

    // The escaped body lands in the buffer unchanged.
    lemma_slip_feed_append(Seq::empty(), false, opening, body);
    lemma_slip_feed_escaped(Seq::empty(), s);
    assert(Seq::empty() + s =~= s);
    assert(slip_feed(Seq::empty(), false, opening + body) == (s, false));

    // The two raw checksum bytes are ordinary bytes and are buffered.
    lemma_slip_feed_append(Seq::empty(), false, opening + body, crc_bytes);
    assert(crc_bytes =~= seq![lo] + seq![hi]);
    lemma_slip_feed_append(s, false, seq![lo], seq![hi]);
    lemma_slip_feed_one(s, false, lo);
    lemma_slip_feed_one(s.push(lo), false, hi);
    assert(slip_feed(s, false, crc_bytes) == (s.push(lo).push(hi), false));
    let full = s.push(lo).push(hi);
    assert(full =~= s + crc_bytes);
    assert(slip_feed(Seq::empty(), false, wire.drop_last()) == (s + crc_bytes, false));

    // The closing delimiter checks the checksum and delivers the payload.
    assert(full.len() >= 2);
    assert(full.subrange(0, full.len() - 2) =~= s);
    crate::wire::lemma_u16_le_round_trip(crc16_spec(s));
    assert(u16_of_le(full[full.len() - 2], full[full.len() - 1]) == crc16_spec(s));
    assert(slip_step(full, false, END).2 == (SlipOutcome::Done { frame: s }));

    // And the decoder is idle again afterwards.
    assert(wire =~= wire.drop_last() + seq![END]);
    lemma_slip_feed_append(Seq::empty(), false, wire.drop_last(), seq![END]);
    lemma_slip_feed_one(full, false, END);
}

proof fn lemma_byte_sum_update(s: Seq<u8>, i: int, b: u8)
    requires
        0 <= i < s.len(),
    ensures
        byte_sum(s.update(i, b)) == byte_sum(s) - s[i] + b,
    decreases s.len(),
{
    if i == s.len() - 1 {
        assert(s.update(i, b).drop_last() =~= s.drop_last());
        assert(s.update(i, b).last() == b);
    } else {
        assert(s.update(i, b).drop_last() =~= s.drop_last().update(i, b));
        assert(s.update(i, b).last() == s.last());
        lemma_byte_sum_update(s.drop_last(), i, b);
    }
}

/// Corrupting any single byte of a frame body changes its checksum, so the
/// decoder rejects the altered frame as mismatched.
pub proof fn lemma_crc_detects_single_byte_change(s: Seq<u8>, i: int, b: u8)
    requires
        0 <= i < s.len(),
        b != s[i],
    ensures
        crc16_spec(s.update(i, b)) != crc16_spec(s),
{
    let m = 0x10000int;
    let sum1 = byte_sum(s);
    let sum2 = byte_sum(s.update(i, b));
    lemma_byte_sum_update(s, i, b);
    lemma_byte_sum_nonneg(s);
    lemma_byte_sum_nonneg(s.update(i, b));
    let d = b - s[i];
    assert(sum2 == sum1 + d);
    assert(-0x100 < d < 0x100 && d != 0);

    let k1 = sum1 % m;
    let k2 = sum2 % m;
    vstd::arithmetic::div_mod::lemma_mod_bound(sum1, m);
    vstd::arithmetic::div_mod::lemma_mod_bound(sum2, m);
    let q = sum1 / m;
    vstd::arithmetic::div_mod::lemma_fundamental_div_mod(sum1, m);
    assert(k1 != k2) by {
        if 0 <= k1 + d < m {
            assert(sum2 == q * m + (k1 + d));
            vstd::arithmetic::div_mod::lemma_fundamental_div_mod_converse_mod(sum2, m, q, k1 + d);
            assert(k2 == k1 + d);
        } else if k1 + d >= m {
            assert(sum2 == (q + 1) * m + (k1 + d - m));
            vstd::arithmetic::div_mod::lemma_fundamental_div_mod_converse_mod(
                sum2,
                m,
                q + 1,
                k1 + d - m,
            );
            assert(k2 == k1 + d - m);
        } else {
            assert(sum2 == (q - 1) * m + (k1 + d + m));
            vstd::arithmetic::div_mod::lemma_fundamental_div_mod_converse_mod(
                sum2,
                m,
                q - 1,
                k1 + d + m,
            );
            assert(k2 == k1 + d + m);
        }
    }
    assert((m - k1) % m != (m - k2) % m) by {
        vstd::arithmetic::div_mod::lemma_mod_self_0(m);
        if k1 != 0 {
            vstd::arithmetic::div_mod::lemma_small_mod((m - k1) as nat, m as nat);
        }
        if k2 != 0 {
            vstd::arithmetic::div_mod::lemma_small_mod((m - k2) as nat, m as nat);
        }
    }
}

} // verus!
