//! Byte-level frame decoding: sentinel checks and the LRC checksum.

use vstd::prelude::*;

verus! {

/// Leading sentinel of every frame; excluded from the checksum input.
pub const SOH: u8 = 0x01;
/// Sentinel between the address byte and the control byte.
pub const STX: u8 = 0x02;
/// Sentinel that closes the payload; the checksum byte follows it.
pub const ETX: u8 = 0x03;

/// XOR of all bytes of `s`, folded left to right into one byte.
pub open spec fn xor_fold(s: Seq<u8>) -> u8
    decreases s.len(),
{
    if s.len() == 0 {
        0u8
    } else {
        xor_fold(s.drop_last()) ^ s.last()
    }
}

/// The protocol's final adjustment of the folded byte: mask to 7 bits,
/// then lift values below 32 into the printable range by adding 32.
pub open spec fn lrc_adjust(x: u8) -> u8 {
    let m = x & 0x7F;
    if m < 32 {
        (m + 32) as u8
    } else {
        m
    }
}

/// The canonical checksum of a byte sequence: XOR-fold, then adjust.
pub open spec fn lrc_spec(s: Seq<u8>) -> u8 {
    lrc_adjust(xor_fold(s))
}

/// The checksum of any byte sequence lies in the printable band `[32, 127]`.
pub proof fn lemma_lrc_in_range(s: Seq<u8>)
    ensures
        32 <= lrc_spec(s) <= 127,
{
    let x = xor_fold(s);
    assert(x & 0x7F < 128) by (bit_vector);
}

/// A parsed protocol frame, fields laid out as they arrive on the wire.
#[derive(Debug, Clone, PartialEq, Eq)]
pub struct ProtocolFrame {
    /// Leading sentinel; always `SOH` in a frame built by `parse_raw_data`.
    pub soh: u8,
    /// Console address; included in the checksum input.
    pub address: u8,
    /// Second sentinel; always `STX` in a parsed frame.
    pub stx: u8,
    /// Control byte; included in the checksum input.
    pub ctrl: u8,
    /// Variable-length payload between the control byte and the end sentinel.
    pub message: Vec<u8>,
    /// Closing sentinel; always `ETX` in a parsed frame.
    pub etx: u8,
    /// Checksum byte as transmitted.
    pub lrc: u8,
}

/// The bytes a frame's checksum is computed over:
/// address, STX, control, payload, ETX — the leading SOH is excluded.
pub open spec fn lrc_input_seq(f: ProtocolFrame) -> Seq<u8> {
    seq![f.address, f.stx, f.ctrl] + f.message@ + seq![f.etx]
}

impl ProtocolFrame {
    /// Compute the LRC for a byte slice using the protocol rule:
    /// XOR all bytes, mask with 0x7F, then if below 32 add 32.
    ///
    /// The same function serves to compute a checksum when building a frame
    /// and to validate one when parsing.
    pub fn compute_lrc_bytes(bytes: &[u8]) -> (r: u8)
        ensures
            r == lrc_spec(bytes@),
            32 <= r <= 127,
    {
        let mut xor: u8 = 0;
        let mut i: usize = 0;
        while i < bytes.len()
            invariant
                i <= bytes@.len(),
                xor == xor_fold(bytes@.take(i as int)),
            decreases bytes@.len() - i,
        {
            proof {
                assert(bytes@.take(i + 1).drop_last() =~= bytes@.take(i as int));
                assert(bytes@.take(i + 1).last() == bytes@[i as int]);
            }
            xor = xor ^ bytes[i];
            i = i + 1;
        }
        proof {
            assert(bytes@.take(bytes@.len() as int) =~= bytes@);
        }
        let mut lrc = xor & 0x7F;
        proof {
            assert(xor & 0x7F < 128) by (bit_vector);
        }
        if lrc < 32 {
            lrc = lrc + 32;
        }
        lrc
    }

    /// The slice of bytes used for this frame's LRC calculation:
    /// address, STX, control, payload bytes, ETX.
    pub fn lrc_input_bytes(&self) -> (v: Vec<u8>)
        ensures
            v@ == lrc_input_seq(*self),
    {
        let mut v: Vec<u8> = Vec::new();
        v.push(self.address);
        v.push(self.stx);
        v.push(self.ctrl);
        let mut i: usize = 0;
        while i < self.message.len()
            invariant
                i <= self.message@.len(),
                v@ == seq![self.address, self.stx, self.ctrl] + self.message@.take(i as int),
            decreases self.message@.len() - i,
        {
            v.push(self.message[i]);
            proof {
                assert(self.message@.take(i + 1) =~= self.message@.take(i as int)
                    + seq![self.message@[i as int]]);
            }
            i = i + 1;
        }
        proof {
            assert(self.message@.take(self.message@.len() as int) =~= self.message@);
        }
        v.push(self.etx);
        proof {
            assert(v@ =~= lrc_input_seq(*self));
        }
        v
    }

    /// The checksum this frame's current fields call for.
    pub fn expected_lrc(&self) -> (r: u8)
        ensures
            r == lrc_spec(lrc_input_seq(*self)),
    {
        let bytes = self.lrc_input_bytes();
        Self::compute_lrc_bytes(bytes.as_slice())
    }

    /// Whether the stored checksum matches the recomputed one.
    pub fn validate_lrc(&self) -> (r: bool)
        ensures
            r == (lrc_spec(lrc_input_seq(*self)) == self.lrc),
    {
        self.expected_lrc() == self.lrc
    }
}

/// Why a chunk of bytes was rejected as a frame, one variant per
/// short-circuiting check of the validation sequence.
#[derive(Debug, Clone, Copy, PartialEq, Eq, Structural)]
pub enum FrameError {
    /// Fewer than 5 bytes: not even an empty-payload frame fits.
    TooShort,
    /// The first byte is not the SOH sentinel.
    BadStart,
    /// The third byte is not the STX sentinel.
    BadFrameStart,
    /// The second-to-last byte is not the ETX sentinel.
    BadFrameEnd,
    /// The sentinels are in place but the trailing checksum byte does not
    /// match the recomputed one.
    ChecksumMismatch,
}

/// The payload region of a raw chunk: the bytes between the control byte and
/// the closing sentinel. A minimum-length chunk carries an empty payload.
pub open spec fn payload_of(data: Seq<u8>) -> Seq<u8> {
    if data.len() >= 6 {
        data.subrange(4, data.len() - 2)
    } else {
        Seq::<u8>::empty()
    }
}

/// The checksum input a raw chunk calls for, assembled from its extracted
/// fields: address, STX position, control, payload, ETX position.
pub open spec fn lrc_input_of(data: Seq<u8>) -> Seq<u8> {
    seq![data[1], data[2], data[3]] + payload_of(data) + seq![data[data.len() - 2]]
}

/// Classification of a raw chunk by the frame validation sequence:
/// `None` means the chunk is a valid frame, `Some(e)` names the first
/// check it fails.
pub open spec fn frame_check(data: Seq<u8>) -> Option<FrameError> {
    if data.len() < 5 {
        Some(FrameError::TooShort)
    } else if data[0] != SOH {
        Some(FrameError::BadStart)
    } else if data[2] != STX {
        Some(FrameError::BadFrameStart)
    } else if data[data.len() - 2] != ETX {
        Some(FrameError::BadFrameEnd)
    } else if lrc_spec(lrc_input_of(data)) != data.last() {
        Some(FrameError::ChecksumMismatch)
    } else {
        None
    }
}

/// Parse raw bytes into a `ProtocolFrame`.
///
/// The checks run in order — length, SOH, STX, ETX, checksum — and the first
/// failure is returned. On success every field of the frame is the
/// corresponding region of the input.
pub fn parse_raw_data(data: &[u8]) -> (r: Result<ProtocolFrame, FrameError>)
    ensures
        match r {
            Ok(f) => {
                &&& frame_check(data@) is None
                &&& f.soh == SOH
                &&& f.address == data@[1]
                &&& f.stx == STX
                &&& f.ctrl == data@[3]
                &&& f.message@ == payload_of(data@)
                &&& f.etx == ETX
                &&& f.lrc == data@.last()
                &&& lrc_spec(lrc_input_seq(f)) == f.lrc
            },
            Err(e) => frame_check(data@) == Some(e),
        },
{
    let n = data.len();
    if n < 5 {
        return Err(FrameError::TooShort);
    }
    if data[0] != SOH {
        return Err(FrameError::BadStart);
    }
    if data[2] != STX {
        return Err(FrameError::BadFrameStart);
    }
    if data[n - 2] != ETX {
        return Err(FrameError::BadFrameEnd);
    }

    let mut message: Vec<u8> = Vec::new();
    let mut i: usize = 4;
    while i < n - 2
        invariant
            4 <= i,
            i <= n - 2 || i == 4,
            n == data@.len(),
            5 <= n,
            message@ == data@.subrange(4, i as int),
        decreases n - 2 - i,
    {
        message.push(data[i]);
        proof {
            assert(data@.subrange(4, i + 1) =~= data@.subrange(4, i as int)
                + seq![data@[i as int]]);
        }
        i = i + 1;
    }
    proof {
        assert(message@ =~= payload_of(data@));
    }

    let frame = ProtocolFrame {
        soh: data[0],
        address: data[1],
        stx: data[2],
        ctrl: data[3],
        message,
        etx: data[n - 2],
        lrc: data[n - 1],
    };

    proof {
        assert(lrc_input_seq(frame) =~= lrc_input_of(data@));
    }

    if !frame.validate_lrc() {
        return Err(FrameError::ChecksumMismatch);
    }

    Ok(frame)
}

/// The bytes a sender puts on the wire for a given address, control byte and
/// payload: sentinels in place and the canonical checksum embedded at the end.
pub open spec fn frame_bytes(address: u8, ctrl: u8, payload: Seq<u8>) -> Seq<u8> {
    let body = seq![address, STX, ctrl] + payload + seq![ETX];
    seq![SOH] + body + seq![lrc_spec(body)]
}

/// Round-trip validity: a frame built with correct sentinels and the
/// computed checksum embedded passes every decode check, and its stored
/// checksum byte equals the one recomputed from the decoded fields.
pub proof fn lemma_round_trip(address: u8, ctrl: u8, payload: Seq<u8>)
    ensures
        frame_check(frame_bytes(address, ctrl, payload)) is None,
        frame_bytes(address, ctrl, payload).last()
            == lrc_spec(lrc_input_of(frame_bytes(address, ctrl, payload))),
{
    let body = seq![address, STX, ctrl] + payload + seq![ETX];
    let data = seq![SOH] + body + seq![lrc_spec(body)];
    assert(data.len() == payload.len() + 6);
    assert(data[0] == SOH);
    assert(data[1] == address);
    assert(data[2] == STX);
    assert(data[3] == ctrl);
    assert(data[data.len() - 2] == ETX);
    assert(data.last() == lrc_spec(body));
    assert(payload_of(data) =~= payload);
    assert(lrc_input_of(data) =~= body);
}

/// Chunks shorter than the minimum frame length are always classified
/// `TooShort`, whatever their bytes.
pub proof fn lemma_short_chunk_too_short(data: Seq<u8>)
    requires
        data.len() < 5,
    ensures
        frame_check(data) == Some(FrameError::TooShort),
{
}

/// Overwriting a sentinel position of a valid frame with a wrong value
/// yields that sentinel's own error — never `ChecksumMismatch`.
pub proof fn lemma_sentinel_mutation(data: Seq<u8>, i: int, b: u8)
    requires
        frame_check(data) is None,
        i == 0 || i == 2 || i == data.len() - 2,
        b != data[i],
    ensures
        i == 0 ==> frame_check(data.update(i, b)) == Some(FrameError::BadStart),
        i == 2 ==> frame_check(data.update(i, b)) == Some(FrameError::BadFrameStart),
        i == data.len() - 2 ==> frame_check(data.update(i, b))
            == Some(FrameError::BadFrameEnd),
{
}

/// XOR-folding is pointwise: replacing one byte of the input changes the
/// fold by exactly the XOR of the old and new byte.
pub proof fn lemma_xor_fold_update(s: Seq<u8>, i: int, b: u8)
    requires
        0 <= i < s.len(),
    ensures
        xor_fold(s.update(i, b)) == (xor_fold(s) ^ s[i] ^ b),
    decreases s.len(),
{
    let u = s.update(i, b);
    let t = xor_fold(s.drop_last());
    let l = s.last();
    let si = s[i];
    if i == s.len() - 1 {
        assert(u.drop_last() =~= s.drop_last());
        assert(u.last() == b);
        assert((t ^ l) ^ l ^ b == t ^ b) by (bit_vector);
    } else {
        assert(u.drop_last() =~= s.drop_last().update(i, b));
        lemma_xor_fold_update(s.drop_last(), i, b);
        assert(u.last() == l);
        assert((t ^ si ^ b) ^ l == (t ^ l) ^ si ^ b) by (bit_vector);
    }
}

/// Corrupting a single byte of a valid frame's address, control byte or
/// payload is always caught by the checksum, provided the change touches a
/// bit the checksum reliably sees. Bit 7 it never sees — the 0x7F mask
/// removes it — and a change of bit 5 alone can be absorbed by the add-32
/// adjustment, so a corruption confined to those two bits (an XOR with
/// 0x20, 0x80 or 0xA0) can produce a colliding frame that decodes cleanly.
pub proof fn lemma_flip_detected(data: Seq<u8>, i: int, b: u8)
    requires
        frame_check(data) is None,
        i == 1 || (data.len() >= 6 && i == 3) || (4 <= i < data.len() - 2),
        ((b ^ data[i]) & 0x5F) != 0,
    ensures
        frame_check(data.update(i, b)) == Some(FrameError::ChecksumMismatch),
{
    let u = data.update(i, b);
    assert(u[0] == data[0]);
    assert(u[2] == data[2]);
    assert(u[u.len() - 2] == data[data.len() - 2]);
    assert(u.last() == data.last());
    assert(lrc_input_of(u) =~= lrc_input_of(data).update(i - 1, b));
    assert(lrc_input_of(data)[i - 1] == data[i]);
    lemma_xor_fold_update(lrc_input_of(data), i - 1, b);
    let x = xor_fold(lrc_input_of(data));
    let c = data[i];
    let d = b ^ c;
    assert(xor_fold(lrc_input_of(u)) == x ^ c ^ b);
    assert(x ^ c ^ b == x ^ d) by (bit_vector)
        requires
            d == b ^ c,
    ;
    assert(lrc_adjust(x) != lrc_adjust(x ^ d)) by (bit_vector)
        requires
            (d & 0x5F) != 0,
    ;
}

/// The exclusion in [`lemma_flip_detected`] is no accident: flipping only
/// bit 7 of one byte slips through every check — the 0x7F mask removes that
/// bit from the fold — and the corrupted frame still decodes cleanly.
pub proof fn lemma_invisible_flip_collides(data: Seq<u8>, i: int, b: u8)
    requires
        frame_check(data) is None,
        i == 1 || (data.len() >= 6 && i == 3) || (4 <= i < data.len() - 2),
        b != data[i],
        ((b ^ data[i]) & 0x7F) == 0,
    ensures
        frame_check(data.update(i, b)) is None,
{
    let u = data.update(i, b);
    assert(u[0] == data[0]);
    assert(u[2] == data[2]);
    assert(u[u.len() - 2] == data[data.len() - 2]);
    assert(u.last() == data.last());
    assert(lrc_input_of(u) =~= lrc_input_of(data).update(i - 1, b));
    assert(lrc_input_of(data)[i - 1] == data[i]);
    lemma_xor_fold_update(lrc_input_of(data), i - 1, b);
    let x = xor_fold(lrc_input_of(data));
    let c = data[i];
    let d = b ^ c;
    assert(xor_fold(lrc_input_of(u)) == x ^ c ^ b);
    assert(x ^ c ^ b == x ^ d) by (bit_vector)
        requires
            d == b ^ c,
    ;
    assert(lrc_adjust(x) == lrc_adjust(x ^ d)) by (bit_vector)
        requires
            (d & 0x7F) == 0,
    ;
}

} // verus!
