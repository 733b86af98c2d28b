//! Framing of the sensor's fixed 8-byte packets.
//!
//! Outbound frames carry a checksum in byte 5; inbound frames are accepted on
//! their sentinels and length alone. The checksum of a reply is never compared
//! by `decode` or `parse_ack`: callers who want that stricter test call
//! `checksum_matches` themselves.
use vstd::prelude::*;

verus! {

/// Sentinel byte that opens every frame.
pub const FRAME_START: u8 = 0xF5;

/// Sentinel byte that closes every frame.
pub const FRAME_END: u8 = 0xF5;

/// Every frame, in both directions, is exactly this many bytes long.
pub const FRAME_LEN: usize = 8;

pub const ACK_SUCCESS: u8 = 0x00;
pub const ACK_FAIL: u8 = 0x01;
pub const ACK_FULL: u8 = 0x04;
pub const ACK_NOUSER: u8 = 0x05;
pub const ACK_USER_OCCUPIED: u8 = 0x06;
pub const ACK_FINGER_OCCUPIED: u8 = 0x07;
pub const ACK_TIMEOUT: u8 = 0x08;

/// Outcome code that the sensor reports in byte 4 of a reply.
///
/// `Timeout` is the sensor's own report that no finger was presented in
/// time; a channel that delivers no reply at all is a transport failure,
/// which this type does not represent.
#[derive(PartialEq, Eq, Structural, Clone, Copy, Debug)]
pub enum AckCode {
    Success,
    Fail,
    DatabaseFull,
    NoUser,
    UserIdOccupied,
    FingerprintOccupied,
    Timeout,
    /// A byte outside the table, kept as it came.
    Unknown(u8),
}

/// A reply that is not a frame at all.
#[derive(PartialEq, Eq, Structural, Clone, Copy, Debug)]
pub enum DecodeError {
    /// Wrong length, or a start or end sentinel that does not match.
    MalformedFrame,
}

/// The fields of a well-framed reply. `param3` (byte 4) is kept raw: it is
/// the acknowledgment code for most commands and a permission level for some.
#[derive(PartialEq, Eq, Structural, Clone, Copy, Debug)]
pub struct Frame {
    pub command: u8,
    pub param1: u8,
    pub param2: u8,
    pub param3: u8,
    pub checksum: u8,
}

/// The acknowledgment that byte `b` stands for.
pub open spec fn ack_of(b: u8) -> AckCode {
    if b == ACK_SUCCESS {
        AckCode::Success
    } else if b == ACK_FAIL {
        AckCode::Fail
    } else if b == ACK_FULL {
        AckCode::DatabaseFull
    } else if b == ACK_NOUSER {
        AckCode::NoUser
    } else if b == ACK_USER_OCCUPIED {
        AckCode::UserIdOccupied
    } else if b == ACK_FINGER_OCCUPIED {
        AckCode::FingerprintOccupied
    } else if b == ACK_TIMEOUT {
        AckCode::Timeout
    } else {
        AckCode::Unknown(b)
    }
}

/// The XOR of bytes 1 through 5 of `p`.
pub open spec fn xor_1_to_5(p: Seq<u8>) -> u8
    recommends
        p.len() >= 6,
{
    p[1] ^ p[2] ^ p[3] ^ p[4] ^ p[5]
}

/// The checksum of a request: command and parameters XORed together.
pub open spec fn request_checksum(cmd: u8, p1: u8, p2: u8, p3: u8) -> u8 {
    cmd ^ p1 ^ p2 ^ p3
}

/// The frame that carries command `cmd` with parameters `p1`, `p2`, `p3`.
pub open spec fn frame_of(cmd: u8, p1: u8, p2: u8, p3: u8) -> Seq<u8> {
    seq![FRAME_START, cmd, p1, p2, p3, request_checksum(cmd, p1, p2, p3), 0u8, FRAME_END]
}

/// `s` has the length and the two sentinels of a frame.
pub open spec fn well_framed(s: Seq<u8>) -> bool {
    s.len() == FRAME_LEN && s[0] == FRAME_START && s[7] == FRAME_END
}

/// The fields of a well-framed byte sequence.
pub open spec fn frame_fields(s: Seq<u8>) -> Frame
    recommends
        s.len() == FRAME_LEN,
{
    Frame { command: s[1], param1: s[2], param2: s[3], param3: s[4], checksum: s[5] }
}

/// What `decode` makes of `s`.
pub open spec fn decoded(s: Seq<u8>) -> Result<Frame, DecodeError> {
    if well_framed(s) {
        Ok(frame_fields(s))
    } else {
        Err(DecodeError::MalformedFrame)
    }
}

/// What `parse_ack` makes of `s`.
pub open spec fn ack_reply(s: Seq<u8>) -> Result<AckCode, DecodeError> {
    if well_framed(s) {
        Ok(ack_of(s[4]))
    } else {
        Err(DecodeError::MalformedFrame)
    }
}

impl AckCode {
    /// The acknowledgment that byte `b` stands for; bytes outside the table
    /// come back as `Unknown(b)`.
    pub fn from_byte(b: u8) -> (r: AckCode)
        ensures
            r == ack_of(b),
    {
        match b {
            ACK_SUCCESS => AckCode::Success,
            ACK_FAIL => AckCode::Fail,
            ACK_FULL => AckCode::DatabaseFull,
            ACK_NOUSER => AckCode::NoUser,
            ACK_USER_OCCUPIED => AckCode::UserIdOccupied,
            ACK_FINGER_OCCUPIED => AckCode::FingerprintOccupied,
            ACK_TIMEOUT => AckCode::Timeout,
            other => AckCode::Unknown(other),
        }
    }
}

impl Frame {
    /// Byte 4 read as an acknowledgment code.
    pub fn ack(&self) -> (r: AckCode)
        ensures
            r == ack_of(self.param3),
    {
        AckCode::from_byte(self.param3)
    }
}

/// Checksum of a packet: the XOR of bytes 1 through 5.
pub fn checksum(packet: &[u8]) -> (r: u8)
    requires
        packet@.len() >= 6,
    ensures
        r == xor_1_to_5(packet@),
{
    packet[1] ^ packet[2] ^ packet[3] ^ packet[4] ^ packet[5]
}

/// Encodes command `cmd` with parameters `p1`, `p2`, `p3` as a frame: the
/// checksum is taken over bytes 1 to 5 while byte 5 still holds zero, then
/// written into byte 5.
pub fn build_command(cmd: u8, p1: u8, p2: u8, p3: u8) -> (r: Vec<u8>)
    ensures
        r@ == frame_of(cmd, p1, p2, p3),
{
    let mut packet: Vec<u8> = vec![FRAME_START, cmd, p1, p2, p3, 0, 0, FRAME_END];
    let c = checksum(packet.as_slice());
    assert(c == request_checksum(cmd, p1, p2, p3)) by {
        assert(cmd ^ p1 ^ p2 ^ p3 ^ 0u8 == cmd ^ p1 ^ p2 ^ p3) by (bit_vector);
    }
    packet.set(5, c);
    assert(packet@ =~= frame_of(cmd, p1, p2, p3));
    packet
}

/// Checks the length and the two sentinels of a reply and splits it into
/// its fields. The checksum byte is taken as given.
pub fn decode(resp: &[u8]) -> (r: Result<Frame, DecodeError>)
    ensures
        r == decoded(resp@),
        r is Err <==> !well_framed(resp@),
{
    if resp.len() != FRAME_LEN || resp[0] != FRAME_START || resp[7] != FRAME_END {
        return Err(DecodeError::MalformedFrame);
    }
    Ok(Frame { command: resp[1], param1: resp[2], param2: resp[3], param3: resp[4], checksum: resp[5] })
}

/// The acknowledgment carried by a reply, or `MalformedFrame` where the reply
/// is not a frame. The checksum byte is not compared.
pub fn parse_ack(resp: &[u8]) -> (r: Result<AckCode, DecodeError>)
    ensures
        r == ack_reply(resp@),
        r is Err <==> !well_framed(resp@),
{
    match decode(resp) {
        Ok(frame) => Ok(frame.ack()),
        Err(e) => Err(e),
    }
}

/// Whether `resp` is a frame whose byte 5 is the XOR of bytes 1 to 4, as
/// `build_command` writes it. Not part of `decode`.
pub fn checksum_matches(resp: &[u8]) -> (r: bool)
    ensures
        r == (well_framed(resp@)
            && resp@[5] == request_checksum(resp@[1], resp@[2], resp@[3], resp@[4])),
{
    if resp.len() != FRAME_LEN || resp[0] != FRAME_START || resp[7] != FRAME_END {
        return false;
    }
    resp[5] == resp[1] ^ resp[2] ^ resp[3] ^ resp[4]
}

/// Every encoded frame is eight bytes long between its two sentinels; its
/// byte 5 is the XOR of bytes 1 to 5 taken while byte 5 held zero, so
/// `checksum_matches` accepts it; and decoding it gives back the command and
/// the three parameters.
pub proof fn lemma_encode_decode(cmd: u8, p1: u8, p2: u8, p3: u8)
    ensures
        ({
            let f = frame_of(cmd, p1, p2, p3);
            &&& well_framed(f)
            &&& f[5] == xor_1_to_5(f.update(5, 0u8))
            &&& f[5] == request_checksum(f[1], f[2], f[3], f[4])
            &&& decoded(f) == Ok::<Frame, DecodeError>(
                Frame { command: cmd, param1: p1, param2: p2, param3: p3, checksum: f[5] },
            )
            &&& ack_reply(f) == Ok::<AckCode, DecodeError>(ack_of(p3))
        }),
{
    let f = frame_of(cmd, p1, p2, p3);
    let z = f.update(5, 0u8);
    assert(z[1] == cmd && z[2] == p1 && z[3] == p2 && z[4] == p3 && z[5] == 0u8);
    assert(cmd ^ p1 ^ p2 ^ p3 ^ 0u8 == cmd ^ p1 ^ p2 ^ p3) by (bit_vector);
}

/// Each byte of the table maps to its named acknowledgment; every other byte
/// maps to `Unknown` carrying that very byte.
pub proof fn lemma_ack_table(b: u8)
    ensures
        ack_of(0x00) == AckCode::Success,
        ack_of(0x01) == AckCode::Fail,
        ack_of(0x04) == AckCode::DatabaseFull,
        ack_of(0x05) == AckCode::NoUser,
        ack_of(0x06) == AckCode::UserIdOccupied,
        ack_of(0x07) == AckCode::FingerprintOccupied,
        ack_of(0x08) == AckCode::Timeout,
        (b != 0x00 && b != 0x01 && b != 0x04 && b != 0x05 && b != 0x06 && b != 0x07 && b
            != 0x08) <==> ack_of(b) == AckCode::Unknown(b),
        ack_of(b) is Unknown ==> ack_of(b) == AckCode::Unknown(b),
{
}

} // verus!
