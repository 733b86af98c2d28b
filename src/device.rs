//! The sensor's operations: the request frame each one sends and what each
//! one makes of the reply. The round trip itself belongs to whoever owns the
//! channel; these functions take the eight bytes that came back.
use vstd::prelude::*;
use crate::codec::{
    ack_of, build_command, decode, frame_of, parse_ack, well_framed, AckCode, DecodeError,
    ACK_NOUSER, ACK_SUCCESS, ACK_TIMEOUT,
};

verus! {

pub const CMD_ENROLL_1: u8 = 0x01;
pub const CMD_ENROLL_2: u8 = 0x02;
pub const CMD_ENROLL_3: u8 = 0x03;
pub const CMD_DELETE_USER: u8 = 0x04;
pub const CMD_DELETE_ALL: u8 = 0x05;
pub const CMD_USER_COUNT: u8 = 0x09;
pub const CMD_QUERY_PERMISSION: u8 = 0x0A;
pub const CMD_VERIFY_1_1: u8 = 0x0B;
pub const CMD_VERIFY_1_N: u8 = 0x0C;

/// High byte of a user id, sent first.
pub open spec fn user_id_high(u: u16) -> u8 {
    (u as int / 256) as u8
}

/// Low byte of a user id, sent second.
pub open spec fn user_id_low(u: u16) -> u8 {
    (u as int % 256) as u8
}

/// The 16-bit value whose big-endian bytes are `hi` and `lo`.
pub open spec fn user_id_of(hi: u8, lo: u8) -> u16 {
    (hi as int * 256 + lo as int) as u16
}

/// Splits a user id into its big-endian bytes.
pub fn split_user_id(user_id: u16) -> (r: (u8, u8))
    ensures
        r.0 == user_id_high(user_id),
        r.1 == user_id_low(user_id),
        r.0 as int * 256 + r.1 as int == user_id as int,
{
    ((user_id / 256) as u8, (user_id % 256) as u8)
}

/// Joins two big-endian bytes into a 16-bit value.
pub fn join_user_id(hi: u8, lo: u8) -> (r: u16)
    ensures
        r == user_id_of(hi, lo),
        r as int == hi as int * 256 + lo as int,
{
    (hi as u16) * 256 + (lo as u16)
}

/// Joining the two bytes of a user id gives the user id back, and splitting
/// a joined value gives the two bytes back, for every 16-bit value.
pub proof fn lemma_user_id_round_trip(u: u16, hi: u8, lo: u8)
    ensures
        user_id_of(user_id_high(u), user_id_low(u)) == u,
        user_id_high(user_id_of(hi, lo)) == hi,
        user_id_low(user_id_of(hi, lo)) == lo,
{
}

/// Which of the three enrollment captures a request is for.
#[derive(PartialEq, Eq, Structural, Clone, Copy, Debug)]
pub enum EnrollStep {
    First,
    Second,
    Third,
}

/// Command code of an enrollment step.
pub open spec fn enroll_command(step: EnrollStep) -> u8 {
    match step {
        EnrollStep::First => CMD_ENROLL_1,
        EnrollStep::Second => CMD_ENROLL_2,
        EnrollStep::Third => CMD_ENROLL_3,
    }
}

impl EnrollStep {
    pub fn command(&self) -> (r: u8)
        ensures
            r == enroll_command(*self),
    {
        match self {
            EnrollStep::First => CMD_ENROLL_1,
            EnrollStep::Second => CMD_ENROLL_2,
            EnrollStep::Third => CMD_ENROLL_3,
        }
    }
}

/// Result of a 1:N verification.
#[derive(PartialEq, Eq, Structural, Clone, Copy, Debug)]
pub enum MatchOutcome {
    /// The finger matched no enrolled user.
    NoMatch,
    /// The sensor reported that no finger was presented in time.
    NoFinger,
    /// The finger matched `user_id`; byte 4 of the reply is its permission.
    Matched { user_id: u16, permission: u8 },
}

/// Result of a user count query.
#[derive(PartialEq, Eq, Structural, Clone, Copy, Debug)]
pub enum CountOutcome {
    Count(u16),
    Status(AckCode),
}

/// Result of a permission query.
#[derive(PartialEq, Eq, Structural, Clone, Copy, Debug)]
pub enum PermissionOutcome {
    Level(u8),
    Status(AckCode),
}

/// What a well-framed reply to a 1:N verification means.
pub open spec fn match_outcome(s: Seq<u8>) -> MatchOutcome
    recommends
        s.len() == 8,
{
    if s[4] == ACK_NOUSER {
        MatchOutcome::NoMatch
    } else if s[4] == ACK_TIMEOUT {
        MatchOutcome::NoFinger
    } else {
        MatchOutcome::Matched { user_id: user_id_of(s[2], s[3]), permission: s[4] }
    }
}

/// What a well-framed reply to a count query means.
pub open spec fn count_outcome(s: Seq<u8>) -> CountOutcome
    recommends
        s.len() == 8,
{
    if s[4] == ACK_SUCCESS {
        CountOutcome::Count(user_id_of(s[2], s[3]))
    } else {
        CountOutcome::Status(ack_of(s[4]))
    }
}

/// What a well-framed reply to a permission query means.
pub open spec fn permission_outcome(s: Seq<u8>) -> PermissionOutcome
    recommends
        s.len() == 8,
{
    if s[4] != ACK_NOUSER {
        PermissionOutcome::Level(s[4])
    } else {
        PermissionOutcome::Status(AckCode::NoUser)
    }
}

/// `MalformedFrame` where `s` is not a frame, else `Ok(v)`.
pub open spec fn framed<T>(s: Seq<u8>, v: T) -> Result<T, DecodeError> {
    if well_framed(s) {
        Ok(v)
    } else {
        Err(DecodeError::MalformedFrame)
    }
}

/// The request of enrollment step `step` for `user_id` at `permission`.
pub fn enroll_request(step: EnrollStep, user_id: u16, permission: u8) -> (r: Vec<u8>)
    ensures
        r@ == frame_of(enroll_command(step), user_id_high(user_id), user_id_low(user_id), permission),
{
    let (hi, lo) = split_user_id(user_id);
    build_command(step.command(), hi, lo, permission)
}

/// The request of a 1:N verification.
pub fn verify_1n_request() -> (r: Vec<u8>)
    ensures
        r@ == frame_of(CMD_VERIFY_1_N, 0, 0, 0),
{
    build_command(CMD_VERIFY_1_N, 0, 0, 0)
}

/// The request of a 1:1 verification against `user_id`.
pub fn verify_1_1_request(user_id: u16) -> (r: Vec<u8>)
    ensures
        r@ == frame_of(CMD_VERIFY_1_1, user_id_high(user_id), user_id_low(user_id), 0),
{
    let (hi, lo) = split_user_id(user_id);
    build_command(CMD_VERIFY_1_1, hi, lo, 0)
}

/// The request that deletes `user_id`.
pub fn delete_user_request(user_id: u16) -> (r: Vec<u8>)
    ensures
        r@ == frame_of(CMD_DELETE_USER, user_id_high(user_id), user_id_low(user_id), 0),
{
    let (hi, lo) = split_user_id(user_id);
    build_command(CMD_DELETE_USER, hi, lo, 0)
}

/// The request that deletes every user.
pub fn delete_all_request() -> (r: Vec<u8>)
    ensures
        r@ == frame_of(CMD_DELETE_ALL, 0, 0, 0),
{
    build_command(CMD_DELETE_ALL, 0, 0, 0)
}

/// The request that asks how many users are enrolled.
pub fn user_count_request() -> (r: Vec<u8>)
    ensures
        r@ == frame_of(CMD_USER_COUNT, 0, 0, 0),
{
    build_command(CMD_USER_COUNT, 0, 0, 0)
}

/// The request that asks for the permission level of `user_id`.
pub fn permission_request(user_id: u16) -> (r: Vec<u8>)
    ensures
        r@ == frame_of(CMD_QUERY_PERMISSION, user_id_high(user_id), user_id_low(user_id), 0),
{
    let (hi, lo) = split_user_id(user_id);
    build_command(CMD_QUERY_PERMISSION, hi, lo, 0)
}

/// Reads the reply to a 1:N verification: `NoUser` is no match, the sensor's
/// `Timeout` is no finger, and any other byte 4 is a match whose user id is
/// bytes 2 and 3 and whose permission is byte 4 itself.
pub fn verify_1n_result(resp: &[u8]) -> (r: Result<MatchOutcome, DecodeError>)
    ensures
        r == framed(resp@, match_outcome(resp@)),
{
    match decode(resp) {
        Err(e) => Err(e),
        Ok(frame) => {
            if frame.param3 == ACK_NOUSER {
                Ok(MatchOutcome::NoMatch)
            } else if frame.param3 == ACK_TIMEOUT {
                Ok(MatchOutcome::NoFinger)
            } else {
                let user_id = join_user_id(frame.param1, frame.param2);
                Ok(MatchOutcome::Matched { user_id, permission: frame.param3 })
            }
        },
    }
}

/// Reads a reply that carries a plain acknowledgment: the replies to an
/// enrollment step, a 1:1 verification, a delete and a delete-all.
pub fn status_result(resp: &[u8]) -> (r: Result<AckCode, DecodeError>)
    ensures
        r == framed(resp@, ack_of(resp@[4])),
{
    parse_ack(resp)
}

/// Reads the reply to a count query: on `Success` bytes 2 and 3 are the
/// count, big-endian; otherwise the acknowledgment is reported.
pub fn user_count_result(resp: &[u8]) -> (r: Result<CountOutcome, DecodeError>)
    ensures
        r == framed(resp@, count_outcome(resp@)),
{
    match decode(resp) {
        Err(e) => Err(e),
        Ok(frame) => {
            if frame.param3 == ACK_SUCCESS {
                Ok(CountOutcome::Count(join_user_id(frame.param1, frame.param2)))
            } else {
                Ok(CountOutcome::Status(frame.ack()))
            }
        },
    }
}

/// Reads the reply to a permission query: any byte 4 but `NoUser` is the
/// permission level.
pub fn permission_result(resp: &[u8]) -> (r: Result<PermissionOutcome, DecodeError>)
    ensures
        r == framed(resp@, permission_outcome(resp@)),
{
    match decode(resp) {
        Err(e) => Err(e),
        Ok(frame) => {
            if frame.param3 != ACK_NOUSER {
                Ok(PermissionOutcome::Level(frame.param3))
            } else {
                Ok(PermissionOutcome::Status(AckCode::NoUser))
            }
        },
    }
}

} // verus!
