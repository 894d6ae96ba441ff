//! The status vocabulary that crosses the host/guest boundary.
//!
//! A sandboxed call can hand back nothing richer than a fixed-width integer,
//! so every outcome of a host function is one of four codes.
use vstd::prelude::*;

use crate::model::ApiError;

verus! {

/// Result code carried across the boundary as a `u32`.
#[derive(PartialEq, Eq, Structural, Clone, Copy, Debug)]
pub enum StatusCode {
    Success,
    HostError,
    ArgumentError,
    NotFound,
}

/// Identifier of a drone as the guest sees it.
pub type DroneID = u32;

/// Largest integer that names a defined status.
pub const MAX_STATUS_NUM: u32 = 3;

impl StatusCode {
    /// The integer that stands for this code at the boundary.
    pub open spec fn num(self) -> u32 {
        match self {
            StatusCode::Success => 0,
            StatusCode::HostError => 1,
            StatusCode::ArgumentError => 2,
            StatusCode::NotFound => 3,
        }
    }

    /// The code that an integer received from the other side decodes to:
    /// anything that names no status is a host error.
    pub open spec fn decode(val: u32) -> StatusCode {
        if val == 0 {
            StatusCode::Success
        } else if val == 2 {
            StatusCode::ArgumentError
        } else if val == 3 {
            StatusCode::NotFound
        } else {
            StatusCode::HostError
        }
    }

    /// The typed outcome that a code stands for.
    pub open spec fn outcome(self) -> Result<(), ApiError> {
        match self {
            StatusCode::Success => Ok(()),
            StatusCode::HostError => Err(ApiError::HostError),
            StatusCode::ArgumentError => Err(ApiError::ArgumentError),
            StatusCode::NotFound => Err(ApiError::NotFound),
        }
    }

    pub fn to_result(self) -> (r: Result<(), ApiError>)
        ensures
            r == self.outcome(),
    {
        match self {
            StatusCode::Success => Ok(()),
            StatusCode::HostError => Err(ApiError::HostError),
            StatusCode::ArgumentError => Err(ApiError::ArgumentError),
            StatusCode::NotFound => Err(ApiError::NotFound),
        }
    }

    /// The code that stands for a typed outcome.
    pub fn from_result(result: Result<(), ApiError>) -> (r: Self)
        ensures
            r.outcome() == result,
    {
        match result {
            Ok(unit) => {
                assert(result =~= Ok(unit));
                StatusCode::Success
            },
            Err(ApiError::HostError) => StatusCode::HostError,
            Err(ApiError::ArgumentError) => StatusCode::ArgumentError,
            Err(ApiError::NotFound) => StatusCode::NotFound,
        }
    }

    pub fn to_num(self) -> (r: u32)
        ensures
            r == self.num(),
    {
        match self {
            StatusCode::Success => 0,
            StatusCode::HostError => 1,
            StatusCode::ArgumentError => 2,
            StatusCode::NotFound => 3,
        }
    }

    pub fn from_num(val: u32) -> (r: Self)
        ensures
            r == Self::decode(val),
    {
        match val {
            0 => StatusCode::Success,
            1 => StatusCode::HostError,
            2 => StatusCode::ArgumentError,
            3 => StatusCode::NotFound,
            _ => StatusCode::HostError,
        }
    }
}

/// Encoding a code and decoding the integer gives the same code back, and the
/// integers of the four codes are exactly `0..=MAX_STATUS_NUM`.
pub proof fn lemma_num_round_trip(code: StatusCode)
    ensures
        StatusCode::decode(code.num()) == code,
        code.num() <= MAX_STATUS_NUM,
{
}

/// Decoding is total: an integer that names no status decodes to a host
/// error, and distinct defined integers decode to distinct codes.
pub proof fn lemma_decode_fail_safe(val: u32, other: u32)
    ensures
        val > MAX_STATUS_NUM ==> StatusCode::decode(val) == StatusCode::HostError,
        val <= MAX_STATUS_NUM ==> StatusCode::decode(val).num() == val,
        val <= MAX_STATUS_NUM && other <= MAX_STATUS_NUM && val != other ==> StatusCode::decode(
            val,
        ) != StatusCode::decode(other),
{
}

/// Codes and typed outcomes convert into each other without loss, both ways
/// round.
pub proof fn lemma_outcome_bijective(code: StatusCode, result: Result<(), ApiError>)
    ensures
        forall|c: StatusCode| #[trigger] c.outcome() == code.outcome() ==> c == code,
        exists|c: StatusCode| #[trigger] c.outcome() == result,
{
    let c = match result {
        Ok(unit) => {
            assert(result =~= Ok(unit));
            StatusCode::Success
        },
        Err(ApiError::HostError) => StatusCode::HostError,
        Err(ApiError::ArgumentError) => StatusCode::ArgumentError,
        Err(ApiError::NotFound) => StatusCode::NotFound,
    };
    assert(c.outcome() == result);
}

/// Distinct codes stand for distinct typed outcomes, and only `Success` stands for
/// success.
pub proof fn lemma_outcome_injective(a: StatusCode, b: StatusCode)
    ensures
        a != b ==> a.outcome() != b.outcome(),
        a.outcome() is Ok <==> a == StatusCode::Success,
{
}

} // verus!
