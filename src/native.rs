//! The guest's side of the boundary: what a brain makes of the host's
//! answers.
//!
//! Inside the sandbox the host functions are imports; what a brain does with
//! their status numbers and the bytes they wrote is decided here.
use vstd::prelude::*;

use crate::internal::{DroneID, StatusCode};
use crate::model::{words_of, ApiError, DroneStatus, STATUS_SIZE};

verus! {

/// The guest's handle on the host functions.
#[derive(Clone, Copy, Debug, PartialEq, Eq, Structural)]
pub struct NativeApi;

/// A drone as a brain knows it: by identifier.
#[derive(Clone, Copy, Debug, PartialEq, Eq, Structural)]
pub struct NativeDrone {
    pub id: DroneID,
}

/// The identifiers of the replies whose status decodes to success, in order.
pub open spec fn ok_ids(replies: Seq<(u32, DroneID)>) -> Seq<DroneID>
    decreases replies.len(),
{
    if replies.len() == 0 {
        Seq::empty()
    } else {
        let rest = ok_ids(replies.drop_last());
        if StatusCode::decode(replies.last().0) == StatusCode::Success {
            rest.push(replies.last().1)
        } else {
            rest
        }
    }
}

impl NativeApi {
    pub fn new() -> (r: Self)
        ensures
            r == NativeApi,
    {
        NativeApi
    }

    /// The drones visible this tick, from the host's replies to `drone_id`
    /// for each index below `drone_count`: each reply is the status number
    /// and the identifier that the call wrote. Indices whose call failed are
    /// left out.
    pub fn drones_from_replies(&self, replies: &Vec<(u32, DroneID)>) -> (r: Vec<NativeDrone>)
        ensures
            r@.len() == ok_ids(replies@).len(),
            forall|i: int| 0 <= i < r@.len() ==> #[trigger] r@[i].id == ok_ids(replies@)[i],
    {
        let mut out: Vec<NativeDrone> = Vec::new();
        let mut i: usize = 0;
        while i < replies.len()
            invariant
                i <= replies@.len(),
                out@.len() == ok_ids(replies@.subrange(0, i as int)).len(),
                forall|j: int|
                    0 <= j < out@.len() ==> #[trigger] out@[j].id == ok_ids(
                        replies@.subrange(0, i as int),
                    )[j],
            decreases replies.len() - i,
        {
            let (code, id) = replies[i];
            assert(replies@.subrange(0, i + 1).drop_last() =~= replies@.subrange(0, i as int));
            if StatusCode::from_num(code).to_result().is_ok() {
                out.push(NativeDrone { id });
            }
            i = i + 1;
        }
        assert(replies@.subrange(0, replies@.len() as int) =~= replies@);
        out
    }
}

impl NativeDrone {
    /// The status record that a brain reads after its `drone_status` call
    /// answered `code` and left `record` in its buffer.
    pub fn status_from_reply(code: u32, record: &[u8]) -> (r: Result<DroneStatus, ApiError>)
        ensures
            StatusCode::decode(code) != StatusCode::Success ==> r == Err::<DroneStatus, ApiError>(
                StatusCode::decode(code).outcome()->Err_0,
            ),
            StatusCode::decode(code) == StatusCode::Success ==> match r {
                Ok(s) => record@.len() == STATUS_SIZE && s.pos@ == words_of(record@),
                Err(e) => record@.len() != STATUS_SIZE && e == ApiError::HostError,
            },
    {
        match StatusCode::from_num(code).to_result() {
            Err(e) => Err(e),
            Ok(()) => match DroneStatus::from_bytes(record) {
                Some(s) => Ok(s),
                None => Err(ApiError::HostError),
            },
        }
    }
}

} // verus!
