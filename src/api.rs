//! The host functions that a brain imports, and the bounds-checked write
//! through which they reach guest memory.
//!
//! Each function takes the host state of the calling runtime and the guest's
//! linear memory as a byte slice; it answers with a status number and writes
//! nothing unless it answers with success.
use vstd::prelude::*;

use crate::drone::Drone;
use crate::internal::{DroneID, StatusCode};
use crate::model::{
    le_bytes, le_word, lemma_le_word_of_bytes, lemma_status_round_trip, push_le, wire_of, words_of,
    DroneStatus, ID_SIZE, STATUS_SIZE,
};
use crate::runtime::{holds_id, lookup, BrainHostApi};

verus! {

/// A failure inside a host function.
#[derive(Debug)]
pub enum ApiError {
    /// A fault of the host itself; its detail stays on the host side.
    ModuleExternal(String),
    /// A status to hand back to the guest as it is.
    ModuleInternal(StatusCode),
}

pub type ApiResult<T> = Result<T, ApiError>;

impl ApiError {
    /// The code that the guest sees for this error.
    pub open spec fn status(&self) -> StatusCode {
        match self {
            ApiError::ModuleExternal(_) => StatusCode::HostError,
            ApiError::ModuleInternal(code) => *code,
        }
    }

    /// The code that `unwrap_result` gives for `result`.
    pub open spec fn unwrap_result_spec(result: ApiResult<()>) -> StatusCode {
        match result {
            Ok(_) => StatusCode::Success,
            Err(e) => e.status(),
        }
    }

    /// The code that stands for the outcome of a host function.
    pub fn unwrap_result(result: ApiResult<()>) -> (r: StatusCode)
        ensures
            r == Self::unwrap_result_spec(result),
    {
        match result {
            Ok(_) => StatusCode::Success,
            Err(ApiError::ModuleExternal(_)) => StatusCode::HostError,
            Err(ApiError::ModuleInternal(code)) => code,
        }
    }
}

/// Whether `n` bytes starting at `ptr` lie inside a memory of `len` bytes.
pub open spec fn fits(len: int, ptr: int, n: int) -> bool {
    ptr + n <= len
}

/// `mem` with `bytes` written at `ptr`.
pub open spec fn written(mem: Seq<u8>, ptr: int, bytes: Seq<u8>) -> Seq<u8> {
    mem.subrange(0, ptr) + bytes + mem.subrange(ptr + bytes.len(), mem.len() as int)
}

/// What `drone_id` answers and what guest memory holds afterwards.
pub open spec fn drone_id_outcome(ctx: Option<Seq<Drone>>, mem: Seq<u8>, index: u32, ptr: u32) -> (
    StatusCode,
    Seq<u8>,
) {
    match ctx {
        None => (StatusCode::HostError, mem),
        Some(ds) => if index >= ds.len() {
            (StatusCode::NotFound, mem)
        } else if !fits(mem.len() as int, ptr as int, ID_SIZE as int) {
            (StatusCode::ArgumentError, mem)
        } else {
            (StatusCode::Success, written(mem, ptr as int, le_bytes(ds[index as int].id)))
        },
    }
}

/// What `drone_status` answers and what guest memory holds afterwards.
pub open spec fn drone_status_outcome(ctx: Option<Seq<Drone>>, mem: Seq<u8>, id: DroneID, ptr: u32) -> (
    StatusCode,
    Seq<u8>,
) {
    match ctx {
        None => (StatusCode::HostError, mem),
        Some(ds) => match lookup(ds, id) {
            None => (StatusCode::NotFound, mem),
            Some(d) => if !fits(mem.len() as int, ptr as int, STATUS_SIZE as int) {
                (StatusCode::ArgumentError, mem)
            } else {
                (StatusCode::Success, written(mem, ptr as int, wire_of(d.pos@)))
            },
        },
    }
}

/// Writes `bytes` into guest memory at `ptr`, all of them or, where they do
/// not fit, none.
pub fn write_mem(mem: &mut [u8], ptr: u32, bytes: &[u8]) -> (r: ApiResult<()>)
    ensures
        r is Ok <==> fits(old(mem)@.len() as int, ptr as int, bytes@.len() as int),
        r is Ok ==> final(mem)@ == written(old(mem)@, ptr as int, bytes@),
        r is Err ==> final(mem)@ == old(mem)@ && r == Err::<(), ApiError>(ApiError::ModuleInternal(
            StatusCode::ArgumentError,
        )),
{
    let start = ptr as usize;
    if bytes.len() > mem.len() || start > mem.len() - bytes.len() {
        return Err(ApiError::ModuleInternal(StatusCode::ArgumentError));
    }
    let end: usize = start + bytes.len();
    let mut i: usize = 0;
    while i < bytes.len()
        invariant
            i <= bytes@.len(),
            start == ptr,
            end == start + bytes@.len(),
            end <= mem@.len(),
            mem@.len() == old(mem)@.len(),
            forall|k: int|
                0 <= k < mem@.len() ==> #[trigger] mem@[k] == if start <= k < start + i {
                    bytes@[k - start]
                } else {
                    old(mem)@[k]
                },
        decreases bytes.len() - i,
    {
        mem[start + i] = bytes[i];
        i = i + 1;
    }
    assert(mem@ =~= written(old(mem)@, ptr as int, bytes@));
    Ok(())
}

/// Number of drones visible to the calling brain; none while no context is
/// bound.
pub fn drone_count(host: &BrainHostApi) -> (r: u32)
    ensures
        r == match host.brain_ctx@ {
            Some(ds) => ds.len(),
            None => 0,
        },
{
    match host.brain_ctx.get() {
        Ok(ctx) => ctx.drone_count(),
        Err(_) => 0,
    }
}

fn write_drone_id(host: &BrainHostApi, mem: &mut [u8], drone: u32, drone_id_ptr: u32) -> (r: ApiResult<
    (),
>)
    ensures
        ({
            let (code, after) = drone_id_outcome(host.brain_ctx@, old(mem)@, drone, drone_id_ptr);
            &&& code == ApiError::unwrap_result_spec(r)
            &&& final(mem)@ == after
        }),
{
    let ctx = match host.brain_ctx.get() {
        Ok(c) => c,
        Err(e) => return Err(e),
    };
    let id = match ctx.get_drone_at(drone as usize) {
        Ok(d) => d.id,
        Err(e) => return Err(e),
    };
    let mut bytes: Vec<u8> = Vec::new();
    push_le(&mut bytes, id);
    assert(bytes@ =~= le_bytes(id));
    write_mem(mem, drone_id_ptr, bytes.as_slice())
}

/// Writes the identifier of the drone at position `drone` of the bound
/// context into guest memory at `drone_id_ptr`, as four little-endian bytes.
pub fn drone_id(host: &BrainHostApi, mem: &mut [u8], drone: u32, drone_id_ptr: u32) -> (r: u32)
    ensures
        ({
            let (code, after) = drone_id_outcome(host.brain_ctx@, old(mem)@, drone, drone_id_ptr);
            &&& r == code.num()
            &&& final(mem)@ == after
        }),
{
    let result = write_drone_id(host, mem, drone, drone_id_ptr);
    ApiError::unwrap_result(result).to_num()
}

fn write_drone_status(host: &BrainHostApi, mem: &mut [u8], drone: DroneID, status_ptr: u32) -> (r:
    ApiResult<()>)
    ensures
        ({
            let (code, after) = drone_status_outcome(host.brain_ctx@, old(mem)@, drone, status_ptr);
            &&& code == ApiError::unwrap_result_spec(r)
            &&& final(mem)@ == after
        }),
{
    let ctx = match host.brain_ctx.get() {
        Ok(c) => c,
        Err(e) => return Err(e),
    };
    let status = match ctx.get_drone(drone) {
        Ok(d) => d.status(),
        Err(e) => return Err(e),
    };
    let bytes = status.to_bytes();
    write_mem(mem, status_ptr, bytes.as_slice())
}

/// Writes the status record of the drone with identifier `drone` into guest
/// memory at `status_ptr`, in its 20-byte wire form.
pub fn drone_status(host: &BrainHostApi, mem: &mut [u8], drone: DroneID, status_ptr: u32) -> (r: u32)
    ensures
        ({
            let (code, after) = drone_status_outcome(host.brain_ctx@, old(mem)@, drone, status_ptr);
            &&& r == code.num()
            &&& final(mem)@ == after
        }),
{
    let result = write_drone_status(host, mem, drone, status_ptr);
    ApiError::unwrap_result(result).to_num()
}

/// For an index inside the bound context and a pointer with room for an
/// identifier, `drone_id` succeeds, the four bytes at the pointer read back as
/// the identifier at that position, and no other byte changes.
pub proof fn lemma_drone_id_in_range(ds: Seq<Drone>, mem: Seq<u8>, index: u32, ptr: u32)
    requires
        index < ds.len(),
        fits(mem.len() as int, ptr as int, ID_SIZE as int),
    ensures
        ({
            let (code, after) = drone_id_outcome(Some(ds), mem, index, ptr);
            &&& code == StatusCode::Success
            &&& after.len() == mem.len()
            &&& le_word(after, ptr as int) == ds[index as int].id
            &&& forall|k: int|
                0 <= k < mem.len() && !(ptr <= k < ptr + ID_SIZE) ==> #[trigger] after[k] == mem[k]
        }),
{
    let id = ds[index as int].id;
    let pre = mem.subrange(0, ptr as int);
    let post = mem.subrange(ptr + ID_SIZE, mem.len() as int);
    lemma_le_word_of_bytes(id, pre, post);
}

/// An index at or past the drone count finds nothing and writes nothing.
pub proof fn lemma_drone_id_past_end(ds: Seq<Drone>, mem: Seq<u8>, index: u32, ptr: u32)
    requires
        index >= ds.len(),
    ensures
        drone_id_outcome(Some(ds), mem, index, ptr) == (StatusCode::NotFound, mem),
{
}

/// An identifier that no visible drone has finds nothing and writes nothing.
pub proof fn lemma_drone_status_absent(ds: Seq<Drone>, mem: Seq<u8>, id: DroneID, ptr: u32)
    requires
        !holds_id(ds, id),
    ensures
        drone_status_outcome(Some(ds), mem, id, ptr) == (StatusCode::NotFound, mem),
{
}

/// A pointer without room for the payload is an argument error for both
/// pointer-taking functions, and memory is left as it was. (Where the lookup
/// itself fails, the lookup's `NotFound` comes first.)
pub proof fn lemma_out_of_bounds_pointer(
    ds: Seq<Drone>,
    mem: Seq<u8>,
    index: u32,
    id: DroneID,
    ptr: u32,
)
    requires
        !fits(mem.len() as int, ptr as int, ID_SIZE as int) ==> index < ds.len(),
        !fits(mem.len() as int, ptr as int, STATUS_SIZE as int) ==> holds_id(ds, id),
    ensures
        !fits(mem.len() as int, ptr as int, ID_SIZE as int) ==> drone_id_outcome(
            Some(ds),
            mem,
            index,
            ptr,
        ) == (StatusCode::ArgumentError, mem),
        !fits(mem.len() as int, ptr as int, STATUS_SIZE as int) ==> drone_status_outcome(
            Some(ds),
            mem,
            id,
            ptr,
        ) == (StatusCode::ArgumentError, mem),
{
}

/// Writes are all or nothing: a call that does not succeed leaves guest
/// memory as it was, and one that succeeds changes only the bytes of its
/// payload.
pub proof fn lemma_no_partial_write(
    ctx: Option<Seq<Drone>>,
    mem: Seq<u8>,
    index: u32,
    id: DroneID,
    ptr: u32,
)
    ensures
        ({
            let (code, after) = drone_id_outcome(ctx, mem, index, ptr);
            &&& code != StatusCode::Success ==> after == mem
            &&& after.len() == mem.len()
            &&& forall|k: int|
                0 <= k < mem.len() && !(ptr <= k < ptr + ID_SIZE) ==> #[trigger] after[k] == mem[k]
        }),
        ({
            let (code, after) = drone_status_outcome(ctx, mem, id, ptr);
            &&& code != StatusCode::Success ==> after == mem
            &&& after.len() == mem.len()
            &&& forall|k: int|
                0 <= k < mem.len() && !(ptr <= k < ptr + STATUS_SIZE) ==> #[trigger] after[k]
                    == mem[k]
        }),
{
    if let Some(ds) = ctx {
        if let Some(d) = lookup(ds, id) {
            assert(wire_of(d.pos@).len() == STATUS_SIZE) by {
                lemma_status_round_trip(DroneStatus { pos: d.pos });
            }
        }
    }
}

/// While no context is bound, both pointer-taking functions answer with a
/// host error and touch no memory (and `drone_count` answers zero).
pub proof fn lemma_unbound_context(mem: Seq<u8>, index: u32, id: DroneID, ptr: u32)
    ensures
        drone_id_outcome(None, mem, index, ptr) == (StatusCode::HostError, mem),
        drone_status_outcome(None, mem, id, ptr) == (StatusCode::HostError, mem),
{
}

/// A status record that the host writes for a visible drone reads back, from
/// the 20 bytes at the pointer, as the drone's five words exactly.
pub proof fn lemma_status_read_back(ds: Seq<Drone>, mem: Seq<u8>, id: DroneID, ptr: u32)
    requires
        holds_id(ds, id),
        fits(mem.len() as int, ptr as int, STATUS_SIZE as int),
    ensures
        ({
            let (code, after) = drone_status_outcome(Some(ds), mem, id, ptr);
            &&& code == StatusCode::Success
            &&& lookup(ds, id) matches Some(d) && words_of(
                after.subrange(ptr as int, ptr + STATUS_SIZE),
            ) == d.pos@
        }),
{
    let d = lookup(ds, id).unwrap();
    let s = DroneStatus { pos: d.pos };
    lemma_status_round_trip(s);
    let after = written(mem, ptr as int, wire_of(d.pos@));
    assert(after.subrange(ptr as int, ptr + STATUS_SIZE) =~= wire_of(d.pos@));
}

} // verus!
