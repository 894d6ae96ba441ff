//! A drone as the host holds it for one tick.
use vstd::prelude::*;

use crate::internal::DroneID;
use crate::model::DroneStatus;

verus! {

/// A drone visible to a brain: its identifier and its position/pose, each
/// coordinate as the bit pattern of an `f32`.
#[derive(Clone, Copy, Debug, PartialEq, Eq)]
pub struct Drone {
    pub id: DroneID,
    pub pos: [u32; 5],
}

impl Drone {
    pub fn new(id: DroneID, pos: [u32; 5]) -> (r: Drone)
        ensures
            r.id == id,
            r.pos@ == pos@,
    {
        Drone { id, pos }
    }

    /// The status record of this drone as it is handed to a brain.
    pub fn status(&self) -> (r: DroneStatus)
        ensures
            r.pos@ == self.pos@,
    {
        DroneStatus { pos: self.pos }
    }
}

} // verus!
