//! Host side of a sandboxed brain runtime: the status protocol, the drone
//! status record, the per-tick context binding and the host functions that
//! a brain calls to read the drones it drives.
pub mod internal;
pub mod model;
pub mod drone;
pub mod runtime;
pub mod api;
pub mod native;
