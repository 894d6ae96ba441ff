//! The per-tick context, the slot through which host functions reach it,
//! and the lifecycle of one brain.
//!
//! A context is moved into its runtime's slot right before the guest's tick
//! export runs and taken out right after, whatever the call returned. Host
//! functions only ever read through the slot, so no reference to a context
//! outlives the tick that it was made for, and each runtime owns its slot.
use vstd::prelude::*;

use crate::api::ApiError;
use crate::drone::Drone;
use crate::internal::{DroneID, StatusCode};

verus! {

/// Whether `i` is the first position in `ds` that holds identifier `id`.
pub open spec fn is_first_with_id(ds: Seq<Drone>, id: DroneID, i: int) -> bool {
    &&& 0 <= i < ds.len()
    &&& ds[i].id == id
    &&& forall|j: int| 0 <= j < i ==> #[trigger] ds[j].id != id
}

/// Whether some drone of `ds` has identifier `id`.
pub open spec fn holds_id(ds: Seq<Drone>, id: DroneID) -> bool {
    exists|i: int| 0 <= i < ds.len() && #[trigger] ds[i].id == id
}

/// The drone that a lookup of `id` finds: the first one that has it.
pub open spec fn lookup(ds: Seq<Drone>, id: DroneID) -> Option<Drone> {
    if holds_id(ds, id) {
        Some(ds[choose|i: int| is_first_with_id(ds, id, i)])
    } else {
        None
    }
}

/// There is one first position of an identifier that `ds` holds.
pub proof fn lemma_first_with_id_unique(ds: Seq<Drone>, id: DroneID, i: int)
    requires
        is_first_with_id(ds, id, i),
    ensures
        holds_id(ds, id),
        lookup(ds, id) == Some(ds[i]),
{
    let k = choose|k: int| is_first_with_id(ds, id, k);
    assert(is_first_with_id(ds, id, k));
    if k < i {
        assert(ds[k].id != id);
    } else if i < k {
        assert(ds[i].id != id);
    }
}

/// The read-only view of the world that one tick of one brain may see: the
/// drones linked to the brain, in link order.
pub struct BrainCtx {
    drones: Vec<Drone>,
}

impl View for BrainCtx {
    type V = Seq<Drone>;

    closed spec fn view(&self) -> Seq<Drone> {
        self.drones@
    }
}

impl BrainCtx {
    /// A count of the drones must fit the boundary's `u32`.
    #[verifier::type_invariant]
    closed spec fn count_fits(&self) -> bool {
        self.drones@.len() <= u32::MAX
    }

    pub fn new(drones: Vec<Drone>) -> (r: Self)
        requires
            drones@.len() <= u32::MAX,
        ensures
            r@ == drones@,
    {
        BrainCtx { drones }
    }

    pub fn drone_count(&self) -> (r: u32)
        ensures
            r == self@.len(),
    {
        proof {
            use_type_invariant(self);
        }
        self.drones.len() as u32
    }

    /// The first drone with identifier `drone_id`.
    pub fn get_drone(&self, drone_id: DroneID) -> (r: Result<&Drone, ApiError>)
        ensures
            match r {
                Ok(d) => lookup(self@, drone_id) == Some(*d),
                Err(e) => lookup(self@, drone_id) is None && e == ApiError::ModuleInternal(
                    StatusCode::NotFound,
                ),
            },
    {
        let mut i: usize = 0;
        while i < self.drones.len()
            invariant
                i <= self@.len(),
                self@ == self.drones@,
                forall|j: int| 0 <= j < i ==> #[trigger] self@[j].id != drone_id,
            decreases self.drones.len() - i,
        {
            if self.drones[i].id == drone_id {
                proof {
                    lemma_first_with_id_unique(self@, drone_id, i as int);
                }
                return Ok(&self.drones[i]);
            }
            i = i + 1;
        }
        assert(!holds_id(self@, drone_id));
        Err(ApiError::ModuleInternal(StatusCode::NotFound))
    }

    /// The drone at position `drone_index` in link order.
    pub fn get_drone_at(&self, drone_index: usize) -> (r: Result<&Drone, ApiError>)
        ensures
            match r {
                Ok(d) => drone_index < self@.len() && *d == self@[drone_index as int],
                Err(e) => drone_index >= self@.len() && e == ApiError::ModuleInternal(
                    StatusCode::NotFound,
                ),
            },
    {
        if drone_index < self.drones.len() {
            Ok(&self.drones[drone_index])
        } else {
            Err(ApiError::ModuleInternal(StatusCode::NotFound))
        }
    }
}

/// The slot that holds the context of the tick in flight, if any.
pub struct BrainCtxHolder {
    ctx: Option<BrainCtx>,
}

impl View for BrainCtxHolder {
    type V = Option<Seq<Drone>>;

    closed spec fn view(&self) -> Option<Seq<Drone>> {
        match self.ctx {
            Some(c) => Some(c@),
            None => None,
        }
    }
}

impl BrainCtxHolder {
    pub fn new() -> (r: Self)
        ensures
            r@ is None,
    {
        BrainCtxHolder { ctx: None }
    }

    /// Installs the context of the tick that is about to run.
    pub fn set(&mut self, ctx: BrainCtx)
        ensures
            final(self)@ == Some(ctx@),
    {
        self.ctx = Some(ctx);
    }

    /// Empties the slot and hands back what it held.
    pub fn clear(&mut self) -> (r: Option<BrainCtx>)
        ensures
            final(self)@ is None,
            match r {
                Some(c) => old(self)@ == Some(c@),
                None => old(self)@ is None,
            },
    {
        self.ctx.take()
    }

    pub fn is_bound(&self) -> (r: bool)
        ensures
            r == self@ is Some,
    {
        self.ctx.is_some()
    }

    /// The bound context; a host error where none is bound, as when a guest
    /// calls a host function outside a tick.
    pub fn get(&self) -> (r: Result<&BrainCtx, ApiError>)
        ensures
            match r {
                Ok(c) => self@ == Some(c@),
                Err(e) => self@ is None && e.status() == StatusCode::HostError,
            },
    {
        match &self.ctx {
            Some(c) => Ok(c),
            None => Err(ApiError::ModuleExternal("Brain ctx not set while wasm was running".to_string())),
        }
    }
}

/// The host-side state that the guest's calls into the host can reach.
pub struct BrainHostApi {
    pub brain_ctx: BrainCtxHolder,
}

impl BrainHostApi {
    pub fn new() -> (r: Self)
        ensures
            r.brain_ctx@ is None,
    {
        BrainHostApi { brain_ctx: BrainCtxHolder::new() }
    }
}

/// Namespace under which a brain module imports the host functions.
pub const HOST_MODULE: &'static str = "bsc_brain";

/// Names of the three entry points that a brain module must export.
pub const INIT_EXPORT: &'static str = "init";
pub const TICK_EXPORT: &'static str = "tick";
pub const SHUTDOWN_EXPORT: &'static str = "shutdown";

/// Where a brain that was constructed stands.
#[derive(PartialEq, Eq, Structural, Clone, Copy, Debug)]
pub enum BrainPhase {
    /// Initialised; each tick calls the guest.
    Running,
    /// The guest trapped during a tick; later ticks skip it.
    Crashed,
    /// The guest's shutdown export has been called or skipped; terminal.
    ShutDown,
}

/// Why a brain could not be constructed.
#[derive(Debug)]
pub enum LoadError {
    /// The module's bytes are not a valid module.
    Malformed(String),
    /// The module could not be linked against the host functions.
    Link(String),
    /// A required export is absent or has the wrong type.
    MissingExport(String),
    /// The guest trapped in its `init` export.
    InitTrapped(String),
}

/// A fault of one brain during one tick.
#[derive(Debug)]
pub enum TickError {
    /// The guest trapped in its `tick` export.
    Trapped(String),
}

/// The lifecycle of one brain, held beside its sandbox instance.
///
/// A value only exists for a brain whose `init` export completed: a failed
/// construction hands back a `LoadError` and no lifecycle to tick.
pub struct BrainLifecycle {
    phase: BrainPhase,
}

impl BrainLifecycle {
    pub closed spec fn spec_phase(&self) -> BrainPhase {
        self.phase
    }

    /// Finishes construction with the outcome of the guest's `init` export.
    pub fn start(init: Result<(), String>) -> (r: Result<BrainLifecycle, LoadError>)
        ensures
            match init {
                Ok(_) => r matches Ok(l) && l.spec_phase() == BrainPhase::Running,
                Err(msg) => r == Err::<BrainLifecycle, LoadError>(LoadError::InitTrapped(msg)),
            },
    {
        match init {
            Ok(_) => Ok(BrainLifecycle { phase: BrainPhase::Running }),
            Err(msg) => Err(LoadError::InitTrapped(msg)),
        }
    }

    pub fn phase(&self) -> (r: BrainPhase)
        ensures
            r == self.spec_phase(),
    {
        self.phase
    }

    /// Binds `ctx` for the tick that is about to run, if the guest is to be
    /// called at all; answers whether to call the guest's `tick` export.
    pub fn begin_tick(&self, host: &mut BrainHostApi, ctx: BrainCtx) -> (r: bool)
        ensures
            r == (self.spec_phase() == BrainPhase::Running),
            r ==> final(host).brain_ctx@ == Some(ctx@),
            !r ==> final(host).brain_ctx@ == old(host).brain_ctx@,
    {
        if self.phase == BrainPhase::Running {
            host.brain_ctx.set(ctx);
            true
        } else {
            false
        }
    }

    /// Unbinds the context after the guest's `tick` export returned with
    /// `outcome`, whatever it was; a trap leaves this brain crashed.
    pub fn end_tick(&mut self, host: &mut BrainHostApi, outcome: Result<(), String>) -> (r: Result<
        (),
        TickError,
    >)
        requires
            old(self).spec_phase() == BrainPhase::Running,
        ensures
            final(host).brain_ctx@ is None,
            match outcome {
                Ok(_) => r is Ok && final(self).spec_phase() == BrainPhase::Running,
                Err(msg) => r == Err::<(), TickError>(TickError::Trapped(msg))
                    && final(self).spec_phase() == BrainPhase::Crashed,
            },
    {
        let _ = host.brain_ctx.clear();
        match outcome {
            Ok(_) => Ok(()),
            Err(msg) => {
                self.phase = BrainPhase::Crashed;
                Err(TickError::Trapped(msg))
            },
        }
    }

    /// Moves to the terminal phase; answers whether the guest's `shutdown`
    /// export is still to be called, which is so at most once.
    pub fn begin_shutdown(&mut self) -> (r: bool)
        ensures
            r == (old(self).spec_phase() != BrainPhase::ShutDown),
            final(self).spec_phase() == BrainPhase::ShutDown,
    {
        let first = self.phase != BrainPhase::ShutDown;
        self.phase = BrainPhase::ShutDown;
        first
    }
}

} // verus!
