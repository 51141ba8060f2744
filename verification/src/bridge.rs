//! The handle bridge: lifetime management for catalog clients exposed to the
//! host runtime behind opaque handles.
//!
//! The bridge keeps one slot per wrapper object the host runtime allocated.
//! A slot is created live when the external collaborator reports a successful
//! construction, and is released exactly once, when the host runtime tears the
//! wrapper down.  Slots are never reused, so a handle that was released stays
//! recognisably dead for the rest of the process lifetime.
//!
//! The collaborator's own work (constructing a client against a backend,
//! driving the asynchronous namespace call to completion on a private
//! execution context) happens outside this library; its outcome is handed in
//! as a plain report, and the bridge is verified for every possible report.

use vstd::prelude::*;

verus! {

/// Identifier correlating one host-allocated wrapper object with the catalog
/// client constructed for it.  An identifier is an index into the bridge's
/// slot table and is never reused after release.
#[derive(Debug, Clone, Copy, PartialEq, Eq, Structural)]
pub struct CatalogHandle {
    /// Index of this wrapper's slot in the bridge's table.
    pub id: usize,
}

/// Lifecycle stage of one wrapper object's slot.
#[derive(Debug, Clone, Copy, PartialEq, Eq, Structural)]
pub enum SlotState {
    /// The catalog client behind this slot is alive and may be invoked.
    Live,
    /// The wrapper was torn down; the slot is dead for good.
    Released,
}

/// Failures of the handle bridge, as surfaced to the host runtime.
#[derive(Debug, PartialEq, Eq)]
pub enum BindError {
    /// The external collaborator could not construct a catalog client; the
    /// cause's message is carried through unchanged.
    ConstructionFailed(String),
    /// The handle does not name a live catalog client: it was released, or
    /// never belonged to a constructed wrapper.
    InvalidHandle,
    /// The external collaborator reported that a catalog operation failed;
    /// the cause's message is carried through unchanged.
    CatalogOperationFailed(String),
}

/// One namespace-creation call, exactly as it is to be handed to the external
/// collaborator: the namespace name, and no parent namespace.
#[derive(Debug, PartialEq, Eq)]
pub struct NamespaceRequest {
    /// The namespace to create.
    pub name: String,
    /// The parent namespace; this layer only ever requests top-level
    /// namespaces, so it is always absent.
    pub parent: Option<String>,
}

/// A slot is live in the given table.
pub open spec fn live_in(slots: Seq<SlotState>, id: int) -> bool {
    0 <= id < slots.len() && slots[id] is Live
}

/// A slot exists in the given table and was released.
pub open spec fn released_in(slots: Seq<SlotState>, id: int) -> bool {
    0 <= id < slots.len() && slots[id] is Released
}

/// The slot table after a successful construction: one fresh live slot.
pub open spec fn construct_step(slots: Seq<SlotState>) -> Seq<SlotState> {
    slots.push(SlotState::Live)
}

/// The slot table after a release: the named slot dead, every other slot
/// untouched, and a handle outside the table ignored.
pub open spec fn release_step(slots: Seq<SlotState>, id: int) -> Seq<SlotState> {
    if 0 <= id < slots.len() {
        slots.update(id, SlotState::Released)
    } else {
        slots
    }
}

/// The handle bridge: the slot table correlating handles with the lifecycle
/// stage of the wrapper objects they were issued to.
#[derive(Debug)]
pub struct Bridge {
    slots: Vec<SlotState>,
}

impl View for Bridge {
    type V = Seq<SlotState>;

    closed spec fn view(&self) -> Seq<SlotState> {
        self.slots@
    }
}

impl Bridge {
    /// The handle names a live slot of this bridge.
    pub open spec fn is_live(&self, handle: CatalogHandle) -> bool {
        live_in(self@, handle.id as int)
    }

    /// A bridge with no slots: no handle has been issued yet.
    pub fn new() -> (b: Bridge)
        ensures
            b@ =~= Seq::<SlotState>::empty(),
    {
        Bridge { slots: Vec::new() }
    }

    /// Number of slots ever issued, released ones included.
    pub fn slot_count(&self) -> (n: usize)
        ensures
            n == self@.len(),
    {
        self.slots.len()
    }

    /// Whether the handle currently names a live catalog client.
    pub fn live(&self, handle: CatalogHandle) -> (b: bool)
        ensures
            b == self.is_live(handle),
    {
        handle.id < self.slots.len() && self.slots[handle.id] == SlotState::Live
    }

    /// Registers the outcome the external collaborator reported for one
    /// construction attempt.  On success a fresh live slot is allocated and
    /// its handle returned; on failure nothing changes and the cause is
    /// propagated as [`BindError::ConstructionFailed`].
    pub fn complete_construct(&mut self, report: Result<(), String>) -> (r: Result<
        CatalogHandle,
        BindError,
    >)
        ensures
            match report {
                Ok(()) => {
                    &&& final(self)@ == construct_step(old(self)@)
                    &&& r matches Ok(h) && h.id == old(self)@.len() && final(self).is_live(h)
                },
                Err(msg) => {
                    &&& final(self)@ == old(self)@
                    &&& r == Err::<CatalogHandle, BindError>(BindError::ConstructionFailed(msg))
                },
            },
    {
        match report {
            Ok(()) => {
                let id = self.slots.len();
                self.slots.push(SlotState::Live);
                Ok(CatalogHandle { id })
            },
            Err(msg) => Err(BindError::ConstructionFailed(msg)),
        }
    }

    /// Tears the handle's slot down.  Releasing is idempotent and never
    /// touches any other slot; a handle outside the table is ignored.
    pub fn release(&mut self, handle: CatalogHandle)
        ensures
            final(self)@ == release_step(old(self)@, handle.id as int),
            !final(self).is_live(handle),
            final(self)@.len() == old(self)@.len(),
    {
        if handle.id < self.slots.len() {
            let slot = &mut self.slots[handle.id];
            *slot = SlotState::Released;
        }
    }

    /// Validates the handle and, when it is live, produces the exact call the
    /// external collaborator is to perform: create the named namespace, with
    /// no parent.  A handle that is not live — released, or never issued — is
    /// rejected as [`BindError::InvalidHandle`], and the collaborator is not
    /// to be consulted at all.
    pub fn begin_create_namespace(&self, handle: CatalogHandle, name: String) -> (r: Result<
        NamespaceRequest,
        BindError,
    >)
        ensures
            self.is_live(handle) ==> (r matches Ok(req) && req.name == name && req.parent is None),
            !self.is_live(handle) ==> r == Err::<NamespaceRequest, BindError>(
                BindError::InvalidHandle,
            ),
    {
        if handle.id < self.slots.len() && self.slots[handle.id] == SlotState::Live {
            Ok(NamespaceRequest { name, parent: None })
        } else {
            Err(BindError::InvalidHandle)
        }
    }

    /// Turns the collaborator's report for a prepared namespace call into the
    /// value handed back to the host runtime: the namespace name echoed on
    /// success, the propagated cause on failure.  No bridge state is taken or
    /// touched, so a failed operation leaves every slot exactly as it was.
    pub fn complete_create_namespace(request: NamespaceRequest, report: Result<(), String>) -> (r:
        Result<String, BindError>)
        ensures
            match report {
                Ok(()) => r == Ok::<String, BindError>(request.name),
                Err(msg) => r == Err::<String, BindError>(BindError::CatalogOperationFailed(msg)),
            },
    {
        match report {
            Ok(()) => Ok(request.name),
            Err(msg) => Err(BindError::CatalogOperationFailed(msg)),
        }
    }
}

/// One bridge operation, as it shows in the slot table: a successful
/// construction, or the release of a handle.
pub enum BridgeOp {
    /// A construction the collaborator reported successful.
    Construct,
    /// The release of the slot with the given index.
    Release(int),
}

/// The slot table after one operation.
pub open spec fn apply_op(slots: Seq<SlotState>, op: BridgeOp) -> Seq<SlotState> {
    match op {
        BridgeOp::Construct => construct_step(slots),
        BridgeOp::Release(id) => release_step(slots, id),
    }
}

/// The slot table after a whole sequence of operations, applied in order.
pub open spec fn apply_ops(slots: Seq<SlotState>, ops: Seq<BridgeOp>) -> Seq<SlotState>
    decreases ops.len(),
{
    if ops.len() == 0 {
        slots
    } else {
        apply_ops(apply_op(slots, ops[0]), ops.skip(1))
    }
}

/// Law: a construction the collaborator reported successful leaves its fresh
/// handle live, so the invocation made immediately afterwards through that
/// handle is accepted.
pub proof fn lemma_fresh_handle_is_live(slots: Seq<SlotState>)
    ensures
        live_in(construct_step(slots), slots.len() as int),
{
}

/// Law: release is terminal.  Once a slot is released, no later sequence of
/// bridge operations — further constructions, further releases, in any order —
/// makes it live again, so every later invocation through its handle is
/// rejected, regardless of the handle's prior history.
pub proof fn lemma_release_is_terminal(slots: Seq<SlotState>, id: int, ops: Seq<BridgeOp>)
    requires
        released_in(slots, id),
    ensures
        released_in(apply_ops(slots, ops), id),
        !live_in(apply_ops(slots, ops), id),
    decreases ops.len(),
{
    if ops.len() > 0 {
        let next = apply_op(slots, ops[0]);
        assert(released_in(next, id));
        lemma_release_is_terminal(next, id, ops.skip(1));
    }
}

} // verus!
