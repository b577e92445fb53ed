//! The slot that owns the supervised process handle.
//!
//! The slot starts vacant, is filled once by the setup routine and is emptied
//! once by the shutdown hook. It never holds a handle again after that, so at
//! most one caller ever receives the handle to kill.

use vstd::prelude::*;

verus! {

/// What a slot holds, as seen by contracts.
pub enum SlotState<H> {
    /// No handle was ever registered.
    Vacant,
    /// The handle of the running child.
    Holding(H),
    /// The handle was taken out by the shutdown hook.
    Released,
}

impl<H> SlotState<H> {
    /// A handle is present.
    pub open spec fn is_present(self) -> bool {
        self is Holding
    }

    /// The handle in the slot, if one is present.
    pub open spec fn held(self) -> Option<H> {
        match self {
            SlotState::Holding(handle) => Some(handle),
            _ => None,
        }
    }

    /// The state after an attempt to register `handle`: only a vacant slot
    /// takes it.
    pub open spec fn after_register(self, handle: H) -> SlotState<H> {
        if self is Vacant {
            SlotState::Holding(handle)
        } else {
            self
        }
    }

    /// The state after the shutdown hook ran: a held handle is gone for good,
    /// anything else is left as it was.
    pub open spec fn after_release(self) -> SlotState<H> {
        if self is Holding {
            SlotState::Released
        } else {
            self
        }
    }
}

/// The optional process handle shared by the setup routine and the shutdown
/// hook. Callers guard it with their own lock.
pub struct HandleSlot<H> {
    state: SlotState<H>,
}

impl<H> View for HandleSlot<H> {
    type V = SlotState<H>;

    closed spec fn view(&self) -> SlotState<H> {
        self.state
    }
}

impl<H> HandleSlot<H> {
    /// A vacant slot.
    pub fn new() -> (slot: HandleSlot<H>)
        ensures
            slot@ == SlotState::<H>::Vacant,
    {
        HandleSlot { state: SlotState::Vacant }
    }

    /// Whether a handle is present.
    pub fn is_present(&self) -> (present: bool)
        ensures
            present == self@.is_present(),
    {
        match &self.state {
            SlotState::Holding(_) => true,
            _ => false,
        }
    }

    /// Whether the shutdown hook has already taken the handle out.
    pub fn is_released(&self) -> (released: bool)
        ensures
            released == (self@ is Released),
    {
        match &self.state {
            SlotState::Released => true,
            _ => false,
        }
    }

    /// Registers the handle of a freshly spawned child.
    ///
    /// Succeeds exactly when the slot is vacant. Otherwise the slot is left
    /// untouched and the handle is given back to the caller.
    pub fn register(&mut self, handle: H) -> (outcome: Result<(), H>)
        ensures
            final(self)@ == old(self)@.after_register(handle),
            outcome is Ok <==> old(self)@ is Vacant,
            outcome is Err ==> outcome == Err::<(), H>(handle),
    {
        match &self.state {
            SlotState::Vacant => {
                self.state = SlotState::Holding(handle);
                Ok(())
            },
            _ => Err(handle),
        }
    }

    /// Takes the handle out for the shutdown hook.
    ///
    /// Returns the handle when one is present and leaves the slot released;
    /// returns `None` and changes nothing otherwise.
    pub fn release(&mut self) -> (handle: Option<H>)
        ensures
            handle == old(self)@.held(),
            final(self)@ == old(self)@.after_release(),
    {
        let mut taken: SlotState<H> = SlotState::Released;
        std::mem::swap(&mut self.state, &mut taken);
        match taken {
            SlotState::Holding(handle) => Some(handle),
            SlotState::Vacant => {
                self.state = SlotState::Vacant;
                None
            },
            SlotState::Released => None,
        }
    }
}

/// One access to the slot: the setup routine registering a handle, or the
/// shutdown hook firing.
pub enum SlotOp<H> {
    Register(H),
    Release,
}

/// The state that `op` leaves behind.
pub open spec fn apply<H>(state: SlotState<H>, op: SlotOp<H>) -> SlotState<H> {
    match op {
        SlotOp::Register(handle) => state.after_register(handle),
        SlotOp::Release => state.after_release(),
    }
}

/// `op` takes the slot from absent to present.
pub open spec fn fills<H>(state: SlotState<H>, op: SlotOp<H>) -> bool {
    !state.is_present() && apply(state, op).is_present()
}

/// `op` takes the slot from present to absent, which is when the caller is
/// handed the handle to kill.
pub open spec fn drains<H>(state: SlotState<H>, op: SlotOp<H>) -> bool {
    state.is_present() && !apply(state, op).is_present()
}

/// The state after a whole history of accesses.
pub open spec fn state_after<H>(state: SlotState<H>, ops: Seq<SlotOp<H>>) -> SlotState<H>
    decreases ops.len(),
{
    if ops.len() == 0 {
        state
    } else {
        state_after(apply(state, ops[0]), ops.drop_first())
    }
}

/// How often a history takes the slot from absent to present.
pub open spec fn count_fills<H>(state: SlotState<H>, ops: Seq<SlotOp<H>>) -> nat
    decreases ops.len(),
{
    if ops.len() == 0 {
        0
    } else {
        (if fills(state, ops[0]) { 1nat } else { 0nat })
            + count_fills(apply(state, ops[0]), ops.drop_first())
    }
}

/// How often a history takes the slot from present to absent.
pub open spec fn count_drains<H>(state: SlotState<H>, ops: Seq<SlotOp<H>>) -> nat
    decreases ops.len(),
{
    if ops.len() == 0 {
        0
    } else {
        (if drains(state, ops[0]) { 1nat } else { 0nat })
            + count_drains(apply(state, ops[0]), ops.drop_first())
    }
}

/// Some access in the history registers a handle.
pub open spec fn registers<H>(ops: Seq<SlotOp<H>>) -> bool {
    exists|i: int| 0 <= i < ops.len() && ops[i] is Register
}

/// From any state the slot only moves forward: vacant, then holding, then
/// released. So no history fills it or drains it twice.
proof fn lemma_transitions_from<H>(state: SlotState<H>, ops: Seq<SlotOp<H>>)
    ensures
        count_fills(state, ops) <= 1,
        count_drains(state, ops) <= 1,
        !(state is Vacant) ==> count_fills(state, ops) == 0,
        state is Released ==> count_drains(state, ops) == 0,
        state is Vacant ==> count_drains(state, ops) <= count_fills(state, ops),
        state is Vacant && registers(ops) ==> count_fills(state, ops) == 1,
    decreases ops.len(),
{
    if ops.len() > 0 {
        let rest = ops.drop_first();
        lemma_transitions_from(apply(state, ops[0]), rest);
        if state is Vacant && registers(ops) && !(ops[0] is Register) {
            let i = choose|i: int| 0 <= i < ops.len() && ops[i] is Register;
            assert(rest[i - 1] == ops[i]);
        }
    }
}

/// In every history of a slot that began vacant, the slot goes from absent to
/// present at most once, and exactly once if any handle was registered at all;
/// it goes from present to absent at most once, and never without having been
/// filled.
pub proof fn lemma_slot_fills_and_drains_once<H>(ops: Seq<SlotOp<H>>)
    ensures
        count_fills(SlotState::<H>::Vacant, ops) <= 1,
        registers(ops) ==> count_fills(SlotState::<H>::Vacant, ops) == 1,
        count_drains(SlotState::<H>::Vacant, ops) <= 1,
        count_drains(SlotState::<H>::Vacant, ops) <= count_fills(SlotState::<H>::Vacant, ops),
{
    lemma_transitions_from(SlotState::<H>::Vacant, ops);
}

/// The shutdown hook may fire again: the second firing hands out nothing and
/// changes nothing, whatever the slot held before the first.
pub proof fn lemma_second_release_is_idle<H>(state: SlotState<H>)
    ensures
        state.after_release().held() is None,
        state.after_release().after_release() == state.after_release(),
{
}

/// Once released, a slot stays released: no later access brings a handle
/// back.
pub proof fn lemma_released_is_final<H>(ops: Seq<SlotOp<H>>)
    ensures
        state_after(SlotState::<H>::Released, ops) == SlotState::<H>::Released,
    decreases ops.len(),
{
    if ops.len() > 0 {
        lemma_released_is_final(ops.drop_first());
    }
}

} // verus!
