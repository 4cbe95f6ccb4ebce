//! The generation supervisor: the one piece of state shared by every
//! concurrent request handler — the identifier of the currently active
//! assistant generation. Handlers read their own copy of it at the start of
//! a turn; the periodic refresh provisions a new generation, swaps the
//! active identifier in one step, and only then tears the superseded
//! generation down. The swap returns the superseded identifier, so teardown
//! cannot name a generation before it has been replaced.

use vstd::prelude::*;
use vstd::string::*;

verus! {

/// The shared active-generation cell. The surrounding process keeps one
/// `Supervisor` behind its chosen synchronization; every transition on the
/// value itself is specified here.
pub struct Supervisor {
    pub active_id: String,
}

impl Supervisor {
    /// Brings the supervisor up with the first provisioned generation.
    /// Without one, the service has nothing to serve with and must not start.
    pub fn new(initial_id: String) -> (s: Supervisor)
        ensures
            s.active_id == initial_id,
    {
        Supervisor { active_id: initial_id }
    }

    /// What a request handler reads at the start of a turn: its own copy of
    /// the active identifier. The copy is the handler's for the whole turn;
    /// no later swap reaches into it.
    pub fn read_active(&self) -> (id: String)
        ensures
            id == self.active_id,
    {
        self.active_id.clone()
    }

    /// The refresh cycle's swap: the freshly provisioned generation becomes
    /// the one new requests route to, and exactly the superseded identifier
    /// comes back — the only generation teardown may delete, available only
    /// once the swap has happened.
    pub fn swap(&mut self, new_id: String) -> (superseded: String)
        ensures
            final(self).active_id == new_id,
            superseded == old(self).active_id,
    {
        let superseded = self.active_id.clone();
        self.active_id = new_id;
        superseded
    }
}

/// The swap as a value transformation: the new active identifier, and the
/// superseded one handed to teardown.
pub open spec fn spec_swap(active: Seq<char>, new_id: Seq<char>) -> (Seq<char>, Seq<char>) {
    (new_id, active)
}

/// Generation swap isolation: a request that read identifier A before a
/// refresh completes its run against A — the swap replaces only the shared
/// cell, never a handler's copy — while requests starting after the swap
/// read the new identifier; and what teardown later deletes is exactly the
/// generation the in-flight request holds, handed out by the swap itself and
/// so never deletable before the swap.
pub proof fn lemma_generation_swap_isolation(active: Seq<char>, new_id: Seq<char>, held: Seq<char>)
    requires
        held == active,
    ensures
        ({
            let (now_active, superseded) = spec_swap(active, new_id);
            &&& held == superseded
            &&& now_active == new_id
            &&& (new_id != active ==> held != now_active)
        }),
{
}

} // verus!
