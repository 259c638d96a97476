//! The reconnection supervisor: on every timer tick it asks the overlay to
//! dial each configured rendezvous address, without tracking per-address
//! connection state (duplicate dials are a safe no-op by overlay contract)
//! — except addresses that resolve to the node itself. Self-address
//! detection is best-effort substring matching against the node's resolved
//! local address; when no local address could be resolved the filter is
//! disabled and everything is dialed, rather than failing closed.

use vstd::prelude::*;
use crate::text::{contains_seq, str_contains};

verus! {

/// The immutable dial plan: the rendezvous addresses loaded at startup and
/// the node's own best-known address, when one was resolved.
pub struct ReconnectSupervisor {
    pub configured: Vec<String>,
    pub local_addr: Option<String>,
}

impl ReconnectSupervisor {
    /// Whether dialing an address with this text must be suppressed
    /// because it points back at this node.
    pub open spec fn is_self_addr(self, addr: Seq<char>) -> bool {
        match self.local_addr {
            Option::Some(local) => contains_seq(addr, local@),
            Option::None => false,
        }
    }

    /// The addresses one tick dials: every configured address that does
    /// not contain the node's own.
    pub open spec fn dial_plan(self) -> Seq<String> {
        self.configured@.filter(|a: String| !self.is_self_addr(a@))
    }

    pub fn new(configured: Vec<String>, local_addr: Option<String>) -> (r: ReconnectSupervisor)
        ensures
            r.configured == configured,
            r.local_addr == local_addr,
    {
        ReconnectSupervisor { configured, local_addr }
    }

    /// The dial requests to issue on one timer tick. The supervisor holds
    /// no per-tick state, so every tick issues the same plan.
    pub fn dials_on_tick(&self) -> (dials: Vec<String>)
        ensures
            dials@ == self.dial_plan(),
    {
        let mut dials: Vec<String> = Vec::new();
        let mut i: usize = 0;
        while i < self.configured.len()
            invariant
                i <= self.configured@.len(),
                dials@ == self.configured@.take(i as int).filter(
                    |a: String| !self.is_self_addr(a@),
                ),
            decreases self.configured@.len() - i,
        {
            let ghost pred = |a: String| !self.is_self_addr(a@);
            let ghost prefix = self.configured@.take(i as int);
            let addr = &self.configured[i];
            let suppress = match &self.local_addr {
                Some(local) => str_contains(addr.as_str(), local.as_str()),
                None => false,
            };
            if !suppress {
                dials.push(addr.clone());
            }
            proof {
                let grown = self.configured@.take(i + 1);
                assert(grown.drop_last() =~= prefix);
                assert(grown.last() == self.configured@[i as int]);
                reveal_with_fuel(Seq::filter, 2);
                assert(grown.filter(pred) == if pred(grown.last()) {
                    prefix.filter(pred).push(grown.last())
                } else {
                    prefix.filter(pred)
                });
            }
            i += 1;
        }
        proof {
            assert(self.configured@.take(self.configured@.len() as int) =~= self.configured@);
        }
        dials
    }
}

/// Law (self-dial suppression): an address whose text contains the node's
/// resolved local address never appears in the dial plan — and since the
/// supervisor reads only immutable configuration, this holds across any
/// number of ticks.
pub proof fn lemma_self_dial_suppressed(sup: ReconnectSupervisor, addr: Seq<char>)
    requires
        sup.is_self_addr(addr),
    ensures
        forall|j: int| 0 <= j < sup.dial_plan().len() ==> (#[trigger] sup.dial_plan()[j])@
            != addr,
{
    let pred = |a: String| !sup.is_self_addr(a@);
    assert forall|j: int| 0 <= j < sup.dial_plan().len() implies (#[trigger] sup.dial_plan()[j])@
        != addr by {
        sup.configured@.lemma_filter_pred(pred, j);
    }
}

} // verus!
