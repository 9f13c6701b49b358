//! The lock-protected registries of a computation task: the tasks that depend on its
//! result (each with the parent key and a waker token) and the observers waiting for it
//! to terminate (a waker token each).
//!
//! Both registries exist until the task finishes; finishing consumes them and hands
//! back every waker token to wake. Dropping the last dependant (or the last observer)
//! asks for the task to be cancelled.
use crate::slabs::{
    pair_slab_contains, token_slab_contains,
    in_key_order, listed_along,
    pair_slab_contents, pair_slab_drain, pair_slab_insert, pair_slab_is_empty, pair_slab_new,
    pair_slab_remove, pair_slab_values, token_slab_contents, token_slab_drain, token_slab_insert,
    token_slab_is_empty, token_slab_new, token_slab_remove, PairEntries, TokenEntries,
};
use slab::Slab;
use vstd::prelude::*;

verus! {

/// Why a task is cancelled.
#[derive(PartialEq, Eq, Structural, Clone, Copy, Debug)]
pub enum CancellationReason {
    /// Every task depending on the result went away.
    AllDependentsDropped,
    /// Every observer waiting for termination went away.
    AllObserversDropped,
}

/// The registry and key of a registration.
#[derive(PartialEq, Eq, Structural, Clone, Copy, Debug)]
pub enum SlabId {
    /// A dependant, under this key.
    Dependants(usize),
    /// A termination observer, under this key.
    TerminationObserver(usize),
}

/// The outcome of registering as a dependant.
#[derive(PartialEq, Eq, Structural, Clone, Copy, Debug)]
pub enum DependedOnByResult {
    /// The task is cancelled; nothing was registered.
    Cancelled(CancellationReason),
    /// Registered under the given id with the given waker token.
    Pending(SlabId, u64),
    /// The task already finished; nothing was registered.
    Finished,
}

/// The registries of one task. `None` once the task finished.
pub struct DiceTaskInternalCritical {
    dependants: Option<Slab<(u64, u64)>>,
    termination_observers: Option<Slab<u64>>,
}

/// The waker tokens of a dependant registry, by key.
pub open spec fn dependant_tokens(m: Map<usize, (u64, u64)>) -> Map<usize, u64> {
    m.map_values(|p: (u64, u64)| p.1)
}

/// The parent keys of a dependant registry, by key.
pub open spec fn dependant_parents(m: Map<usize, (u64, u64)>) -> Map<usize, u64> {
    m.map_values(|p: (u64, u64)| p.0)
}

impl DiceTaskInternalCritical {
    /// The dependants (parent key, waker token) by key; `None` once finished.
    pub closed spec fn dependants_view(&self) -> Option<Map<usize, (u64, u64)>> {
        match self.dependants {
            Some(s) => Some(pair_slab_contents(s)),
            None => None,
        }
    }

    /// The termination observers' waker tokens by key; `None` once finished.
    pub closed spec fn observers_view(&self) -> Option<Map<usize, u64>> {
        match self.termination_observers {
            Some(s) => Some(token_slab_contents(s)),
            None => None,
        }
    }

    /// The task has finished: its registries were consumed.
    pub open spec fn spec_is_finished(&self) -> bool {
        self.dependants_view() is None
    }

    /// Whether the task has finished (its registries were consumed).
    pub fn is_finished(&self) -> (r: bool)
        ensures
            r == self.spec_is_finished(),
    {
        self.dependants.is_none()
    }

    /// Both registries exist, or neither; each is finite.
    pub open spec fn wf(&self) -> bool {
        &&& (self.dependants_view() is None <==> self.observers_view() is None)
        &&& (self.dependants_view() matches Some(m) ==> m.dom().finite())
        &&& (self.observers_view() matches Some(m) ==> m.dom().finite())
    }

    /// Empty registries of a running task.
    pub fn new() -> (r: DiceTaskInternalCritical)
        ensures
            r.wf(),
            r.dependants_view() == Some(PairEntries::empty()),
            r.observers_view() == Some(TokenEntries::empty()),
    {
        DiceTaskInternalCritical {
            dependants: Some(pair_slab_new()),
            termination_observers: Some(token_slab_new()),
        }
    }

    /// Adds the dependant `k` with waker token `waker`, unless the task is cancelled
    /// (`is_cancelled` holds the reason) or already finished.
    pub fn depended_on_by(&mut self, is_cancelled: Option<CancellationReason>, k: u64, waker: u64) -> (r: DependedOnByResult)
        requires
            old(self).wf(),
        ensures
            final(self).wf(),
            final(self).observers_view() == old(self).observers_view(),
            is_cancelled matches Some(reason) ==> r == DependedOnByResult::Cancelled(reason)
                && *final(self) == *old(self),
            is_cancelled is None && old(self).spec_is_finished() ==> r == DependedOnByResult::Finished
                && *final(self) == *old(self),
            is_cancelled is None && !old(self).spec_is_finished() ==> {
                let m = old(self).dependants_view()->Some_0;
                &&& r matches DependedOnByResult::Pending(SlabId::Dependants(id), w)
                &&& w == waker
                &&& !m.dom().contains(id)
                &&& final(self).dependants_view() == Some(m.insert(id, (k, waker)))
            },
    {
        if let Some(reason) = is_cancelled {
            return DependedOnByResult::Cancelled(reason);
        }
        match &mut self.dependants {
            None => DependedOnByResult::Finished,
            Some(wakers) => {
                let id = pair_slab_insert(wakers, (k, waker));
                DependedOnByResult::Pending(SlabId::Dependants(id), waker)
            },
        }
    }

    /// The parent keys of the current dependants; `None` once finished.
    pub fn get_waiters_copy(&self) -> (r: Option<Vec<u64>>)
        requires
            self.wf(),
        ensures
            r is None <==> self.spec_is_finished(),
            r matches Some(keys) ==> in_key_order(
                dependant_parents(self.dependants_view()->Some_0),
                keys@,
            ),
    {
        match &self.dependants {
            None => None,
            Some(deps) => {
                let entries = pair_slab_values(deps);
                let ghost m = pair_slab_contents(*deps);
                let mut keys: Vec<u64> = Vec::new();
                let mut i: usize = 0;
                while i < entries.len()
                    invariant
                        i <= entries@.len(),
                        keys@.len() == i,
                        forall|j: int| 0 <= j < i ==> keys@[j] == (#[trigger] entries@[j]).0,
                    decreases entries@.len() - i,
                {
                    keys.push(entries[i].0);
                    i = i + 1;
                }
                proof {
                    lemma_parents_in_key_order(m, entries@, keys@);
                }
                Some(keys)
            },
        }
    }

    /// Registers a termination observer with waker token `waker`; `None` once finished.
    pub fn await_termination(&mut self, waker: u64) -> (r: Option<(SlabId, u64)>)
        requires
            old(self).wf(),
        ensures
            final(self).wf(),
            final(self).dependants_view() == old(self).dependants_view(),
            old(self).spec_is_finished() ==> r is None && *final(self) == *old(self),
            !old(self).spec_is_finished() ==> {
                let m = old(self).observers_view()->Some_0;
                &&& r matches Some((SlabId::TerminationObserver(id), w))
                &&& w == waker
                &&& !m.dom().contains(id)
                &&& final(self).observers_view() == Some(m.insert(id, waker))
            },
    {
        match &mut self.termination_observers {
            None => None,
            Some(wakers) => {
                let id = token_slab_insert(wakers, waker);
                Some((SlabId::TerminationObserver(id), waker))
            },
        }
    }

    /// Whether `slab` may be dropped: the task has finished, or the registration is
    /// present.
    pub fn can_drop_waiter(&self, slab: SlabId) -> (r: bool)
        ensures
            r == match slab {
                SlabId::Dependants(id) => match self.dependants_view() {
                    Some(m) => m.dom().contains(id),
                    None => true,
                },
                SlabId::TerminationObserver(id) => match self.observers_view() {
                    Some(m) => m.dom().contains(id),
                    None => true,
                },
            },
    {
        match slab {
            SlabId::Dependants(id) => match &self.dependants {
                Some(deps) => pair_slab_contains(deps, id),
                None => true,
            },
            SlabId::TerminationObserver(id) => match &self.termination_observers {
                Some(obs) => token_slab_contains(obs, id),
                None => true,
            },
        }
    }

    /// Drops a registration. Returns the cancellation to request: dropping the last
    /// dependant (or the last observer) cancels the task. Nothing happens once finished.
    pub fn drop_waiter(&mut self, slab: SlabId) -> (cancel: Option<CancellationReason>)
        requires
            old(self).wf(),
            slab matches SlabId::Dependants(id) ==> (old(self).dependants_view() matches Some(m)
                ==> m.dom().contains(id)),
            slab matches SlabId::TerminationObserver(id) ==> (old(self).observers_view() matches Some(
                m,
            ) ==> m.dom().contains(id)),
        ensures
            final(self).wf(),
            old(self).spec_is_finished() ==> cancel is None && *final(self) == *old(self),
            !old(self).spec_is_finished() ==> (slab matches SlabId::Dependants(id) ==> {
                let m = old(self).dependants_view()->Some_0;
                &&& final(self).dependants_view() == Some(m.remove(id))
                &&& final(self).observers_view() == old(self).observers_view()
                &&& (cancel == if m.remove(id).dom() == Set::<usize>::empty() {
                    Some(CancellationReason::AllDependentsDropped)
                } else {
                    None
                })
            }),
            !old(self).spec_is_finished() ==> (slab matches SlabId::TerminationObserver(id) ==> {
                let m = old(self).observers_view()->Some_0;
                &&& final(self).observers_view() == Some(m.remove(id))
                &&& final(self).dependants_view() == old(self).dependants_view()
                &&& (cancel == if m.remove(id).dom() == Set::<usize>::empty() {
                    Some(CancellationReason::AllObserversDropped)
                } else {
                    None
                })
            }),
    {
        match slab {
            SlabId::Dependants(id) => match &mut self.dependants {
                None => None,
                Some(deps) => {
                    let _ = pair_slab_remove(deps, id);
                    if pair_slab_is_empty(deps) {
                        Some(CancellationReason::AllDependentsDropped)
                    } else {
                        None
                    }
                },
            },
            SlabId::TerminationObserver(id) => match &mut self.termination_observers {
                None => None,
                Some(obs) => {
                    let _ = token_slab_remove(obs, id);
                    if token_slab_is_empty(obs) {
                        Some(CancellationReason::AllObserversDropped)
                    } else {
                        None
                    }
                },
            },
        }
    }

    /// Finishes the task: consumes both registries and returns the waker tokens to wake,
    /// those of the dependants and those of the termination observers, each registration
    /// once, by increasing registration key. The task must not have finished already.
    pub fn wake_dependents(&mut self) -> (r: (Vec<u64>, Vec<u64>))
        requires
            old(self).wf(),
            !old(self).spec_is_finished(),
        ensures
            final(self).wf(),
            final(self).spec_is_finished(),
            in_key_order(dependant_tokens(old(self).dependants_view()->Some_0), r.0@),
            in_key_order(old(self).observers_view()->Some_0, r.1@),
    {
        let mut deps = self.dependants.take().unwrap();
        let mut observers = self.termination_observers.take().unwrap();
        let ghost m = pair_slab_contents(deps);
        let drained = pair_slab_drain(&mut deps);
        let mut tokens: Vec<u64> = Vec::new();
        let mut i: usize = 0;
        while i < drained.len()
            invariant
                i <= drained@.len(),
                tokens@.len() == i,
                forall|j: int| 0 <= j < i ==> tokens@[j] == (#[trigger] drained@[j]).1,
            decreases drained@.len() - i,
        {
            tokens.push(drained[i].1);
            i = i + 1;
        }
        let observer_tokens = token_slab_drain(&mut observers);
        proof {
            lemma_tokens_in_key_order(m, drained@, tokens@);
        }
        (tokens, observer_tokens)
    }
}


/// Taking the parent key of each listed dependant keeps the listing in key order.
proof fn lemma_parents_in_key_order(m: Map<usize, (u64, u64)>, entries: Seq<(u64, u64)>, keys: Seq<u64>)
    requires
        in_key_order(m, entries),
        keys.len() == entries.len(),
        forall|j: int| 0 <= j < keys.len() ==> keys[j] == (#[trigger] entries[j]).0,
    ensures
        in_key_order(dependant_parents(m), keys),
{
    let ks = choose|ks: Seq<usize>| listed_along(m, entries, ks);
    let t = dependant_parents(m);
    assert(t.dom() =~= m.dom());
    assert forall|i: int| 0 <= i < ks.len() implies t.dom().contains(#[trigger] ks[i]) && keys[i]
        == t[ks[i]] by {
        assert(entries[i] == m[ks[i]]);
    }
    assert(listed_along(t, keys, ks));
}

/// Taking the waker token of each listed dependant keeps the listing in key order.
proof fn lemma_tokens_in_key_order(m: Map<usize, (u64, u64)>, entries: Seq<(u64, u64)>, tokens: Seq<u64>)
    requires
        in_key_order(m, entries),
        tokens.len() == entries.len(),
        forall|j: int| 0 <= j < tokens.len() ==> tokens[j] == (#[trigger] entries[j]).1,
    ensures
        in_key_order(dependant_tokens(m), tokens),
{
    let ks = choose|ks: Seq<usize>| listed_along(m, entries, ks);
    let t = dependant_tokens(m);
    assert(t.dom() =~= m.dom());
    assert forall|i: int| 0 <= i < ks.len() implies t.dom().contains(#[trigger] ks[i]) && tokens[i]
        == t[ks[i]] by {
        assert(entries[i] == m[ks[i]]);
    }
    assert(listed_along(t, tokens, ks));
}

/// Dropping a dependant undoes its registration; if it was the only one, the drop asks
/// for the task to be cancelled.
pub proof fn lemma_drop_undoes_dependant(m: Map<usize, (u64, u64)>, id: usize, entry: (u64, u64))
    requires
        !m.dom().contains(id),
    ensures
        m.insert(id, entry).remove(id) == m,
        m.dom() == Set::<usize>::empty() ==> m.insert(id, entry).remove(id).dom() == Set::<usize>::empty(),
{
    assert(m.insert(id, entry).remove(id) =~= m);
}

/// Dropping a termination observer undoes its registration; if it was the only one, the
/// drop asks for the task to be cancelled.
pub proof fn lemma_drop_undoes_observer(m: Map<usize, u64>, id: usize, token: u64)
    requires
        !m.dom().contains(id),
    ensures
        m.insert(id, token).remove(id) == m,
        m.dom() == Set::<usize>::empty() ==> m.insert(id, token).remove(id).dom() == Set::<usize>::empty(),
{
    assert(m.insert(id, token).remove(id) =~= m);
}

} // verus!
