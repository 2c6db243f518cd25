//! The calls of one connection, by call id.
//!
//! Each side of a connection hands out ids from its own half of the numbers:
//! the side that dialled uses the odd ones, the side that accepted the even
//! ones. So the two sides never pick the same id, whatever order they open
//! calls in.

use vstd::prelude::*;
use std::collections::HashMap;
use vstd::std_specs::iter::IteratorSpec;
use crate::call::{Call, CallKind, CallView, Direction};
use crate::error::MuxError;

verus! {

/// The highest id from which a further call can still be opened.
pub const LAST_CALL_ID: u64 = 0xFFFF_FFFF_FFFF_FFFD;

/// What a registry holds, as plain values.
pub struct RegistryView {
    /// The calls that have been opened and not retired.
    pub calls: Map<u64, CallView>,
    /// The id that the next outbound call gets.
    pub next_id: u64,
    /// Whether this side dialled the connection.
    pub initiator: bool,
}

impl RegistryView {
    /// The registry of a side that has opened no call yet.
    pub open spec fn empty(initiator: bool) -> RegistryView {
        RegistryView { calls: Map::empty(), next_id: if initiator { 1 } else { 0 }, initiator }
    }

    /// The registry of a side that hands out no id below `first`: its next
    /// id is the least of its own that is not below `first`, or, if there is
    /// none, an id from which no call can be opened any more.
    pub open spec fn starting_at(initiator: bool, first: u64) -> RegistryView {
        RegistryView {
            calls: Map::empty(),
            next_id: if (first % 2 == 1) == initiator {
                first
            } else if first < u64::MAX {
                (first + 1) as u64
            } else {
                (first - 1) as u64
            },
            initiator,
        }
    }

    /// Whether `id` is one that this side hands out.
    pub open spec fn is_local(self, id: u64) -> bool {
        (id % 2 == 1) == self.initiator
    }

    /// Whether a call may stand under `id`: its state is consistent, it is
    /// outbound exactly if the id is one of this side's, and such an id has
    /// been handed out already.
    pub open spec fn admits(self, id: u64, call: CallView) -> bool {
        &&& call.wf()
        &&& (call.direction == Direction::Outbound <==> self.is_local(id))
        &&& (self.is_local(id) ==> id < self.next_id)
    }

    /// The invariant of a registry: it holds finitely many calls, the next
    /// id is one of this side's, and each call is one that its id admits.
    pub open spec fn wf(self) -> bool {
        &&& self.calls.dom().finite()
        &&& self.is_local(self.next_id)
        &&& forall|id: u64| #[trigger]
            self.calls.contains_key(id) ==> self.admits(id, self.calls[id])
    }

    /// Why a peer may not open a call under `id`, if it may not: a call
    /// stands under the id already, or the id is one of this side's own,
    /// under which only this side opens calls.
    pub open spec fn refusal(self, id: u64) -> Option<MuxError> {
        if self.calls.contains_key(id) {
            Some(MuxError::DuplicateCallId)
        } else if self.is_local(id) {
            Some(MuxError::UnknownCall)
        } else {
            None
        }
    }

    /// The registry with `call` under `id`.
    pub open spec fn with_call(self, id: u64, call: CallView) -> RegistryView {
        RegistryView { calls: self.calls.insert(id, call), ..self }
    }

    /// The registry without the call `id`.
    pub open spec fn without(self, id: u64) -> RegistryView {
        RegistryView { calls: self.calls.remove(id), ..self }
    }

    /// The ids of the calls that have not ended.
    pub open spec fn live_ids(self) -> Set<u64> {
        Set::new(|id: u64| self.calls.contains_key(id) && self.calls[id].live())
    }

    /// The registry after every call that had not ended has failed with `e`.
    pub open spec fn fail_all(self, e: MuxError) -> RegistryView {
        RegistryView { calls: self.calls.map_values(|c: CallView| c.fail(e)), ..self }
    }
}

/// The calls of one connection.
pub struct Registry {
    calls: HashMap<u64, Call>,
    next_id: u64,
    initiator: bool,
}

impl View for Registry {
    type V = RegistryView;

    closed spec fn view(&self) -> RegistryView {
        RegistryView {
            calls: self.calls@.map_values(|c: Call| c@),
            next_id: self.next_id,
            initiator: self.initiator,
        }
    }
}

impl Registry {
    /// The invariant of a registry: at most one call stands under an id, and
    /// each is one that the id admits.
    pub closed spec fn wf(&self) -> bool {
        self@.wf()
    }

    /// What `wf` says of the view.
    pub proof fn lemma_wf(&self)
        requires
            self.wf(),
        ensures
            self@.wf(),
    {
    }

    /// A registry without calls, for the side that dialled (`initiator`) or
    /// the side that accepted.
    pub fn new(initiator: bool) -> (r: Registry)
        ensures
            r.wf(),
            r@ == RegistryView::empty(initiator),
    {
        let next_id: u64 = if initiator { 1 } else { 0 };
        let r = Registry { calls: HashMap::new(), next_id, initiator };
        assert(r@.calls =~= Map::<u64, CallView>::empty());
        r
    }

    /// A registry without calls that hands out no id below `first`, for a
    /// side that must not use the ids of an earlier life of the connection
    /// again.
    pub fn starting_at(initiator: bool, first: u64) -> (r: Registry)
        ensures
            r.wf(),
            r@ == RegistryView::starting_at(initiator, first),
    {
        let next_id: u64 = if (first % 2 == 1) == initiator {
            first
        } else if first < u64::MAX {
            first + 1
        } else {
            first - 1
        };
        let r = Registry { calls: HashMap::new(), next_id, initiator };
        assert(r@.calls =~= Map::<u64, CallView>::empty());
        r
    }

    /// Whether this side dialled the connection.
    pub fn is_initiator(&self) -> (b: bool)
        ensures
            b == self@.initiator,
    {
        self.initiator
    }

    /// Whether `id` is one that this side hands out.
    pub fn is_local(&self, id: u64) -> (b: bool)
        ensures
            b == self@.is_local(id),
    {
        (id % 2 == 1) == self.initiator
    }

    /// Opens an outbound call under the next unused id of this side. Fails
    /// only when this side has run out of ids.
    pub fn allocate(&mut self, kind: CallKind) -> (r: Result<u64, MuxError>)
        requires
            old(self).wf(),
        ensures
            final(self).wf(),
            match r {
                Ok(id) => {
                    &&& old(self)@.next_id <= LAST_CALL_ID
                    &&& id == old(self)@.next_id
                    &&& !old(self)@.calls.contains_key(id)
                    &&& final(self)@ == (RegistryView {
                        calls: old(self)@.calls.insert(
                            id,
                            CallView::fresh(Direction::Outbound, kind, 0),
                        ),
                        next_id: (id + 2) as u64,
                        initiator: old(self)@.initiator,
                    })
                },
                Err(e) => {
                    &&& e == MuxError::CallIdsExhausted
                    &&& old(self)@.next_id > LAST_CALL_ID
                    &&& final(self)@ == old(self)@
                },
            },
    {
        broadcast use vstd::std_specs::hash::group_hash_axioms;

        if self.next_id > LAST_CALL_ID {
            return Err(MuxError::CallIdsExhausted);
        }
        let id: u64 = self.next_id;
        let call = Call::new(Direction::Outbound, kind, 0);
        self.calls.insert(id, call);
        self.next_id = id + 2;
        proof {
            assert(self@.calls =~= old(self)@.calls.insert(
                id,
                CallView::fresh(Direction::Outbound, kind, 0),
            ));
        }
        Ok(id)
    }

    /// Why a peer may not open a call under `id`, if it may not.
    pub fn refusal(&self, id: u64) -> (r: Option<MuxError>)
        ensures
            r == self@.refusal(id),
    {
        broadcast use vstd::std_specs::hash::group_hash_axioms;

        if self.calls.contains_key(&id) {
            Some(MuxError::DuplicateCallId)
        } else if self.is_local(id) {
            Some(MuxError::UnknownCall)
        } else {
            None
        }
    }

    /// Opens the inbound call that a peer announced under `id`. An id that
    /// is still in the registry is refused as `DuplicateCallId`, and the call
    /// that stands under it is left as it was. An id of this side's own half
    /// that is not in the registry is refused as `UnknownCall`: only this side
    /// can open a call under it.
    pub fn accept(&mut self, id: u64, kind: CallKind, method: usize) -> (r: Result<(), MuxError>)
        requires
            old(self).wf(),
        ensures
            final(self).wf(),
            match r {
                Ok(()) => {
                    &&& old(self)@.refusal(id) is None
                    &&& final(self)@ == old(self)@.with_call(
                        id,
                        CallView::fresh(Direction::Inbound, kind, method),
                    )
                },
                Err(e) => old(self)@.refusal(id) == Some(e) && final(self)@ == old(self)@,
            },
    {
        broadcast use vstd::std_specs::hash::group_hash_axioms;

        if let Some(e) = self.refusal(id) {
            return Err(e);
        }
        let call = Call::new(Direction::Inbound, kind, method);
        self.calls.insert(id, call);
        proof {
            assert(self@.calls =~= old(self)@.calls.insert(
                id,
                CallView::fresh(Direction::Inbound, kind, method),
            ));
        }
        Ok(())
    }

    /// Whether a call stands under `id`.
    pub fn contains(&self, id: u64) -> (b: bool)
        ensures
            b == self@.calls.contains_key(id),
    {
        broadcast use vstd::std_specs::hash::group_hash_axioms;

        self.calls.contains_key(&id)
    }

    /// The call that stands under `id`, if one does.
    pub fn lookup(&self, id: u64) -> (r: Option<&Call>)
        ensures
            match r {
                Some(call) => self@.calls.contains_key(id) && self@.calls[id] == call@,
                None => !self@.calls.contains_key(id),
            },
    {
        broadcast use vstd::std_specs::hash::group_hash_axioms;

        self.calls.get(&id)
    }

    /// Removes the call that stands under `id`. Retiring an id under which
    /// no call stands changes nothing.
    pub fn retire(&mut self, id: u64)
        requires
            old(self).wf(),
        ensures
            final(self).wf(),
            final(self)@ == old(self)@.without(id),
    {
        broadcast use vstd::std_specs::hash::group_hash_axioms;

        self.calls.remove(&id);
        proof {
            assert(self@.calls =~= old(self)@.calls.remove(id));
        }
    }

    /// Takes the call that stands under `id` out of the registry, to be
    /// changed and put back.
    pub(crate) fn take(&mut self, id: u64) -> (r: Option<Call>)
        requires
            old(self).wf(),
        ensures
            final(self).wf(),
            final(self)@ == old(self)@.without(id),
            match r {
                Some(call) => old(self)@.calls.contains_key(id) && old(self)@.calls[id] == call@
                    && old(self)@.admits(id, call@),
                None => !old(self)@.calls.contains_key(id),
            },
    {
        broadcast use vstd::std_specs::hash::group_hash_axioms;

        let r = self.calls.remove(&id);
        proof {
            assert(self@.calls =~= old(self)@.calls.remove(id));
            if r is Some {
                assert(old(self)@.calls.contains_key(id));
            }
        }
        r
    }

    /// Puts a call under `id`, in place of the one that stood there.
    pub(crate) fn put(&mut self, id: u64, call: Call)
        requires
            old(self).wf(),
            old(self)@.admits(id, call@),
        ensures
            final(self).wf(),
            final(self)@ == old(self)@.with_call(id, call@),
    {
        broadcast use vstd::std_specs::hash::group_hash_axioms;

        let ghost view = call@;
        self.calls.insert(id, call);
        proof {
            assert(self@.calls =~= old(self)@.calls.insert(id, view));
        }
    }

    /// Fails with `e` every call that has not ended, and gives the ids of
    /// those calls, each once. A call that had ended keeps the end it had.
    pub fn fail_all(&mut self, e: MuxError) -> (failed: Vec<u64>)
        requires
            old(self).wf(),
        ensures
            final(self).wf(),
            final(self)@ == old(self)@.fail_all(e),
            failed@.no_duplicates(),
            failed@.to_set() == old(self)@.live_ids(),
    {
        let ids = self.ids();
        let mut failed: Vec<u64> = Vec::new();
        let ghost before = self@;
        let mut i: usize = 0;
        while i < ids.len()
            invariant
                i <= ids@.len(),
                ids@.no_duplicates(),
                ids@.to_set() == before.calls.dom(),
                before.wf(),
                self.wf(),
                self@.next_id == before.next_id,
                self@.initiator == before.initiator,
                self@.calls.dom() == before.calls.dom(),
                forall|k: u64| #[trigger]
                    before.calls.contains_key(k) ==> self@.calls[k] == (if ids@.subrange(
                        0,
                        i as int,
                    ).contains(k) {
                        before.calls[k].fail(e)
                    } else {
                        before.calls[k]
                    }),
                failed@.no_duplicates(),
                forall|k: u64| #[trigger]
                    failed@.contains(k) <==> ids@.subrange(0, i as int).contains(k)
                        && before.calls[k].live(),
            decreases ids@.len() - i,
        {
            let id: u64 = ids[i];
            let ghost done = ids@.subrange(0, i as int);
            let ghost next = ids@.subrange(0, i + 1);
            proof {
                assert forall|k: u64| next.contains(k) <==> (k == id || done.contains(k)) by {
                    if k == id {
                        assert(next[i as int] == id);
                    }
                }
            }
            match self.take(id) {
                Some(mut call) => {
                    let was_live = call.is_live();
                    call.fail(e);
                    self.put(id, call);
                    let ghost prior = failed@;
                    if was_live {
                        proof {
                            assert(!failed@.contains(id));
                        }
                        failed.push(id);
                    }
                    proof {
                        assert forall|k: u64| #[trigger]
                            failed@.contains(k) <==> next.contains(k) && before.calls[k].live() by {
                            if was_live {
                                if prior.contains(k) {
                                    let j = choose|j: int| 0 <= j < prior.len() && prior[j] == k;
                                    assert(failed@[j] == k);
                                }
                                if k == id {
                                    assert(failed@[failed@.len() - 1] == id);
                                }
                            }
                        }
                    }
                },
                None => {},
            }
            i = i + 1;
        }
        proof {
            assert(ids@.subrange(0, i as int) =~= ids@);
            assert(self@.calls =~= before.fail_all(e).calls);
        }
        failed
    }

    /// The number of calls in the registry.
    pub fn len(&self) -> (n: usize)
        ensures
            n == self@.calls.dom().len(),
    {
        broadcast use vstd::std_specs::hash::group_hash_axioms;

        assert(self@.calls.dom() =~= self.calls@.dom());
        self.calls.len()
    }

    /// The ids of the calls in the registry, each once, in no particular
    /// order.
    pub fn ids(&self) -> (v: Vec<u64>)
        ensures
            v@.no_duplicates(),
            v@.to_set() == self@.calls.dom(),
    {
        broadcast use vstd::std_specs::hash::group_hash_axioms;

        let mut out: Vec<u64> = Vec::new();
        for k in it: self.calls.keys()
            invariant
                out@ == it.seq().unref().subrange(0, it.index() as int),
        {
            out.push(*k);
        }
        proof {
            let all = vstd::std_specs::hash::spec_keys_iter(&self.calls).remaining();
            assert(out@ =~= all.unref());
        }
        out
    }
}

} // verus!
