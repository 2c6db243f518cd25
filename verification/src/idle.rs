//! When each call was last heard of.
//!
//! The library reads no clock. The program that owns a connection tells it
//! the time, in whatever unit it likes, and the connection notes that time
//! with each call that a frame is sent or received for. A call is overdue
//! when nothing was noted for it for as long as calls may stay idle, and the
//! peer is silent when nothing at all has arrived from it for as long as it
//! may keep quiet.

use vstd::prelude::*;
use std::collections::HashMap;

verus! {

/// What an idle clock holds, as plain values.
pub struct IdleView {
    /// The latest time that the clock was told.
    pub now: u64,
    /// How long a call may stay idle, if calls time out at all.
    pub limit: Option<u64>,
    /// For each call, the time at which it was last heard of.
    pub seen: Map<u64, u64>,
    /// The time at which something last arrived from the peer.
    pub heard: u64,
    /// How long the peer may keep quiet, if that is limited at all.
    pub keep_alive: Option<u64>,
}

impl IdleView {
    /// A clock at time zero that has heard of no call.
    pub open spec fn fresh() -> IdleView {
        IdleView { now: 0, limit: None, seen: Map::empty(), heard: 0, keep_alive: None }
    }

    /// The clock after it was told the time `now`. Time does not run
    /// backwards: an earlier time than the clock knows changes nothing.
    pub open spec fn advance(self, now: u64) -> IdleView {
        if now > self.now {
            IdleView { now, ..self }
        } else {
            self
        }
    }

    /// The clock after the call `id` was heard of.
    pub open spec fn touch(self, id: u64) -> IdleView {
        IdleView { seen: self.seen.insert(id, self.now), ..self }
    }

    /// The clock without the call `id`.
    pub open spec fn forget(self, id: u64) -> IdleView {
        IdleView { seen: self.seen.remove(id), ..self }
    }

    /// The clock after something arrived from the peer.
    pub open spec fn hear(self) -> IdleView {
        IdleView { heard: self.now, ..self }
    }

    /// Whether the peer has kept quiet for as long as it may.
    pub open spec fn silent(self) -> bool {
        self.keep_alive is Some && self.now - self.heard >= self.keep_alive.unwrap()
    }

    /// Whether the call `id` has been idle for as long as calls may be.
    pub open spec fn overdue(self, id: u64) -> bool {
        &&& self.limit is Some
        &&& self.seen.contains_key(id)
        &&& self.now - self.seen[id] >= self.limit.unwrap()
    }
}

/// The times at which calls were last heard of.
pub struct IdleClock {
    now: u64,
    limit: Option<u64>,
    seen: HashMap<u64, u64>,
    heard: u64,
    keep_alive: Option<u64>,
}

impl View for IdleClock {
    type V = IdleView;

    closed spec fn view(&self) -> IdleView {
        IdleView {
            now: self.now,
            limit: self.limit,
            seen: self.seen@,
            heard: self.heard,
            keep_alive: self.keep_alive,
        }
    }
}

impl IdleClock {
    /// A clock at time zero, without a limit, that has heard of no call.
    pub fn new() -> (c: IdleClock)
        ensures
            c@ == IdleView::fresh(),
    {
        IdleClock { now: 0, limit: None, seen: HashMap::new(), heard: 0, keep_alive: None }
    }

    /// Sets how long a call may stay idle; `None` lets calls stay idle for
    /// ever.
    pub fn set_limit(&mut self, limit: Option<u64>)
        ensures
            final(self)@ == (IdleView { limit, ..old(self)@ }),
    {
        self.limit = limit;
    }

    /// Sets how long the peer may keep quiet; `None` lets it keep quiet for
    /// ever.
    pub fn set_keep_alive(&mut self, keep_alive: Option<u64>)
        ensures
            final(self)@ == (IdleView { keep_alive, ..old(self)@ }),
    {
        self.keep_alive = keep_alive;
    }

    /// Notes that something arrived from the peer now.
    pub fn hear(&mut self)
        ensures
            final(self)@ == old(self)@.hear(),
    {
        self.heard = self.now;
    }

    /// Whether the peer has kept quiet for as long as it may.
    pub fn is_silent(&self) -> (b: bool)
        ensures
            b == self@.silent(),
    {
        match self.keep_alive {
            None => false,
            Some(limit) => self.heard <= self.now && self.now - self.heard >= limit,
        }
    }

    /// Tells the clock the time.
    pub fn advance(&mut self, now: u64)
        ensures
            final(self)@ == old(self)@.advance(now),
    {
        if now > self.now {
            self.now = now;
        }
    }

    /// Notes that the call `id` was heard of now.
    pub fn touch(&mut self, id: u64)
        ensures
            final(self)@ == old(self)@.touch(id),
    {
        broadcast use vstd::std_specs::hash::group_hash_axioms;

        self.seen.insert(id, self.now);
    }

    /// Drops what was noted for the call `id`.
    pub fn forget(&mut self, id: u64)
        ensures
            final(self)@ == old(self)@.forget(id),
    {
        broadcast use vstd::std_specs::hash::group_hash_axioms;

        self.seen.remove(&id);
    }

    /// Whether the call `id` has been idle for as long as calls may be.
    pub fn is_overdue(&self, id: u64) -> (b: bool)
        ensures
            b == self@.overdue(id),
    {
        broadcast use vstd::std_specs::hash::group_hash_axioms;

        match self.limit {
            None => false,
            Some(limit) => {
                match self.seen.get(&id) {
                    None => false,
                    Some(at) => *at <= self.now && self.now - *at >= limit,
                }
            },
        }
    }

    /// The latest time that the clock was told.
    pub fn now(&self) -> (t: u64)
        ensures
            t == self@.now,
    {
        self.now
    }
}

} // verus!
