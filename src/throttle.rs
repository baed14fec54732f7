//! The per-approach spawn cooldown, counted in ticks.

use crate::geometry::SPAWN_COOLDOWN_TICKS;
use crate::heading::ApproachDirection;
use vstd::prelude::*;

verus! {

/// Remaining cooldown ticks for each approach direction.
#[derive(Clone, Copy, Debug, PartialEq, Eq, Structural)]
pub struct SpawnThrottle {
    pub north: u32,
    pub south: u32,
    pub east: u32,
    pub west: u32,
}

/// What can happen to the throttle: a tick, or a spawn request on a
/// direction.
#[derive(Clone, Copy, Debug, PartialEq, Eq, Structural)]
pub enum ThrottleEvent {
    Tick,
    Request(ApproachDirection),
}

/// Number of ticks among `evs`.
pub open spec fn tick_count(evs: Seq<ThrottleEvent>) -> nat
    decreases evs.len(),
{
    if evs.len() == 0 {
        0
    } else {
        tick_count(evs.drop_last()) + if evs.last() == ThrottleEvent::Tick {
            1nat
        } else {
            0nat
        }
    }
}

/// One cooldown counter after a tick: down by one, stopping at zero.
pub open spec fn count_down(c: u32) -> u32 {
    if c > 0 {
        (c - 1) as u32
    } else {
        0
    }
}

impl SpawnThrottle {
    /// Ticks left before direction `d` accepts a spawn again.
    pub open spec fn remaining(self, d: ApproachDirection) -> u32 {
        match d {
            ApproachDirection::North => self.north,
            ApproachDirection::South => self.south,
            ApproachDirection::East => self.east,
            ApproachDirection::West => self.west,
        }
    }

    /// No counter exceeds the cooldown length.
    pub open spec fn wf(self) -> bool {
        &&& self.north <= SPAWN_COOLDOWN_TICKS
        &&& self.south <= SPAWN_COOLDOWN_TICKS
        &&& self.east <= SPAWN_COOLDOWN_TICKS
        &&& self.west <= SPAWN_COOLDOWN_TICKS
    }

    /// Direction `d` accepts a spawn now.
    pub open spec fn ready(self, d: ApproachDirection) -> bool {
        self.remaining(d) == 0
    }

    /// The counters after an accepted spawn on `d`: that counter restarts,
    /// the others stay.
    pub open spec fn spawned(self, d: ApproachDirection) -> SpawnThrottle {
        match d {
            ApproachDirection::North => SpawnThrottle { north: SPAWN_COOLDOWN_TICKS, ..self },
            ApproachDirection::South => SpawnThrottle { south: SPAWN_COOLDOWN_TICKS, ..self },
            ApproachDirection::East => SpawnThrottle { east: SPAWN_COOLDOWN_TICKS, ..self },
            ApproachDirection::West => SpawnThrottle { west: SPAWN_COOLDOWN_TICKS, ..self },
        }
    }

    /// The state a spawn request on `d` leaves: restarted if accepted,
    /// untouched if refused.
    pub open spec fn requested(self, d: ApproachDirection) -> SpawnThrottle {
        if self.ready(d) {
            self.spawned(d)
        } else {
            self
        }
    }

    /// The counters after one tick.
    pub open spec fn ticked(self) -> SpawnThrottle {
        SpawnThrottle {
            north: count_down(self.north),
            south: count_down(self.south),
            east: count_down(self.east),
            west: count_down(self.west),
        }
    }

    /// The counters after `n` ticks.
    pub open spec fn ticked_n(self, n: nat) -> SpawnThrottle
        decreases n,
    {
        if n == 0 {
            self
        } else {
            self.ticked_n((n - 1) as nat).ticked()
        }
    }

    /// The throttle on which every direction is ready.
    pub open spec fn new_spec() -> SpawnThrottle {
        SpawnThrottle { north: 0, south: 0, east: 0, west: 0 }
    }

    /// A throttle on which every direction is ready.
    pub fn new() -> (r: SpawnThrottle)
        ensures
            r.wf(),
            r == SpawnThrottle::new_spec(),
    {
        SpawnThrottle { north: 0, south: 0, east: 0, west: 0 }
    }

    /// Ticks left before direction `d` accepts a spawn again.
    pub fn remaining_ticks(&self, d: ApproachDirection) -> (r: u32)
        ensures
            r == self.remaining(d),
    {
        match d {
            ApproachDirection::North => self.north,
            ApproachDirection::South => self.south,
            ApproachDirection::East => self.east,
            ApproachDirection::West => self.west,
        }
    }

    /// Direction `d` accepts a spawn now.
    pub fn is_ready(&self, d: ApproachDirection) -> (r: bool)
        ensures
            r == self.ready(d),
    {
        self.remaining_ticks(d) == 0
    }

    /// Accepts a spawn on `d` if its cooldown has run out, restarting that
    /// cooldown; otherwise refuses and changes nothing.
    pub fn try_spawn(&mut self, d: ApproachDirection) -> (r: bool)
        ensures
            r == old(self).ready(d),
            *final(self) == old(self).requested(d),
            old(self).wf() ==> final(self).wf(),
    {
        if !self.is_ready(d) {
            return false;
        }
        match d {
            ApproachDirection::North => self.north = SPAWN_COOLDOWN_TICKS,
            ApproachDirection::South => self.south = SPAWN_COOLDOWN_TICKS,
            ApproachDirection::East => self.east = SPAWN_COOLDOWN_TICKS,
            ApproachDirection::West => self.west = SPAWN_COOLDOWN_TICKS,
        }
        true
    }

    /// Counts every nonzero cooldown down by one.
    pub fn tick(&mut self)
        ensures
            *final(self) == old(self).ticked(),
            old(self).wf() ==> final(self).wf(),
    {
        if self.north > 0 {
            self.north = self.north - 1;
        }
        if self.south > 0 {
            self.south = self.south - 1;
        }
        if self.east > 0 {
            self.east = self.east - 1;
        }
        if self.west > 0 {
            self.west = self.west - 1;
        }
    }
}

impl SpawnThrottle {
    /// The state after event `e`.
    pub open spec fn after_event(self, e: ThrottleEvent) -> SpawnThrottle {
        match e {
            ThrottleEvent::Tick => self.ticked(),
            ThrottleEvent::Request(d) => self.requested(d),
        }
    }

    /// The state after the events `evs`, in order.
    pub open spec fn after_events(self, evs: Seq<ThrottleEvent>) -> SpawnThrottle
        decreases evs.len(),
    {
        if evs.len() == 0 {
            self
        } else {
            self.after_events(evs.drop_last()).after_event(evs.last())
        }
    }

    /// No request on `d` among `evs` is accepted, starting from `self`.
    pub open spec fn no_spawn_on(self, evs: Seq<ThrottleEvent>, d: ApproachDirection) -> bool {
        forall|i: int|
            0 <= i < evs.len() && #[trigger] evs[i] == ThrottleEvent::Request(d) ==> !self.after_events(
                evs.take(i),
            ).ready(d)
    }
}

/// While no spawn on `d` is accepted, its counter only counts down: events
/// keep well-formedness, and the counter drops by one per tick until zero.
pub proof fn lemma_cooldown_counts_down(t: SpawnThrottle, evs: Seq<ThrottleEvent>, d: ApproachDirection)
    requires
        t.wf(),
        t.no_spawn_on(evs, d),
    ensures
        t.after_events(evs).wf(),
        t.after_events(evs).remaining(d) == if t.remaining(d) >= tick_count(evs) {
            t.remaining(d) - tick_count(evs)
        } else {
            0
        },
    decreases evs.len(),
{
    if evs.len() > 0 {
        let p = evs.drop_last();
        assert forall|i: int|
            0 <= i < p.len() && #[trigger] p[i] == ThrottleEvent::Request(d) implies !t.after_events(
                p.take(i),
            ).ready(d) by {
            assert(p.take(i) =~= evs.take(i));
            assert(evs[i] == p[i]);
        }
        lemma_cooldown_counts_down(t, p, d);
        if evs.last() == ThrottleEvent::Request(d) {
            assert(evs.take(evs.len() - 1) =~= p);
            assert(evs[evs.len() - 1] == evs.last());
        }
    }
}

/// Spawns on different directions do not interfere: a request on `a` leaves
/// the counter of `b` as it was, so if both are ready both requests succeed.
pub proof fn lemma_directions_independent(t: SpawnThrottle, a: ApproachDirection, b: ApproachDirection)
    requires
        a != b,
    ensures
        t.requested(a).remaining(b) == t.remaining(b),
        t.ready(a) && t.ready(b) ==> t.requested(a).ready(b),
{
}

/// Within one cooldown window a direction accepts one spawn: after an
/// accepted request on `d`, fewer than the cooldown length of ticks, and
/// any requests on other directions, a second request on `d` is refused.
pub proof fn lemma_one_spawn_per_window(t: SpawnThrottle, evs: Seq<ThrottleEvent>, d: ApproachDirection)
    requires
        t.wf(),
        t.ready(d),
        tick_count(evs) < SPAWN_COOLDOWN_TICKS,
        forall|i: int| 0 <= i < evs.len() ==> #[trigger] evs[i] != ThrottleEvent::Request(d),
    ensures
        !t.requested(d).after_events(evs).ready(d),
{
    let s = t.requested(d);
    assert(s.no_spawn_on(evs, d));
    lemma_cooldown_counts_down(s, evs, d);
}

/// After the cooldown length of ticks with no accepted spawn on `d`,
/// whatever else happened, a request on `d` is accepted.
pub proof fn lemma_throttle_recovery(t: SpawnThrottle, evs: Seq<ThrottleEvent>, d: ApproachDirection)
    requires
        t.wf(),
        t.no_spawn_on(evs, d),
        tick_count(evs) >= SPAWN_COOLDOWN_TICKS,
    ensures
        t.after_events(evs).ready(d),
{
    lemma_cooldown_counts_down(t, evs, d);
}

} // verus!
