//! The simulation world: the live vehicles in spawn order and the spawn
//! throttle, advanced one tick at a time.

use crate::heading::{ApproachDirection, Route};
use crate::random::random_route;
use crate::scene::{sprite_of, Sprite};
use crate::throttle::SpawnThrottle;
use crate::vehicle::{spawned_model, Vehicle, VehicleModel};
use vstd::prelude::*;

verus! {

/// The vehicles of `s` after one tick: each advanced, those now off screen
/// dropped, the order kept.
pub open spec fn survivors(s: Seq<VehicleModel>) -> Seq<VehicleModel>
    decreases s.len(),
{
    if s.len() == 0 {
        Seq::empty()
    } else {
        let rest = survivors(s.drop_last());
        let moved = s.last().advanced();
        if moved.off_screen() {
            rest
        } else {
            rest.push(moved)
        }
    }
}

/// After a tick every remaining vehicle is on screen and is the one-tick
/// advance of a vehicle that was there before; a vehicle whose advance is
/// on screen stays, and one whose advance is off screen is gone, so nothing
/// the tick removes comes back with it. The tick never adds vehicles.
pub proof fn lemma_off_screen_pruning(s: Seq<VehicleModel>)
    ensures
        survivors(s).len() <= s.len(),
        forall|i: int|
            0 <= i < survivors(s).len() ==> !(#[trigger] survivors(s)[i]).off_screen() && exists|
                j: int,
            |
                0 <= j < s.len() && survivors(s)[i] == (#[trigger] s[j]).advanced(),
        forall|j: int|
            0 <= j < s.len() && !(#[trigger] s[j]).advanced().off_screen() ==> survivors(
                s,
            ).contains(s[j].advanced()),
        forall|j: int|
            0 <= j < s.len() && (#[trigger] s[j]).advanced().off_screen() ==> !survivors(
                s,
            ).contains(s[j].advanced()),
    decreases s.len(),
{
    if s.len() > 0 {
        let p = s.drop_last();
        lemma_off_screen_pruning(p);
        let rest = survivors(p);
        let moved = s.last().advanced();
        assert forall|i: int| 0 <= i < survivors(s).len() implies !(#[trigger] survivors(
            s,
        )[i]).off_screen() && exists|j: int|
            0 <= j < s.len() && survivors(s)[i] == (#[trigger] s[j]).advanced() by {
            if i < rest.len() {
                assert(survivors(s)[i] == rest[i]);
                let j = choose|j: int| 0 <= j < p.len() && rest[i] == (#[trigger] p[j]).advanced();
                assert(s[j] == p[j]);
            } else {
                assert(s[s.len() - 1] == s.last());
            }
        }
        assert forall|j: int|
            0 <= j < s.len() && !(#[trigger] s[j]).advanced().off_screen() implies survivors(
                s,
            ).contains(s[j].advanced()) by {
            if j < p.len() {
                assert(s[j] == p[j]);
                let k = choose|k: int| 0 <= k < rest.len() && rest[k] == p[j].advanced();
                assert(survivors(s)[k] == rest[k]);
            } else {
                assert(survivors(s)[rest.len() as int] == moved);
            }
        }
        assert forall|j: int|
            0 <= j < s.len() && (#[trigger] s[j]).advanced().off_screen() implies !survivors(
                s,
            ).contains(s[j].advanced()) by {
            if survivors(s).contains(s[j].advanced()) {
                let k = choose|k: int| 0 <= k < survivors(s).len() && survivors(s)[k] == s[j].advanced();
                assert(!survivors(s)[k].off_screen());
            }
        }
    }
}

/// The models of a sequence of vehicles.
pub open spec fn models(v: Seq<Vehicle>) -> Seq<VehicleModel> {
    v.map_values(|x: Vehicle| x@)
}

/// The vehicles and the per-direction spawn cooldowns.
pub struct TrafficSimulation {
    vehicles: Vec<Vehicle>,
    throttle: SpawnThrottle,
}

impl TrafficSimulation {
    /// The live vehicles, in spawn order.
    pub closed spec fn fleet(self) -> Seq<VehicleModel> {
        models(self.vehicles@)
    }

    /// The spawn cooldowns.
    pub closed spec fn cooldowns(self) -> SpawnThrottle {
        self.throttle
    }

    /// Every live vehicle is on screen and the cooldowns are in range.
    pub closed spec fn wf(self) -> bool {
        &&& self.throttle.wf()
        &&& forall|i: int| 0 <= i < self.vehicles@.len() ==> !(#[trigger] self.vehicles@[i])@.off_screen()
    }

    /// An empty world with every direction ready to spawn.
    pub fn new() -> (r: TrafficSimulation)
        ensures
            r.wf(),
            r.fleet() == Seq::<VehicleModel>::empty(),
            r.cooldowns() == SpawnThrottle::new_spec(),
    {
        let r = TrafficSimulation { vehicles: Vec::new(), throttle: SpawnThrottle::new() };
        assert(models(r.vehicles@) =~= Seq::<VehicleModel>::empty());
        r
    }

    /// Requests a vehicle entering with heading `direction` on route
    /// `route`. Accepted, and appended, exactly when that direction's
    /// cooldown has run out.
    pub fn spawn_vehicle_with_route(&mut self, direction: ApproachDirection, route: Route) -> (r:
        bool)
        requires
            old(self).wf(),
        ensures
            final(self).wf(),
            r == old(self).cooldowns().ready(direction),
            final(self).cooldowns() == old(self).cooldowns().requested(direction),
            final(self).fleet() == if r {
                old(self).fleet().push(spawned_model(direction, route))
            } else {
                old(self).fleet()
            },
    {
        let accepted = self.throttle.try_spawn(direction);
        if accepted {
            let v = Vehicle::spawn(direction, route);
            self.vehicles.push(v);
            assert(models(self.vehicles@) =~= models(old(self).vehicles@).push(v@));
        }
        accepted
    }

    /// Requests a vehicle entering with heading `direction`. Accepted
    /// exactly when that direction's cooldown has run out; the new vehicle
    /// gets a route drawn at random.
    pub fn spawn_vehicle(&mut self, direction: ApproachDirection) -> (r: bool)
        requires
            old(self).wf(),
        ensures
            final(self).wf(),
            r == old(self).cooldowns().ready(direction),
            final(self).cooldowns() == old(self).cooldowns().requested(direction),
            r ==> exists|route: Route|
                final(self).fleet() == old(self).fleet().push(
                    #[trigger] spawned_model(direction, route),
                ),
            !r ==> final(self).fleet() == old(self).fleet(),
    {
        if self.throttle.is_ready(direction) {
            let route = random_route();
            self.spawn_vehicle_with_route(direction, route)
        } else {
            false
        }
    }

    /// One tick: cooldowns count down, every vehicle moves, and those now off
    /// screen are removed.
    pub fn update(&mut self)
        requires
            old(self).wf(),
        ensures
            final(self).wf(),
            final(self).cooldowns() == old(self).cooldowns().ticked(),
            final(self).fleet() == survivors(old(self).fleet()),
    {
        self.throttle.tick();
        let mut next: Vec<Vehicle> = Vec::new();
        let n = self.vehicles.len();
        let mut i: usize = 0;
        while i < n
            invariant
                n == self.vehicles@.len(),
                0 <= i <= n,
                self.wf(),
                models(next@) == survivors(models(self.vehicles@.take(i as int))),
                forall|j: int| 0 <= j < next@.len() ==> !(#[trigger] next@[j])@.off_screen(),
            decreases n - i,
        {
            let mut v = self.vehicles[i];
            assert(!self.vehicles@[i as int]@.off_screen());
            v.update();
            proof {
                let pre = models(self.vehicles@.take(i as int));
                let post = models(self.vehicles@.take(i + 1));
                assert(post.drop_last() =~= pre);
                assert(post.last() == self.vehicles@[i as int]@);
            }
            if !v.is_off_screen() {
                let ghost before = next@;
                next.push(v);
                assert(models(next@) =~= models(before).push(v@));
            }
            i = i + 1;
        }
        assert(self.vehicles@.take(n as int) =~= self.vehicles@);
        self.vehicles = next;
    }

    /// The live vehicles, in spawn order.
    pub fn vehicles(&self) -> (r: &Vec<Vehicle>)
        ensures
            models(r@) == self.fleet(),
    {
        &self.vehicles
    }

    /// What a renderer draws for each live vehicle, in spawn order.
    pub fn sprites(&self) -> (r: Vec<Sprite>)
        requires
            self.wf(),
        ensures
            r@.len() == self.fleet().len(),
            forall|i: int| 0 <= i < r@.len() ==> #[trigger] r@[i] == sprite_of(self.fleet()[i]),
    {
        let mut r: Vec<Sprite> = Vec::new();
        let mut i: usize = 0;
        while i < self.vehicles.len()
            invariant
                self.wf(),
                0 <= i <= self.vehicles@.len(),
                r@.len() == i,
                forall|j: int| 0 <= j < i ==> #[trigger] r@[j] == sprite_of(self.vehicles@[j]@),
            decreases self.vehicles@.len() - i,
        {
            assert(!self.vehicles@[i as int]@.off_screen());
            r.push(self.vehicles[i].sprite());
            i = i + 1;
        }
        r
    }

    /// The spawn cooldowns.
    pub fn throttle(&self) -> (r: SpawnThrottle)
        ensures
            r == self.cooldowns(),
    {
        self.throttle
    }
}

} // verus!
