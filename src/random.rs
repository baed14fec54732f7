//! Random choice of a route for a new vehicle.

use crate::heading::Route;
use rand::Rng;
use vstd::prelude::*;

verus! {

/// Relies on `rand::rng()` and `Rng::random_range` (rand 0.9): a value
/// drawn from `0..n`, which is never empty here.
#[verifier::external_body]
fn random_below(n: usize) -> (r: usize)
    requires
        n > 0,
    ensures
        r < n,
{
    rand::rng().random_range(0..n)
}

/// The route numbered `i` in the order straight, left, right.
pub open spec fn route_at(i: int) -> Route {
    if i == 0 {
        Route::Straight
    } else if i == 1 {
        Route::TurnLeft
    } else {
        Route::TurnRight
    }
}

/// Maps an index below three to its route; every route has exactly one index.
pub fn route_from_index(i: usize) -> (r: Route)
    requires
        i < 3,
    ensures
        r == route_at(i as int),
{
    if i == 0 {
        Route::Straight
    } else if i == 1 {
        Route::TurnLeft
    } else {
        Route::TurnRight
    }
}

/// A route drawn uniformly from the three.
pub fn random_route() -> (r: Route) {
    let i = random_below(3);
    route_from_index(i)
}

} // verus!
