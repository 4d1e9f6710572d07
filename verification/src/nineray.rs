//! On/off schedule of the nine-ray model's intermittent rays.
//!
//! The suburban model extends the curved-earth two-ray paths with up to
//! seven intermittent rays.  Each ray holds a latch: an anchor position and
//! a remaining spatial duration, plus an on/off flag.  Per position sample,
//! ray `k` is examined only while every earlier ray ended the sample on:
//! the first ray that ends off stops the pass.  An examined ray whose
//! spatial duration is exceeded is refreshed (new on/off draw, new duration,
//! new anchor); an examined ray that is on contributes a path.
//!
//! The floating-point parts of the latch (anchor coordinates, durations,
//! the regression-driven draws) live in the shell.  The shell reports per
//! ray whether its duration is exceeded and, for that case, the fresh
//! on/off draw; this module decides which rays are refreshed and which
//! emit, and updates the on/off flags — the part of the state the schedule
//! depends on.

use vstd::prelude::*;

verus! {

/// Number of intermittent rays of the suburban model.
pub const NUM_INTERMITTENT_RAYS: usize = 7;

/// What the shell observed about one ray for the current position sample.
#[derive(Clone, Copy, Debug, PartialEq, Eq, Structural)]
pub struct RayObservation {
    /// The distance from the ray's anchor to the current position exceeds
    /// its remaining spatial duration.
    pub expired: bool,
    /// The fresh on/off draw (`u < p`); meaningful only when `expired`.
    pub turns_on: bool,
}

/// Which rays the current sample refreshes and which contribute a path.
pub struct NineRayPlan {
    /// `refresh[k]`: ray `k` draws a new duration and moves its anchor to
    /// the current position, with `turns_on` as its new flag.
    pub refresh: Vec<bool>,
    /// `emit[k]`: ray `k` contributes one path to the output list.
    pub emit: Vec<bool>,
}

/// The on/off flag of ray `k` after its own update in this sample.
pub open spec fn ray_on_after_spec(latch0: Seq<bool>, obs: Seq<RayObservation>, k: int) -> bool {
    if obs[k].expired {
        obs[k].turns_on
    } else {
        latch0[k]
    }
}

/// Whether the pass reaches ray `k`: every earlier ray ended the sample on.
pub open spec fn ray_processed_spec(latch0: Seq<bool>, obs: Seq<RayObservation>, k: int) -> bool
    decreases k,
{
    if k <= 0 {
        true
    } else {
        ray_processed_spec(latch0, obs, k - 1) && ray_on_after_spec(latch0, obs, k - 1)
    }
}

/// One per-sample pass over the seven rays.  `latch` holds the on/off flags
/// and is updated in place; the returned plan tells the shell which rays to
/// refresh (anchor and duration) and which rays contribute a path.
pub fn nine_ray_pass(latch: &mut Vec<bool>, obs: &Vec<RayObservation>) -> (plan: NineRayPlan)
    requires
        old(latch)@.len() == NUM_INTERMITTENT_RAYS,
        obs@.len() == NUM_INTERMITTENT_RAYS,
    ensures
        final(latch)@.len() == NUM_INTERMITTENT_RAYS,
        plan.refresh@.len() == NUM_INTERMITTENT_RAYS,
        plan.emit@.len() == NUM_INTERMITTENT_RAYS,
        forall|k: int|
            0 <= k < NUM_INTERMITTENT_RAYS ==> #[trigger] plan.refresh@[k] == (ray_processed_spec(
                old(latch)@,
                obs@,
                k,
            ) && obs@[k].expired),
        forall|k: int|
            0 <= k < NUM_INTERMITTENT_RAYS ==> #[trigger] plan.emit@[k] == (ray_processed_spec(
                old(latch)@,
                obs@,
                k,
            ) && ray_on_after_spec(old(latch)@, obs@, k)),
        forall|k: int|
            0 <= k < NUM_INTERMITTENT_RAYS ==> #[trigger] final(latch)@[k] == (if plan.refresh@[k] {
                obs@[k].turns_on
            } else {
                old(latch)@[k]
            }),
{
    let mut refresh: Vec<bool> = Vec::new();
    let mut emit: Vec<bool> = Vec::new();
    let mut active: bool = true;
    let mut k: usize = 0;
    while k < NUM_INTERMITTENT_RAYS
        invariant
            k <= NUM_INTERMITTENT_RAYS,
            latch@.len() == NUM_INTERMITTENT_RAYS,
            obs@.len() == NUM_INTERMITTENT_RAYS,
            refresh@.len() == k,
            emit@.len() == k,
            active == ray_processed_spec(old(latch)@, obs@, k as int),
            forall|j: int|
                0 <= j < k ==> #[trigger] refresh@[j] == (ray_processed_spec(old(latch)@, obs@, j)
                    && obs@[j].expired),
            forall|j: int|
                0 <= j < k ==> #[trigger] emit@[j] == (ray_processed_spec(old(latch)@, obs@, j)
                    && ray_on_after_spec(old(latch)@, obs@, j)),
            forall|j: int|
                0 <= j < k ==> #[trigger] latch@[j] == (if refresh@[j] {
                    obs@[j].turns_on
                } else {
                    old(latch)@[j]
                }),
            forall|j: int| k <= j < NUM_INTERMITTENT_RAYS ==> #[trigger] latch@[j] == old(latch)@[j],
        decreases NUM_INTERMITTENT_RAYS - k,
    {
        if active {
            let o = obs[k];
            if o.expired {
                latch.set(k, o.turns_on);
                refresh.push(true);
                emit.push(o.turns_on);
                active = o.turns_on;
            } else {
                let on = latch[k];
                refresh.push(false);
                emit.push(on);
                active = on;
            }
        } else {
            refresh.push(false);
            emit.push(false);
        }
        k = k + 1;
    }
    NineRayPlan { refresh, emit }
}

/// Nine-ray monotone latch: if ray `k - 1` ends the current sample off,
/// the pass never reaches ray `k`, so by the contract of
/// [`nine_ray_pass`] ray `k` is neither refreshed nor emitted in that
/// sample.
pub proof fn lemma_nine_ray_monotone_latch(
    latch0: Seq<bool>,
    obs: Seq<RayObservation>,
    k: int,
)
    requires
        1 <= k < NUM_INTERMITTENT_RAYS,
        !(ray_processed_spec(latch0, obs, k - 1) && ray_on_after_spec(latch0, obs, k - 1)),
    ensures
        !ray_processed_spec(latch0, obs, k),
{
}

} // verus!
