use chanem::nineray::{nine_ray_pass, RayObservation, NUM_INTERMITTENT_RAYS};

fn obs(expired: bool, turns_on: bool) -> RayObservation {
    RayObservation { expired, turns_on }
}

#[test]
fn first_ray_turning_off_stops_the_pass() {
    // Fresh latch: every ray's duration is exceeded.  Ray 0 draws off, so no
    // later ray is refreshed or emitted, whatever it would have drawn.
    let mut latch = vec![false; NUM_INTERMITTENT_RAYS];
    let observations = vec![obs(true, false), obs(true, true), obs(true, true),
        obs(true, true), obs(true, true), obs(true, true), obs(true, true)];
    let plan = nine_ray_pass(&mut latch, &observations);
    assert_eq!(plan.refresh, vec![true, false, false, false, false, false, false]);
    assert_eq!(plan.emit, vec![false; 7]);
    assert_eq!(latch, vec![false; 7]);
}

#[test]
fn rays_latch_on_until_the_first_off_ray() {
    // Rays 0 and 1 draw on, ray 2 draws off: exactly rays 0..2 are
    // refreshed, rays 0 and 1 emit, and rays 3..6 are untouched even though
    // their durations are exceeded too.
    let mut latch = vec![false; 7];
    let observations = vec![obs(true, true), obs(true, true), obs(true, false),
        obs(true, true), obs(true, true), obs(true, true), obs(true, true)];
    let plan = nine_ray_pass(&mut latch, &observations);
    assert_eq!(plan.refresh, vec![true, true, true, false, false, false, false]);
    assert_eq!(plan.emit, vec![true, true, false, false, false, false, false]);
    assert_eq!(latch, vec![true, true, false, false, false, false, false]);
}

#[test]
fn held_rays_emit_without_a_refresh() {
    // Rays 0 and 1 are on and inside their spatial duration: they emit
    // without a new draw; ray 2 is off and inside its duration, stopping the
    // pass.
    let mut latch = vec![true, true, false, true, false, false, false];
    let observations = vec![obs(false, false); 7];
    let plan = nine_ray_pass(&mut latch, &observations);
    assert_eq!(plan.refresh, vec![false; 7]);
    assert_eq!(plan.emit, vec![true, true, false, false, false, false, false]);
    assert_eq!(latch, vec![true, true, false, true, false, false, false]);
}

#[test]
fn monotone_latch_ray_after_off_ray_is_untouched() {
    // Ray 1 is on but stale (its latch flag says on from an earlier sample),
    // while ray 0 holds off: the pass must not reach ray 1.
    let mut latch = vec![false, true, true, true, true, true, true];
    let observations = vec![obs(false, false); 7];
    let plan = nine_ray_pass(&mut latch, &observations);
    assert_eq!(plan.refresh, vec![false; 7]);
    assert_eq!(plan.emit, vec![false; 7]);
    assert_eq!(latch, vec![false, true, true, true, true, true, true]);
}

#[test]
fn all_rays_on_emit_all_seven() {
    let mut latch = vec![false; 7];
    let observations = vec![obs(true, true); 7];
    let plan = nine_ray_pass(&mut latch, &observations);
    assert_eq!(plan.refresh, vec![true; 7]);
    assert_eq!(plan.emit, vec![true; 7]);
    assert_eq!(latch, vec![true; 7]);
}

#[test]
fn pass_is_deterministic_on_equal_inputs() {
    // With the random draws fixed, two identical samples produce identical
    // plans and identical latch states.
    let observations = vec![obs(true, true), obs(false, false), obs(true, true),
        obs(true, false), obs(true, true), obs(false, false), obs(true, true)];
    let mut latch_a = vec![false, true, false, true, false, true, false];
    let mut latch_b = latch_a.clone();
    let plan_a = nine_ray_pass(&mut latch_a, &observations);
    let plan_b = nine_ray_pass(&mut latch_b, &observations);
    assert_eq!(plan_a.refresh, plan_b.refresh);
    assert_eq!(plan_a.emit, plan_b.emit);
    assert_eq!(latch_a, latch_b);
}
