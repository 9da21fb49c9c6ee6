//! The spawner: a countdown that asks for a new cube each time it runs out,
//! and a queue of the cubes still asked for.

use vstd::prelude::*;
use crate::layers::{CollisionLayers, GameLayer};
use crate::motion::Vec3;
use crate::scene::falling_cube_layers;

verus! {

/// The time from the start until the first cube is asked for: one second.
pub const FIRST_DELAY: u64 = 1_000_000_000;

/// The time from one request to the next: three seconds.
pub const PERIOD: u64 = 3_000_000_000;

/// The speed at which a new cube starts to fall: one unit per second,
/// downwards.
pub const FALL_SPEED: i32 = -1000;

/// What is left of a countdown, in nanoseconds. It is never negative.
#[derive(Clone, Copy, Debug, PartialEq, Eq, Structural)]
pub struct Timer {
    pub time: u64,
}

/// The number of cubes that were asked for and not spawned yet.
#[derive(Clone, Copy, Debug, PartialEq, Eq, Structural)]
pub struct Spawner {
    pub queue: i32,
}

impl Timer {
    /// The countdown at the start: [`FIRST_DELAY`] is left of it.
    pub fn new() -> (timer: Timer)
        ensures
            timer.time == FIRST_DELAY,
    {
        Timer { time: FIRST_DELAY }
    }
}

impl Spawner {
    /// The spawner at the start: no cube is asked for.
    pub fn new() -> (spawner: Spawner)
        ensures
            spawner.queue == 0,
    {
        Spawner { queue: 0 }
    }
}

/// What the spawner decides of a new cube: its layers and the velocity it
/// starts with.
#[derive(Clone, Copy, Debug, PartialEq, Eq)]
pub struct FallingCube {
    pub layers: CollisionLayers,
    pub linear: Vec3,
}

/// Whether a countdown at `time` runs out within `delta`: when less than
/// `delta` is left of it. A countdown that just reaches zero has not run out.
pub open spec fn runs_out(time: u64, delta: u64) -> bool {
    time < delta
}

/// The countdown after `delta` has passed: it starts again at [`PERIOD`] if it
/// ran out, and is `delta` shorter if not.
pub open spec fn time_after(time: u64, delta: u64) -> u64 {
    if runs_out(time, delta) {
        PERIOD
    } else {
        (time - delta) as u64
    }
}

/// The queue after `delta` has passed: one longer if the countdown ran out.
pub open spec fn queue_after_tick(queue: int, time: u64, delta: u64) -> int {
    if runs_out(time, delta) {
        queue + 1
    } else {
        queue
    }
}

/// The queue after the spawner had its turn: one shorter if a cube was asked
/// for.
pub open spec fn queue_after_spawn(queue: int) -> int {
    if queue > 0 {
        queue - 1
    } else {
        queue
    }
}

/// The time that passes in the frames `deltas` altogether.
pub open spec fn elapsed(deltas: Seq<u64>) -> int
    decreases deltas.len(),
{
    if deltas.len() == 0 {
        0
    } else {
        elapsed(deltas.drop_last()) + deltas.last()
    }
}

/// The countdown after each of the frames `deltas` has passed in turn.
pub open spec fn time_after_all(time: u64, deltas: Seq<u64>) -> u64
    decreases deltas.len(),
{
    if deltas.len() == 0 {
        time
    } else {
        time_after(time_after_all(time, deltas.drop_last()), deltas.last())
    }
}

/// How often the countdown runs out while the frames `deltas` pass in turn.
pub open spec fn times_run_out(time: u64, deltas: Seq<u64>) -> nat
    decreases deltas.len(),
{
    if deltas.len() == 0 {
        0
    } else if runs_out(time_after_all(time, deltas.drop_last()), deltas.last()) {
        times_run_out(time, deltas.drop_last()) + 1
    } else {
        times_run_out(time, deltas.drop_last())
    }
}

/// Lets `delta` nanoseconds pass. If the countdown runs out, it starts again
/// and one more cube is asked for.
pub fn spawn_timer_system(delta: u64, timer: &mut Timer, spawner: &mut Spawner)
    requires
        runs_out(old(timer).time, delta) ==> old(spawner).queue < i32::MAX,
    ensures
        final(timer).time == time_after(old(timer).time, delta),
        final(spawner).queue == queue_after_tick(
            old(spawner).queue as int,
            old(timer).time,
            delta,
        ),
{
    if timer.time < delta {
        timer.time = PERIOD;
        spawner.queue = spawner.queue + 1;
    } else {
        timer.time = timer.time - delta;
    }
}

/// Gives the spawner its turn. If a cube is asked for, one request leaves the
/// queue and the cube to spawn is returned; if none is, nothing changes.
pub fn spawn_system(spawner: &mut Spawner) -> (cube: Option<FallingCube>)
    ensures
        cube is Some <==> old(spawner).queue > 0,
        final(spawner).queue == queue_after_spawn(old(spawner).queue as int),
        cube matches Some(c) ==> c.layers.groups() == set![GameLayer::Enemies],
        cube matches Some(c) ==> c.layers.masks() == set![GameLayer::World2, GameLayer::Enemies],
        cube matches Some(c) ==> c.linear == (Vec3 { x: 0, y: FALL_SPEED, z: 0 }),
{
    if spawner.queue > 0 {
        spawner.queue = spawner.queue - 1;
        Some(
            FallingCube {
                layers: falling_cube_layers(),
                linear: Vec3 { x: 0, y: FALL_SPEED, z: 0 },
            },
        )
    } else {
        None
    }
}

/// In a frame the countdown is advanced first and the spawner has its turn
/// after it. A queue that is empty before a frame is empty after it, and a
/// cube is spawned in that frame exactly when the countdown ran out.
pub proof fn lemma_frame_empties_queue(time: u64, delta: u64)
    ensures
        queue_after_spawn(queue_after_tick(0, time, delta)) == 0,
        queue_after_tick(0, time, delta) > 0 <==> runs_out(time, delta),
{
}

/// A countdown counts the time that passes: over any run of frames it does
/// not run out exactly when no more time passes in them than it held, and
/// then it holds that much less.
pub proof fn lemma_countdown_counts_elapsed(time: u64, deltas: Seq<u64>)
    ensures
        0 <= elapsed(deltas),
        times_run_out(time, deltas) == 0 <==> elapsed(deltas) <= time,
        elapsed(deltas) <= time ==> time_after_all(time, deltas) == time - elapsed(deltas),
    decreases deltas.len(),
{
    if deltas.len() > 0 {
        lemma_countdown_counts_elapsed(time, deltas.drop_last());
    }
}

/// Once a countdown has run out, it does not run out again until more than
/// [`PERIOD`] has passed: no two cubes are asked for within one period.
pub proof fn lemma_requests_are_a_period_apart(time: u64, delta: u64, deltas: Seq<u64>)
    requires
        runs_out(time, delta),
    ensures
        times_run_out(time_after(time, delta), deltas) == 0 <==> elapsed(deltas) <= PERIOD,
{
    lemma_countdown_counts_elapsed(PERIOD, deltas);
}

} // verus!
