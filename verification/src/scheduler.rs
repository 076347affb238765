//! The tick scheduler: a counter with two states, the tick that applies the
//! enabled passes, and the final report.

use vstd::prelude::*;
use crate::component::{
    Entity, Signature, POSITION_JITTER, SCALE_JITTER,
};
use crate::mode::Mode;
use crate::passes::{
    apply_rotational_velocity, apply_scale_adjustment, apply_translation_adjustment,
    position_stepped, rotated, rotated_times, scale_stepped,
};
use crate::store::{lemma_matching_exact, matching, Store};

verus! {

/// The shared tick counter. The run is running while `current < max`, and
/// terminated from then on.
#[derive(Clone, Copy, Debug, PartialEq, Eq, Structural)]
pub struct Counter {
    pub current: i32,
    pub max: i32,
}

/// One line of the final report.
#[derive(Clone, Copy, Debug, PartialEq, Eq, Structural)]
pub enum ReportLine {
    /// All passes ran: every attribute, in report order.
    Full { id: usize, parent: usize, x: i64, y: i64, scale: i64, angle: i64, velocity: i64 },
    /// A single pass ran: angle and angular velocity.
    Reduced { angle: i64, velocity: i64 },
}

/// The simulation context: the population, the counter and the mode.
#[derive(Debug)]
pub struct World {
    pub store: Store,
    pub counter: Counter,
    pub mode: Mode,
}

impl Counter {
    /// The budget is not yet used up.
    pub open spec fn spec_running(self) -> bool {
        self.current < self.max
    }

    /// Ticks left before termination.
    pub open spec fn remaining(self) -> nat {
        if self.current < self.max {
            (self.max - self.current) as nat
        } else {
            0
        }
    }

    /// A counter at 0 with the given budget.
    pub fn new(max: i32) -> (c: Counter)
        ensures
            c == (Counter { current: 0, max }),
    {
        Counter { current: 0, max }
    }

    /// Ticks left before termination.
    pub fn ticks_left(self) -> (left: u32)
        ensures
            left == self.remaining(),
    {
        if self.current < self.max {
            let wide: i64 = self.max as i64 - self.current as i64;
            wide as u32
        } else {
            0
        }
    }

    /// Whether the budget is not yet used up.
    #[verifier::when_used_as_spec(spec_running)]
    pub fn running(self) -> (r: bool)
        ensures
            r == self.spec_running(),
    {
        self.current < self.max
    }
}

/// The attribute types an entity must carry to be reported in `mode`.
pub open spec fn report_signature(mode: Mode) -> Signature {
    if mode == Mode::All {
        Signature {
            id: true,
            parent: true,
            position: true,
            scale: true,
            rotation: true,
            velocity: true,
        }
    } else {
        Signature {
            id: false,
            parent: false,
            position: false,
            scale: false,
            rotation: true,
            velocity: true,
        }
    }
}

/// The report line of an entity that carries `report_signature(mode)`.
pub open spec fn line_of(e: Entity, mode: Mode) -> ReportLine {
    if mode == Mode::All {
        ReportLine::Full {
            id: e.id.unwrap().0,
            parent: e.parent.unwrap().0,
            x: e.position.unwrap().x,
            y: e.position.unwrap().y,
            scale: e.scale.unwrap().0,
            angle: e.rotation.unwrap().0,
            velocity: e.velocity.unwrap().0,
        }
    } else {
        ReportLine::Reduced { angle: e.rotation.unwrap().0, velocity: e.velocity.unwrap().0 }
    }
}

/// The final report: one line for each entity that carries
/// `report_signature(mode)`, in spawn order; the others are skipped.
pub open spec fn report_of(s: Seq<Entity>, mode: Mode) -> Seq<ReportLine> {
    let slots = matching(s, report_signature(mode), s.len());
    Seq::new(slots.len(), |k: int| line_of(s[slots[k] as int], mode))
}

/// `to` lies where a scale can be after `ticks` scale passes from `from`:
/// each pass adds at least `-SCALE_JITTER` and less than `SCALE_JITTER`.
pub open spec fn scale_drifted(from: int, to: int, ticks: nat) -> bool {
    from - ticks * SCALE_JITTER <= to <= from + ticks * (SCALE_JITTER - 1)
}

/// `to` lies where a coordinate can be after `ticks` position passes from
/// `from`: each pass adds at least `-POSITION_JITTER` and less than
/// `POSITION_JITTER`.
pub open spec fn coordinate_drifted(from: int, to: int, ticks: nat) -> bool {
    from - ticks * POSITION_JITTER <= to <= from + ticks * (POSITION_JITTER - 1)
}

/// `after` is a possible state of `before` after `ticks` ticks in `mode`.
/// Identifier, parent, velocity and the set of attributes never change. The
/// angle is the rotation rule applied `ticks` times where the mode rotates.
/// Scale and coordinates lie within the drift of `ticks` passes where the
/// mode runs their pass; every attribute whose pass does not run is equal.
pub open spec fn evolved(before: Entity, after: Entity, mode: Mode, ticks: nat) -> bool {
    &&& after.id == before.id
    &&& after.parent == before.parent
    &&& after.velocity == before.velocity
    &&& after.rotation == (if mode.rotates() {
        rotated_times(before, ticks).rotation
    } else {
        before.rotation
    })
    &&& match before.scale {
        Some(s) => after.scale is Some && scale_drifted(
            s.0 as int,
            after.scale.unwrap().0 as int,
            if mode.scales() {
                ticks
            } else {
                0
            },
        ),
        None => after.scale is None,
    }
    &&& match before.position {
        Some(p) => {
            let passes = if mode.translates() {
                ticks
            } else {
                0
            };
            &&& after.position is Some
            &&& coordinate_drifted(p.x as int, after.position.unwrap().x as int, passes)
            &&& coordinate_drifted(p.y as int, after.position.unwrap().y as int, passes)
        },
        None => after.position is None,
    }
}

/// `after` is `before`, slot by slot, after `ticks` ticks in `mode`.
pub open spec fn population_evolved(
    before: Seq<Entity>,
    after: Seq<Entity>,
    mode: Mode,
    ticks: nat,
) -> bool {
    &&& after.len() == before.len()
    &&& forall|i: int|
        0 <= i < before.len() ==> evolved(before[i], #[trigger] after[i], mode, ticks)
}

/// The rotation rule leaves every attribute but the angle as it was.
pub proof fn lemma_rotated_times_keeps(e: Entity, ticks: nat)
    ensures
        rotated_times(e, ticks).id == e.id,
        rotated_times(e, ticks).parent == e.parent,
        rotated_times(e, ticks).velocity == e.velocity,
        rotated_times(e, ticks).scale == e.scale,
        rotated_times(e, ticks).position == e.position,
        rotated_times(e, ticks).rotation is Some <==> e.rotation is Some,
    decreases ticks,
{
    if ticks > 0 {
        lemma_rotated_times_keeps(e, (ticks - 1) as nat);
    }
}

/// One tick: the enabled passes, applied in order to one entity that has
/// room for `left` ticks, give a state that has evolved by one tick and has
/// room for the ticks that are left after it.
pub proof fn lemma_one_tick(a: Entity, r: Entity, s: Entity, t: Entity, mode: Mode, left: int)
    requires
        r == (if mode.rotates() {
            rotated(a)
        } else {
            a
        }),
        if mode.scales() {
            scale_stepped(r, s)
        } else {
            s == r
        },
        if mode.translates() {
            position_stepped(s, t)
        } else {
            t == s
        },
        left >= 1,
        mode.scales() ==> a.scale_room(left),
        mode.translates() ==> a.position_room(left),
    ensures
        evolved(a, t, mode, 1),
        mode.scales() ==> t.scale_room(left - 1),
        mode.translates() ==> t.position_room(left - 1),
{
    reveal_with_fuel(rotated_times, 2);
}

/// Evolution composes: one more tick after `ticks` ticks is `ticks + 1`
/// ticks.
pub proof fn lemma_evolved_step(a: Entity, b: Entity, c: Entity, mode: Mode, ticks: nat)
    requires
        evolved(a, b, mode, ticks),
        evolved(b, c, mode, 1),
    ensures
        evolved(a, c, mode, ticks + 1),
{
    reveal_with_fuel(rotated_times, 2);
    lemma_rotated_times_keeps(a, ticks);
    let mid = rotated_times(a, ticks);
    assert(rotated_times(a, ticks + 1) == rotated(mid));
    assert(rotated_times(b, 1) == rotated(b));
    if mode.rotates() {
        assert(b.rotation == mid.rotation);
        assert(b.velocity == mid.velocity);
        assert(rotated(b).rotation == rotated(mid).rotation);
    }
}

/// After no tick an entity is what it was.
pub proof fn lemma_evolved_zero(a: Entity, b: Entity, mode: Mode)
    ensures
        evolved(a, b, mode, 0) <==> b == a,
{
}

/// The final report of a population: one line per entity that carries the
/// attributes reported in `mode`, in spawn order.
pub fn report(store: &Store, mode: Mode) -> (lines: Vec<ReportLine>)
    ensures
        lines@ == report_of(store@, mode),
{
    let full = match mode {
        Mode::All => true,
        _ => false,
    };
    let want = Signature {
        id: full,
        parent: full,
        position: full,
        scale: full,
        rotation: true,
        velocity: true,
    };
    let slots = store.select(want);
    proof {
        assert(store.entities.len() <= usize::MAX);
        lemma_matching_exact(store@, want, store@.len());
    }
    let mut lines: Vec<ReportLine> = Vec::new();
    let mut k: usize = 0;
    while k < slots.len()
        invariant
            k <= slots.len(),
            want == report_signature(mode),
            full == (mode == Mode::All),
            slots@ == matching(store@, want, store@.len()),
            forall|j: int|
                0 <= j < slots@.len() ==> (#[trigger] slots@[j]) < store@.len()
                    && store@[slots@[j] as int].has_all(want),
            lines@.len() == k,
            forall|j: int| 0 <= j < k ==> #[trigger] lines@[j] == line_of(
                store@[slots@[j] as int],
                mode,
            ),
        decreases slots.len() - k,
    {
        let slot = slots[k];
        assert(slots@[k as int] < store@.len() && store@[slots@[k as int] as int].has_all(want));
        let e = store.entities[slot];
        let line = match (e.id, e.parent, e.position, e.scale, e.rotation, e.velocity, full) {
            (Some(id), Some(parent), Some(p), Some(scale), Some(angle), Some(velocity), true) => {
                ReportLine::Full {
                    id: id.0,
                    parent: parent.0,
                    x: p.x,
                    y: p.y,
                    scale: scale.0,
                    angle: angle.0,
                    velocity: velocity.0,
                }
            },
            _ => ReportLine::Reduced {
                angle: e.rotation.unwrap().0,
                velocity: e.velocity.unwrap().0,
            },
        };
        lines.push(line);
        k += 1;
    }
    assert(lines@ =~= report_of(store@, mode));
    lines
}

impl World {
    /// The population has room for `ticks` ticks in `mode`: no pass that the
    /// mode runs can take a scale or a coordinate out of the 64-bit range,
    /// whatever is sampled.
    pub open spec fn fits_budget(store: &Store, mode: Mode, ticks: int) -> bool {
        &&& mode.scales() ==> store.scale_room(ticks)
        &&& mode.translates() ==> store.position_room(ticks)
    }

    /// The counter is not negative and never exceeds a positive budget, and
    /// the population has room for the ticks that are left.
    pub open spec fn wf(&self) -> bool {
        &&& 0 <= self.counter.current
        &&& self.counter.current <= self.counter.max || self.counter.current == 0
        &&& World::fits_budget(&self.store, self.mode, self.counter.remaining() as int)
    }

    /// Whether the population has room for `ticks` ticks in `mode`.
    pub fn has_room(store: &Store, mode: Mode, ticks: u32) -> (r: bool)
        ensures
            r == World::fits_budget(store, mode, ticks as int),
    {
        (!mode.scales() || store.has_scale_room(ticks)) && (!mode.translates()
            || store.has_position_room(ticks))
    }

    /// Whether the world is well formed.
    pub fn is_valid(&self) -> (r: bool)
        ensures
            r == self.wf(),
    {
        let current = self.counter.current;
        if current < 0 || (current > self.counter.max && current != 0) {
            return false;
        }
        World::has_room(&self.store, self.mode, self.counter.ticks_left())
    }

    /// A world at tick 0, or `None` where some scale or coordinate could
    /// leave the 64-bit range within the budget.
    pub fn new(store: Store, update_iterations: i32, mode: Mode) -> (w: Option<World>)
        ensures
            w is Some <==> World::fits_budget(
                &store,
                mode,
                (Counter { current: 0, max: update_iterations }).remaining() as int,
            ),
            w is Some ==> {
                &&& w.unwrap().wf()
                &&& w.unwrap().store@ == store@
                &&& w.unwrap().counter == Counter { current: 0, max: update_iterations }
                &&& w.unwrap().mode == mode
            },
    {
        let counter = Counter::new(update_iterations);
        if World::has_room(&store, mode, counter.ticks_left()) {
            Some(World { store, counter, mode })
        } else {
            None
        }
    }
}

/// The termination check that closes a tick. While the run is running the
/// counter advances by one. If the run is then terminated, or was so
/// already, the result is the final report; otherwise it is `None`. The
/// population is not touched.
pub fn count_then_exit(world: &mut World) -> (out: Option<Vec<ReportLine>>)
    ensures
        final(world).mode == old(world).mode,
        final(world).store@ == old(world).store@,
        final(world).counter.max == old(world).counter.max,
        final(world).counter.current == (if old(world).counter.running() {
            old(world).counter.current + 1
        } else {
            old(world).counter.current as int
        }),
        out is Some <==> !final(world).counter.running(),
        out is Some ==> out.unwrap()@ == report_of(old(world).store@, old(world).mode),
{
    if world.counter.current < world.counter.max {
        world.counter.current += 1;
    }
    if world.counter.current < world.counter.max {
        None
    } else {
        Some(report(&world.store, world.mode))
    }
}

/// One scheduler evaluation. While the run is running, the passes that the
/// mode enables are applied in the order rotation, scale, position, and the
/// counter advances; a terminated run is left as it is. The result is the
/// final report exactly when the run is terminated afterwards.
pub fn tick(world: &mut World) -> (out: Option<Vec<ReportLine>>)
    requires
        old(world).wf(),
    ensures
        final(world).wf(),
        final(world).mode == old(world).mode,
        final(world).counter.max == old(world).counter.max,
        final(world).store@.len() == old(world).store@.len(),
        old(world).counter.running() ==> {
            &&& final(world).counter.current == old(world).counter.current + 1
            &&& forall|i: int|
                0 <= i < old(world).store@.len() ==> evolved(
                    old(world).store@[i],
                    #[trigger] final(world).store@[i],
                    old(world).mode,
                    1,
                )
        },
        !old(world).counter.running() ==> {
            &&& final(world).counter == old(world).counter
            &&& final(world).store@ == old(world).store@
        },
        out is Some <==> !final(world).counter.running(),
        out is Some ==> out.unwrap()@ == report_of(final(world).store@, old(world).mode),
{
    let ghost s0 = world.store@;
    let ghost left = world.counter.remaining() as int;
    if world.counter.running() {
        if world.mode.rotates() {
            apply_rotational_velocity(&mut world.store);
        }
        let ghost s1 = world.store@;
        if world.mode.scales() {
            assert forall|i: int| 0 <= i < s1.len() implies (#[trigger] s1[i]).scale_room(1) by {
                assert(s0[i].scale_room(left));
            }
            apply_scale_adjustment(&mut world.store);
        }
        let ghost s2 = world.store@;
        if world.mode.translates() {
            assert forall|i: int| 0 <= i < s2.len() implies (#[trigger] s2[i]).position_room(
                1,
            ) by {
                assert(s0[i].position_room(left));
                assert(s1[i].position == s0[i].position);
                assert(s2[i].position == s1[i].position);
            }
            apply_translation_adjustment(&mut world.store);
        }
        let ghost s3 = world.store@;
        assert forall|i: int| 0 <= i < s0.len() implies evolved(
            s0[i],
            #[trigger] s3[i],
            world.mode,
            1,
        ) && (world.mode.scales() ==> s3[i].scale_room(left - 1)) && (world.mode.translates()
            ==> s3[i].position_room(left - 1)) by {
            if world.mode.scales() {
                assert(s0[i].scale_room(left));
            }
            if world.mode.translates() {
                assert(s0[i].position_room(left));
            }
            lemma_one_tick(s0[i], s1[i], s2[i], s3[i], world.mode, left);
        }
    }
    count_then_exit(world)
}

/// Runs the world to termination and gives the final report. The counter
/// ends at the budget, or where it was if the budget was already used up;
/// each entity has evolved by exactly the ticks that were left, so with none
/// left the population is reported untouched.
pub fn run(world: &mut World) -> (lines: Vec<ReportLine>)
    requires
        old(world).wf(),
    ensures
        final(world).wf(),
        !final(world).counter.running(),
        final(world).mode == old(world).mode,
        final(world).counter.max == old(world).counter.max,
        final(world).counter.current == old(world).counter.current + old(
            world,
        ).counter.remaining(),
        population_evolved(
            old(world).store@,
            final(world).store@,
            old(world).mode,
            old(world).counter.remaining(),
        ),
        old(world).counter.remaining() == 0 ==> final(world).store@ == old(world).store@,
        lines@ == report_of(final(world).store@, old(world).mode),
{
    let ghost start = world.store@;
    let ghost first = world.counter;
    let ghost mode = world.mode;
    assert forall|i: int| 0 <= i < start.len() implies evolved(start[i], start[i], mode, 0) by {
        lemma_evolved_zero(start[i], start[i], mode);
    }
    loop
        invariant
            start == old(world).store@,
            first == old(world).counter,
            mode == old(world).mode,
            world.wf(),
            world.mode == mode,
            world.counter.max == first.max,
            first.current <= world.counter.current,
            world.counter.current + world.counter.remaining() == first.current
                + first.remaining(),
            world.store@.len() == start.len(),
            forall|i: int|
                0 <= i < start.len() ==> evolved(
                    start[i],
                    #[trigger] world.store@[i],
                    mode,
                    (world.counter.current - first.current) as nat,
                ),
            world.counter.current == first.current ==> world.store@ == start,
        decreases world.counter.remaining(),
    {
        let ghost before = world.store@;
        let ghost was_running = world.counter.running();
        let ghost done = (world.counter.current - first.current) as nat;
        let out = tick(world);
        match out {
            Some(lines) => {
                proof {
                    assert forall|i: int| 0 <= i < start.len() implies evolved(
                        start[i],
                        #[trigger] world.store@[i],
                        mode,
                        first.remaining(),
                    ) by {
                        if was_running {
                            lemma_evolved_step(start[i], before[i], world.store@[i], mode, done);
                        }
                    }
                }
                return lines;
            },
            None => {
                proof {
                    assert forall|i: int| 0 <= i < start.len() implies evolved(
                        start[i],
                        #[trigger] world.store@[i],
                        mode,
                        (done + 1) as nat,
                    ) by {
                        lemma_evolved_step(start[i], before[i], world.store@[i], mode, done);
                    }
                }
            },
        }
    }
}

} // verus!
