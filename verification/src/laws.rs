//! Laws that relate the generator, the passes and the report.

use vstd::prelude::*;
use crate::component::{Entity, Id, Signature, POSITION_JITTER, SCALE_JITTER, TURN};
use crate::generate::{fresh, generated_count, populated};
use crate::mode::Mode;
use crate::passes::{rotated_times, stepped};
use crate::scheduler::{
    evolved, lemma_rotated_times_keeps, line_of, population_evolved, report_of,
    report_signature,
};
use crate::store::matching;

verus! {

/// Exactly the selectors 0, 1, 2 and 3 name a mode. For every other one
/// `launch` and `simulate` give the configuration error and with it no world,
/// no population and no report.
pub proof fn lemma_only_four_selectors_name_a_mode(selector: i32)
    ensures
        Mode::of_selector(selector as int) is Some <==> 0 <= selector <= 3,
{
}

/// Some entity of `s` has the identifier `v`.
pub open spec fn holds_identifier(s: Seq<Entity>, v: usize) -> bool {
    exists|i: int| 0 <= i < s.len() && (#[trigger] s[i]).id == Some(Id(v))
}

/// In a generated population, at any tick of any mode, the identifiers are
/// exactly `0, 1, ..., count`: the entity in slot `i` has identifier `i`, so
/// no two entities share one and every value up to the count occurs.
pub proof fn lemma_identifiers_dense(
    fresh_population: Seq<Entity>,
    now: Seq<Entity>,
    object_count: i32,
    mode: Mode,
    ticks: nat,
)
    requires
        populated(fresh_population, object_count as int),
        population_evolved(fresh_population, now, mode, ticks),
    ensures
        now.len() == generated_count(object_count as int) + 1,
        forall|i: int| 0 <= i < now.len() ==> (#[trigger] now[i]).id == Some(Id(i as usize)),
        forall|i: int, j: int|
            0 <= i < now.len() && 0 <= j < now.len() && i != j ==> (#[trigger] now[i]).id != (
            #[trigger] now[j]).id,
        forall|v: usize|
            v <= generated_count(object_count as int) ==> #[trigger] holds_identifier(now, v),
{
    assert forall|i: int| 0 <= i < now.len() implies (#[trigger] now[i]).id == Some(
        Id(i as usize),
    ) by {
        assert(evolved(fresh_population[i], now[i], mode, ticks));
        if i >= 1 {
            assert(fresh(fresh_population[i], i));
        }
    }
    assert forall|v: usize| v <= generated_count(object_count as int) implies #[trigger] holds_identifier(
        now,
        v,
    ) by {
        assert(now[v as int].id == Some(Id(v)));
    }
}

/// After one tick of any mode, a scale lies in `[old - SCALE_JITTER, old +
/// SCALE_JITTER)` and each coordinate in `[old - POSITION_JITTER, old +
/// POSITION_JITTER)`: half a unit and five units.
pub proof fn lemma_one_tick_stays_close(before: Entity, after: Entity, mode: Mode)
    requires
        evolved(before, after, mode, 1),
    ensures
        before.scale is Some ==> {
            &&& after.scale is Some
            &&& before.scale.unwrap().0 - SCALE_JITTER <= after.scale.unwrap().0
                < before.scale.unwrap().0 + SCALE_JITTER
        },
        before.position is Some ==> {
            &&& after.position is Some
            &&& before.position.unwrap().x - POSITION_JITTER <= after.position.unwrap().x
                < before.position.unwrap().x + POSITION_JITTER
            &&& before.position.unwrap().y - POSITION_JITTER <= after.position.unwrap().y
                < before.position.unwrap().y + POSITION_JITTER
        },
{
}

/// What a run in full mode does to one attribute is what the run of that
/// attribute's single mode does to it: from an outcome of full mode, keeping
/// the change of one attribute alone gives an outcome of its single mode.
pub proof fn lemma_full_mode_projects(before: Entity, after: Entity, ticks: nat)
    requires
        evolved(before, after, Mode::All, ticks),
    ensures
        evolved(before, Entity { rotation: after.rotation, ..before }, Mode::RotationOnly, ticks),
        evolved(before, Entity { scale: after.scale, ..before }, Mode::ScaleOnly, ticks),
        evolved(
            before,
            Entity { position: after.position, ..before },
            Mode::TranslationOnly,
            ticks,
        ),
{
}

/// Conversely, outcomes of the three single modes combine, attribute by
/// attribute, to an outcome of full mode; and the angle after any mode that
/// rotates is the same.
pub proof fn lemma_single_modes_combine(
    before: Entity,
    rotation_run: Entity,
    scale_run: Entity,
    translation_run: Entity,
    ticks: nat,
)
    requires
        evolved(before, rotation_run, Mode::RotationOnly, ticks),
        evolved(before, scale_run, Mode::ScaleOnly, ticks),
        evolved(before, translation_run, Mode::TranslationOnly, ticks),
    ensures
        evolved(
            before,
            Entity {
                rotation: rotation_run.rotation,
                scale: scale_run.scale,
                position: translation_run.position,
                ..before
            },
            Mode::All,
            ticks,
        ),
        forall|full_run: Entity|
            evolved(before, full_run, Mode::All, ticks) ==> full_run.rotation
                == rotation_run.rotation,
{
}

/// As many ticks of `mode` on one entity as there are samples, the first
/// sample for the first tick.
pub open spec fn stepped_times(e: Entity, mode: Mode, samples: Seq<(int, int, int)>) -> Entity
    decreases samples.len(),
{
    if samples.len() == 0 {
        e
    } else {
        stepped(stepped_times(e, mode, samples.drop_last()), mode, samples.last())
    }
}

/// A tick with samples from the ranges of the passes, on an entity with room
/// for it, is one of the outcomes that `evolved` admits for one tick.
pub proof fn lemma_stepped_is_evolved(e: Entity, mode: Mode, sample: (int, int, int))
    requires
        -SCALE_JITTER <= sample.0 < SCALE_JITTER,
        -POSITION_JITTER <= sample.1 < POSITION_JITTER,
        -POSITION_JITTER <= sample.2 < POSITION_JITTER,
        e.scale_room(1),
        e.position_room(1),
    ensures
        evolved(e, stepped(e, mode, sample), mode, 1),
{
    reveal_with_fuel(rotated_times, 2);
}

/// With one stream of samples, a run in full mode and the run of a single
/// mode end with the same value of the attribute that the single mode
/// changes: the angle depends on angle and velocity alone, the scale on the
/// scale and its samples alone, the position on the position and its samples
/// alone. Neither the other passes nor the mode have a part in it.
pub proof fn lemma_shared_samples_agree(
    in_full: Entity,
    in_single: Entity,
    samples: Seq<(int, int, int)>,
)
    ensures
        in_full.rotation == in_single.rotation && in_full.velocity == in_single.velocity
            ==> stepped_times(in_full, Mode::All, samples).rotation == stepped_times(
            in_single,
            Mode::RotationOnly,
            samples,
        ).rotation,
        in_full.scale == in_single.scale ==> stepped_times(in_full, Mode::All, samples).scale
            == stepped_times(in_single, Mode::ScaleOnly, samples).scale,
        in_full.position == in_single.position ==> stepped_times(
            in_full,
            Mode::All,
            samples,
        ).position == stepped_times(in_single, Mode::TranslationOnly, samples).position,
    decreases samples.len(),
{
    if samples.len() > 0 {
        let earlier = samples.drop_last();
        lemma_shared_samples_agree(in_full, in_single, earlier);
        lemma_stepped_times_keeps_velocity(in_full, Mode::All, earlier);
        lemma_stepped_times_keeps_velocity(in_single, Mode::RotationOnly, earlier);
    }
}

/// No tick changes a velocity.
pub proof fn lemma_stepped_times_keeps_velocity(
    e: Entity,
    mode: Mode,
    samples: Seq<(int, int, int)>,
)
    ensures
        stepped_times(e, mode, samples).velocity == e.velocity,
    decreases samples.len(),
{
    if samples.len() > 0 {
        lemma_stepped_times_keeps_velocity(e, mode, samples.drop_last());
    }
}

/// However large the velocity, after at least one tick the angle of an
/// entity that rotates is less than a full turn in magnitude.
pub proof fn lemma_rotation_stays_bounded(e: Entity, ticks: nat)
    requires
        ticks >= 1,
        e.rotation is Some,
        e.velocity is Some,
    ensures
        rotated_times(e, ticks).rotation is Some,
        -TURN < rotated_times(e, ticks).rotation.unwrap().0 < TURN,
{
    lemma_rotated_times_keeps(e, (ticks - 1) as nat);
}

/// In a population whose first entity lacks `want` and whose others carry
/// it, the matching slots are all but the first.
proof fn lemma_matching_skips_first(s: Seq<Entity>, want: Signature, upto: nat)
    requires
        1 <= upto <= s.len(),
        s.len() <= usize::MAX,
        !s[0].has_all(want),
        forall|k: int| 1 <= k < s.len() ==> (#[trigger] s[k]).has_all(want),
    ensures
        matching(s, want, upto) == Seq::new((upto - 1) as nat, |k: int| (k + 1) as usize),
    decreases upto,
{
    reveal_with_fuel(matching, 2);
    if upto > 1 {
        lemma_matching_skips_first(s, want, (upto - 1) as nat);
    }
    assert(matching(s, want, upto) =~= Seq::new((upto - 1) as nat, |k: int| (k + 1) as usize));
}

/// The report of a generated population, at any tick of any mode, has one
/// line for each generated entity and none for the root, in generation
/// order: line `k` is that of slot `k + 1`. In full mode it therefore shows
/// identifier `k + 1` and parent `k`.
pub proof fn lemma_report_of_generated(
    fresh_population: Seq<Entity>,
    now: Seq<Entity>,
    object_count: i32,
    mode: Mode,
    ticks: nat,
)
    requires
        populated(fresh_population, object_count as int),
        population_evolved(fresh_population, now, mode, ticks),
    ensures
        report_of(now, mode).len() == generated_count(object_count as int),
        forall|k: int|
            0 <= k < report_of(now, mode).len() ==> #[trigger] report_of(now, mode)[k] == line_of(
                now[k + 1],
                mode,
            ),
        mode == Mode::All ==> forall|k: int|
            0 <= k < report_of(now, mode).len() ==> {
                let line = #[trigger] report_of(now, mode)[k];
                &&& line is Full
                &&& line->Full_id == k + 1
                &&& line->Full_parent == k
            },
{
    let want = report_signature(mode);
    lemma_rotated_times_keeps(fresh_population[0], ticks);
    assert(evolved(fresh_population[0], now[0], mode, ticks));
    assert(!now[0].has_all(want));
    assert forall|k: int| 1 <= k < now.len() implies (#[trigger] now[k]).has_all(want) && now[k].id
        == Some(Id(k as usize)) && now[k].parent == fresh_population[k].parent by {
        assert(fresh(fresh_population[k], k));
        assert(evolved(fresh_population[k], now[k], mode, ticks));
        lemma_rotated_times_keeps(fresh_population[k], ticks);
    }
    lemma_matching_skips_first(now, want, now.len());
    assert forall|k: int| 0 <= k < report_of(now, mode).len() implies #[trigger] report_of(
        now,
        mode,
    )[k] == line_of(now[k + 1], mode) by {}
    if mode == Mode::All {
        assert forall|k: int| 0 <= k < report_of(now, mode).len() implies ({
            let line = #[trigger] report_of(now, mode)[k];
            &&& line is Full
            &&& line->Full_id == k + 1
            &&& line->Full_parent == k
        }) by {
            assert(fresh(fresh_population[k + 1], k + 1));
            assert(now[k + 1].has_all(want));
        }
    }
}

} // verus!
