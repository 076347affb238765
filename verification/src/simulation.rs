//! A whole run, from the configuration to the final report.

use vstd::prelude::*;
use crate::component::Entity;
use crate::generate::{generated_count, lemma_populated_has_room, populated, start};
use crate::laws::lemma_report_of_generated;
use crate::mode::{Config, ConfigError, Mode};
use crate::scheduler::{population_evolved, report_of, run, Counter, ReportLine, World};

verus! {

/// The ticks that a run with the given budget makes: none for a budget of
/// zero or less.
pub open spec fn ticks_of(update_iterations: int) -> nat {
    if update_iterations > 0 {
        update_iterations as nat
    } else {
        0
    }
}

/// `lines` is a possible final report of a run: the report of some freshly
/// generated population of the configured count after the configured number
/// of ticks in `mode`.
pub open spec fn reports_run(lines: Seq<ReportLine>, config: Config, mode: Mode) -> bool {
    exists|fresh_population: Seq<Entity>, last: Seq<Entity>|
        {
            &&& populated(fresh_population, config.object_count as int)
            &&& #[trigger] population_evolved(
                fresh_population,
                last,
                mode,
                ticks_of(config.update_iterations as int),
            )
            &&& lines == report_of(last, mode)
        }
}

/// Starts a run from a configuration: an invalid mode selector is rejected
/// before anything is generated; otherwise the population is generated and
/// the world stands at tick 0.
pub fn launch(config: Config) -> (r: Result<World, ConfigError>)
    ensures
        match Mode::of_selector(config.transform_type as int) {
            None => r == Err::<World, ConfigError>(
                ConfigError::InvalidMode(config.transform_type),
            ),
            Some(mode) => {
                &&& r is Ok
                &&& r.unwrap().wf()
                &&& r.unwrap().mode == mode
                &&& r.unwrap().counter == Counter { current: 0, max: config.update_iterations }
                &&& populated(r.unwrap().store@, config.object_count as int)
            },
        },
{
    match Mode::from_selector(config.transform_type) {
        Err(e) => Err(e),
        Ok(mode) => {
            let store = start(config.object_count);
            proof {
                lemma_populated_has_room(
                    store@,
                    config.object_count as int,
                    ticks_of(config.update_iterations as int) as int,
                );
            }
            Ok(World { store, counter: Counter::new(config.update_iterations), mode })
        },
    }
}

/// Runs a configuration from start to end. An invalid mode selector gives
/// the configuration error and nothing else happens. Otherwise the result is
/// the final report of the run: one line for each generated entity, in
/// generation order, and in full mode line `k` shows identifier `k + 1` and
/// parent `k`.
pub fn simulate(config: Config) -> (r: Result<Vec<ReportLine>, ConfigError>)
    ensures
        match Mode::of_selector(config.transform_type as int) {
            None => r == Err::<Vec<ReportLine>, ConfigError>(
                ConfigError::InvalidMode(config.transform_type),
            ),
            Some(mode) => {
                &&& r is Ok
                &&& reports_run(r.unwrap()@, config, mode)
                &&& r.unwrap()@.len() == generated_count(config.object_count as int)
                &&& mode == Mode::All ==> forall|k: int|
                    0 <= k < r.unwrap()@.len() ==> {
                        let line = #[trigger] r.unwrap()@[k];
                        &&& line is Full
                        &&& line->Full_id == k + 1
                        &&& line->Full_parent == k
                    }
            },
        },
{
    match launch(config) {
        Err(e) => Err(e),
        Ok(world) => {
            let mut world = world;
            let ghost fresh_population = world.store@;
            let ghost mode = world.mode;
            let lines = run(&mut world);
            proof {
                let ticks = ticks_of(config.update_iterations as int);
                assert(population_evolved(fresh_population, world.store@, mode, ticks));
                lemma_report_of_generated(
                    fresh_population,
                    world.store@,
                    config.object_count,
                    mode,
                    ticks,
                );
            }
            Ok(lines)
        },
    }
}

} // verus!
