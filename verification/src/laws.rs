//! Library-wide laws about the published ceiling.

use vstd::prelude::*;

use crate::config::{config_ceiling, Dispatcher};
use crate::level::{filter_verbosity, level_passes, LevelFilter};
use crate::record::RecordView;
use crate::table::{lemma_ceiling_ge, lemma_ceiling_in, lemma_ceiling_push, table_index};

verus! {

/// The ceiling of a configuration is the least restrictive of its
/// thresholds: no less permissive than the default and than every override,
/// and itself one of them.
pub proof fn lemma_ceiling_least_restrictive(
    default: LevelFilter,
    targets: Seq<(String, LevelFilter)>,
)
    ensures
        filter_verbosity(default) <= filter_verbosity(config_ceiling(default, targets)),
        forall|i: int|
            0 <= i < targets.len() ==> filter_verbosity(targets[i].1) <= filter_verbosity(
                config_ceiling(default, targets),
            ),
        config_ceiling(default, targets) == default || exists|i: int|
            0 <= i < targets.len() && targets[i].1 == config_ceiling(default, targets),
{
    assert forall|i: int| 0 <= i < targets.len() implies filter_verbosity(targets[i].1)
        <= filter_verbosity(config_ceiling(default, targets)) by {
        lemma_ceiling_ge(targets, i);
    }
    if config_ceiling(default, targets) != default {
        lemma_ceiling_in(targets);
    }
}

/// Adding an override can only raise or keep the ceiling, never lower it.
pub proof fn lemma_override_monotone(
    default: LevelFilter,
    targets: Seq<(String, LevelFilter)>,
    module: String,
    level: LevelFilter,
)
    ensures
        filter_verbosity(config_ceiling(default, targets)) <= filter_verbosity(
            config_ceiling(default, targets.push((module, level))),
        ),
{
    lemma_ceiling_push(targets, (module, level));
}

/// The published ceiling is a sound pre-filter: a record that clears the
/// effective threshold of its target also clears the ceiling, so skipping
/// records that the ceiling rejects drops nothing.
pub proof fn lemma_prefilter_sound(d: Dispatcher, r: RecordView)
    requires
        d.wf(),
    ensures
        level_passes(r.level, d.spec_config().spec_module_level(r.target)) ==> level_passes(
            r.level,
            d.spec_max_level(),
        ),
{
    let targets = d.spec_config().spec_targets();
    let t = d.spec_config().spec_module_level(r.target);
    if t != d.spec_config().spec_level() {
        let i = table_index(targets, crate::target::first_segment(r.target));
        lemma_ceiling_ge(targets, i);
    }
}

} // verus!
