//! In which order a store is brought up.

use vstd::prelude::*;

use crate::entity::CompactionPolicy;
use crate::schema_registry::SchemaReconciliation;

verus! {

/// One step of bringing up a store.
#[derive(Clone, Copy, Debug, Eq, PartialEq, Structural)]
pub enum StartupStep {
    /// Delete the snapshots of the entity.
    ClearSnapshots,
    /// Delete all views of the entity and replay every event into them.
    RebuildViews,
    /// Replay the events that the views missed.
    CatchUpViews,
    /// Record the version of the entity in the registry.
    RecordVersion,
    /// Hand out the store.
    Serve,
}

/// The steps, in their order. The version is recorded only once all that it stands for
/// is done, so that a start that was cut short is done again.
pub open spec fn startup(reconciliation: SchemaReconciliation, projected: bool) -> Seq<
    StartupStep,
> {
    let cleared = if reconciliation is Changed {
        seq![StartupStep::ClearSnapshots]
    } else {
        Seq::empty()
    };
    let views = if !projected {
        Seq::empty()
    } else if reconciliation is Changed {
        seq![StartupStep::RebuildViews]
    } else {
        seq![StartupStep::CatchUpViews]
    };
    cleared + views + seq![StartupStep::RecordVersion, StartupStep::Serve]
}

/// The steps by which a store is brought up. An entity with a view keeps all of its
/// events, since its views are rebuilt from them.
pub fn build(
    reconciliation: SchemaReconciliation,
    projected: bool,
    policy: CompactionPolicy,
) -> (steps: Vec<StartupStep>)
    requires
        projected ==> policy is Retain,
    ensures
        steps@ == startup(reconciliation, projected),
{
    let mut steps: Vec<StartupStep> = Vec::new();
    match reconciliation {
        SchemaReconciliation::Changed => {
            steps.push(StartupStep::ClearSnapshots);
            if projected {
                steps.push(StartupStep::RebuildViews);
            }
        },
        SchemaReconciliation::Unchanged => {
            if projected {
                steps.push(StartupStep::CatchUpViews);
            }
        },
    }
    steps.push(StartupStep::RecordVersion);
    steps.push(StartupStep::Serve);
    steps
}

/// Whatever else a start does, it does before it records the version, and the store is
/// handed out last of all; the views of a changed entity are rebuilt.
pub proof fn law_versions_are_recorded_after_the_recovery(
    reconciliation: SchemaReconciliation,
    projected: bool,
    step: int,
)
    requires
        0 <= step < startup(reconciliation, projected).len(),
    ensures
        ({
            let steps = startup(reconciliation, projected);
            &&& steps[step] is RecordVersion <==> step == steps.len() - 2
            &&& steps[step] is Serve <==> step == steps.len() - 1
            &&& steps.contains(StartupStep::RebuildViews) <==> reconciliation is Changed
                && projected
            &&& steps.contains(StartupStep::ClearSnapshots) <==> reconciliation is Changed
        }),
{
    let steps = startup(reconciliation, projected);
    if reconciliation is Changed {
        assert(steps[0] is ClearSnapshots);
        if projected {
            assert(steps[1] is RebuildViews);
        }
    }
}

/// A start does what its entity needs, once, and nothing else: snapshots go before the
/// views are rebuilt, views are rebuilt where the entity changed and caught up where it did
/// not, and an entity without views has none touched.
pub proof fn law_starts_do_what_is_needed(
    reconciliation: SchemaReconciliation,
    projected: bool,
    policy: CompactionPolicy,
    steps: Vec<StartupStep>,
)
    requires
        projected ==> policy is Retain,
        call_ensures(build, (reconciliation, projected, policy), steps),
    ensures
        ({
            let extra: int = if projected {
                1
            } else {
                0
            };
            match reconciliation {
                SchemaReconciliation::Changed => {
                    &&& steps@.len() == 3 + extra
                    &&& steps@[0] is ClearSnapshots
                    &&& projected ==> steps@[1] is RebuildViews
                    &&& !steps@.contains(StartupStep::CatchUpViews)
                },
                SchemaReconciliation::Unchanged => {
                    &&& steps@.len() == 2 + extra
                    &&& projected ==> steps@[0] is CatchUpViews
                    &&& !steps@.contains(StartupStep::ClearSnapshots)
                    &&& !steps@.contains(StartupStep::RebuildViews)
                },
            }
        }),
        steps@[steps@.len() - 2] is RecordVersion,
        steps@[steps@.len() - 1] is Serve,
{
    let made = startup(reconciliation, projected);
    assert(steps@ == made);
}

} // verus!
