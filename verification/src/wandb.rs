//! Reporting the run to a metrics service, when the node is configured to.
use vstd::prelude::*;
use crate::types::{RunSettings, WandBInfo};

verus! {

/// The metrics run to create: the service account, the project and run
/// names, the optional entity and group, and the run settings recorded
/// with it.
#[derive(Clone, Debug, PartialEq, Eq)]
pub struct WandbRunPlan {
    pub api_key: String,
    pub project: String,
    pub run_name: String,
    pub entity: Option<String>,
    pub group: Option<String>,
    pub settings: RunSettings,
    pub run_id: String,
}

/// The metrics run for a node configured with `info` in run `run_id`.
pub open spec fn spec_wandb_run_plan(info: Option<WandBInfo>, run_id: String, settings: RunSettings) -> Option<
    WandbRunPlan,
> {
    match info {
        None => None,
        Some(i) => Some(
            WandbRunPlan {
                api_key: i.api_key,
                project: i.project,
                run_name: i.run,
                entity: i.entity,
                group: i.group,
                settings,
                run_id,
            },
        ),
    }
}

/// A metrics run is planned exactly when the node is configured with one,
/// and the planned run carries the configured account, project, run name,
/// entity and group (the entity and the group each independently of the
/// other), the run settings and the run's id.
pub proof fn lemma_wandb_plan_follows_configuration(
    info: Option<WandBInfo>,
    run_id: String,
    settings: RunSettings,
)
    ensures
        info is None <==> spec_wandb_run_plan(info, run_id, settings) is None,
        info matches Some(i) ==> (spec_wandb_run_plan(info, run_id, settings) matches Some(p) && {
            &&& p.api_key == i.api_key
            &&& p.project == i.project
            &&& p.run_name == i.run
            &&& p.entity == i.entity
            &&& p.group == i.group
            &&& p.settings == settings
            &&& p.run_id == run_id
        }),
{
}

/// The metrics run to create, if the node is configured with one.
pub fn wandb_run_plan(info: Option<WandBInfo>, run_id: String, settings: RunSettings) -> (plan: Option<
    WandbRunPlan,
>)
    ensures
        plan == spec_wandb_run_plan(info, run_id, settings),
        info is None <==> plan is None,
        info matches Some(i) ==> (plan matches Some(p) && {
            &&& p.api_key == i.api_key
            &&& p.project == i.project
            &&& p.run_name == i.run
            &&& p.entity == i.entity
            &&& p.group == i.group
            &&& p.settings == settings
            &&& p.run_id == run_id
        }),
{
    match info {
        None => None,
        Some(i) => Some(
            WandbRunPlan {
                api_key: i.api_key,
                project: i.project,
                run_name: i.run,
                entity: i.entity,
                group: i.group,
                settings,
                run_id,
            },
        ),
    }
}

/// Whether training reports to a metrics run. With no run planned there is
/// none; a run description that the service refuses fails the start, while
/// a service that cannot be reached only means training goes on without
/// metrics. `built` and `connected` are read only when a run is planned.
pub fn wandb_run_outcome(planned: bool, built: Result<(), String>, connected: bool) -> (r: Result<bool, String>)
    ensures
        !planned ==> r == Ok::<bool, String>(false),
        planned ==> (built matches Err(m) ==> r == Err::<bool, String>(m)),
        planned && built is Ok ==> r == Ok::<bool, String>(connected),
{
    if !planned {
        return Ok(false);
    }
    match built {
        Err(m) => Err(m),
        Ok(()) => Ok(connected),
    }
}

} // verus!
