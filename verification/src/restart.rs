//! Zero-downtime restart of an app: a new container is started from the
//! running deployment's image next to the old one, its host port is awaited,
//! its health endpoint is polled, and only once it is healthy are the proxy
//! routes switched to it and the old container retired. On any failure the
//! new container is removed and the old one keeps serving.
//!
//! The decisions are a state machine: the caller performs each action
//! (container runtime calls, sleeps, HTTP polls) and reports the outcome
//! back as an event.
use vstd::prelude::*;
use crate::apps::AppStatusResponse;
use crate::deployments::Deployment;
use crate::error::ApiError;
use crate::numbers::{decimal, push_decimal};
use crate::text::{clone_opt, owned, push_str, str_eq, strings_view};

verus! {

/// The running deployment that a restart starts from, as stored.
pub struct RunningDeployment {
    pub container_id: Option<String>,
    pub image_tag: Option<String>,
}

/// How a restart proceeds.
pub enum RestartStart {
    /// No deployment is running: the latest container is stopped and
    /// started again in place.
    Fallback { container_id: String },
    /// A new container is started from the running deployment's image.
    ZeroDowntime { old_container_id: String, image_tag: String },
}

/// `s` is present and not empty.
pub open spec fn non_empty(s: Option<String>) -> bool {
    s matches Some(x) && x@.len() > 0
}

/// How a restart proceeds, given the latest running deployment (if any)
/// and the container of the latest running or stopped deployment (looked
/// up only when nothing is running).
pub open spec fn spec_plan_restart(
    running: Option<RunningDeployment>,
    fallback_container: Option<String>,
) -> Result<RestartStart, Seq<char>> {
    match running {
        None => {
            if non_empty(fallback_container) {
                Ok(RestartStart::Fallback { container_id: fallback_container->0 })
            } else {
                Err("No deployment with container found. Deploy the app first."@)
            }
        },
        Some(d) => {
            if !non_empty(d.container_id) {
                Err("Running deployment has no container. Deploy the app first."@)
            } else if d.image_tag is None {
                Err("Running deployment has no image tag. Cannot perform zero-downtime restart."@)
            } else {
                Ok(
                    RestartStart::ZeroDowntime {
                        old_container_id: d.container_id->0,
                        image_tag: d.image_tag->0,
                    },
                )
            }
        },
    }
}

/// Decides how a restart proceeds; refuses it when there is no container
/// to restart or, for a zero-downtime restart, no image to start from.
pub fn plan_restart(running: Option<RunningDeployment>, fallback_container: Option<String>) -> (r:
    Result<RestartStart, ApiError>)
    ensures
        match spec_plan_restart(running, fallback_container) {
            Ok(s) => r == Ok::<RestartStart, ApiError>(s),
            Err(m) => r matches Err(ApiError::BadRequest(x)) && x@ == m,
        },
{
    match running {
        None => match fallback_container {
            Some(c) => {
                if !c.as_str().is_empty() {
                    Ok(RestartStart::Fallback { container_id: c })
                } else {
                    Err(ApiError::BadRequest(owned("No deployment with container found. Deploy the app first.")))
                }
            },
            None => Err(ApiError::BadRequest(owned("No deployment with container found. Deploy the app first."))),
        },
        Some(d) => {
            let cid = match d.container_id {
                Some(c) => {
                    if !c.as_str().is_empty() {
                        c
                    } else {
                        return Err(ApiError::BadRequest(owned("Running deployment has no container. Deploy the app first.")));
                    }
                },
                None => {
                    return Err(ApiError::BadRequest(owned("Running deployment has no container. Deploy the app first.")));
                },
            };
            match d.image_tag {
                Some(tag) => Ok(RestartStart::ZeroDowntime { old_container_id: cid, image_tag: tag }),
                None => Err(ApiError::BadRequest(owned("Running deployment has no image tag. Cannot perform zero-downtime restart."))),
            }
        },
    }
}

/// Where a zero-downtime restart stands.
pub enum RestartPhase {
    /// The new container has been asked for and not reported yet.
    StartingNew,
    /// The new container runs; its host port is awaited.
    WaitingForPort,
    /// The new container has a host port; its health endpoint is polled.
    HealthChecking,
    /// Traffic is on the new container and the old one is retired.
    Complete,
    /// The restart gave up; the old container keeps serving.
    Failed,
}

/// The state of a zero-downtime restart.
pub struct Restart {
    pub old_container_id: String,
    pub image_tag: String,
    pub new_container_id: Option<String>,
    pub port: Option<u16>,
    /// How many inspections of the new container have found no port.
    pub attempts: u8,
    pub phase: RestartPhase,
}

/// What the caller reports after performing an action.
pub enum RestartEvent {
    /// The new container was created and started.
    ContainerStarted(String),
    /// The new container could not be started.
    ContainerFailed(String),
    /// The new container was inspected.
    Inspected { host_port: Option<u16>, running: bool },
    /// Inspecting the new container failed.
    InspectFailed,
    /// The health endpoint answered with a success or a redirect.
    HealthPassed,
    /// The health endpoint did not answer with a success or a redirect;
    /// `elapsed_ms` milliseconds have passed since health checking began.
    HealthPending { elapsed_ms: u64 },
}

/// Why a restart gave up.
pub enum RestartFailure {
    /// The runtime could not start the new container.
    StartFailed(String),
    /// The new container never showed a host port.
    NoHostPort,
    /// The new container did not become healthy in time.
    Unhealthy,
}

/// What the caller does next.
pub enum RestartAction {
    /// Inspect the new container for its host port, after `delay_ms`.
    InspectNew { delay_ms: u64 },
    /// Poll the new container's health endpoint on `port`, after waiting
    /// `delay_ms` milliseconds.
    PollHealth { port: u16, delay_ms: u64 },
    /// Point every route of the app at the new container on `port`, then
    /// stop and remove the old container and give the new one its
    /// canonical name.
    SwitchAndRetire { new_container_id: String, port: u16, old_container_id: String },
    /// Give up: remove the new container if there is one; the old one is
    /// left running.
    Abandon { remove: Option<String>, reason: RestartFailure },
    /// Nothing to do.
    Nothing,
}

/// How long the new container has to become healthy, in milliseconds,
/// counted from the start of health checking.
pub const HEALTH_BUDGET_MS: u64 = 60000;

/// The pause before each health poll, in milliseconds.
pub const HEALTH_POLL_INTERVAL_MS: u64 = 2000;

/// How many inspections without a port a restart makes before giving up.
pub open spec fn max_port_attempts() -> u8 {
    10
}

/// A new zero-downtime restart from the given container and image.
pub open spec fn spec_restart_begin(old_container_id: String, image_tag: String) -> Restart {
    Restart {
        old_container_id,
        image_tag,
        new_container_id: None,
        port: None,
        attempts: 0,
        phase: RestartPhase::StartingNew,
    }
}

/// Begins a zero-downtime restart: the caller starts the new container.
pub fn restart_begin(old_container_id: String, image_tag: String) -> (r: Restart)
    ensures
        r == spec_restart_begin(old_container_id, image_tag),
{
    Restart {
        old_container_id,
        image_tag,
        new_container_id: None,
        port: None,
        attempts: 0,
        phase: RestartPhase::StartingNew,
    }
}

/// `r` moved to the failed phase.
pub open spec fn failed(r: Restart) -> Restart {
    Restart { phase: RestartPhase::Failed, ..r }
}

/// The next state and action of a restart in state `r` on event `e`.
pub open spec fn spec_restart_step(r: Restart, e: RestartEvent) -> (Restart, RestartAction) {
    match (r.phase, e) {
        (RestartPhase::StartingNew, RestartEvent::ContainerStarted(cid)) => (
            Restart { new_container_id: Some(cid), phase: RestartPhase::WaitingForPort, ..r },
            RestartAction::InspectNew { delay_ms: 0 },
        ),
        (RestartPhase::StartingNew, RestartEvent::ContainerFailed(msg)) => (
            failed(r),
            RestartAction::Abandon { remove: None, reason: RestartFailure::StartFailed(msg) },
        ),
        (RestartPhase::WaitingForPort, RestartEvent::Inspected { host_port: Some(p), .. }) => (
            Restart { port: Some(p), phase: RestartPhase::HealthChecking, ..r },
            RestartAction::PollHealth { port: p, delay_ms: HEALTH_POLL_INTERVAL_MS },
        ),
        (RestartPhase::WaitingForPort, RestartEvent::Inspected { host_port: None, running: false }) => (
            failed(r),
            RestartAction::Abandon { remove: r.new_container_id, reason: RestartFailure::NoHostPort },
        ),
        (RestartPhase::WaitingForPort, RestartEvent::Inspected { host_port: None, running: true })
        | (RestartPhase::WaitingForPort, RestartEvent::InspectFailed) => {
            if r.attempts + 1 < max_port_attempts() {
                (
                    Restart { attempts: (r.attempts + 1) as u8, ..r },
                    RestartAction::InspectNew { delay_ms: 500 },
                )
            } else {
                (
                    failed(Restart { attempts: max_port_attempts(), ..r }),
                    RestartAction::Abandon {
                        remove: r.new_container_id,
                        reason: RestartFailure::NoHostPort,
                    },
                )
            }
        },
        (RestartPhase::HealthChecking, RestartEvent::HealthPassed) => (
            Restart { phase: RestartPhase::Complete, ..r },
            RestartAction::SwitchAndRetire {
                new_container_id: r.new_container_id->0,
                port: r.port->0,
                old_container_id: r.old_container_id,
            },
        ),
        (RestartPhase::HealthChecking, RestartEvent::HealthPending { elapsed_ms }) => {
            if elapsed_ms >= HEALTH_BUDGET_MS {
                (
                    failed(r),
                    RestartAction::Abandon {
                        remove: r.new_container_id,
                        reason: RestartFailure::Unhealthy,
                    },
                )
            } else {
                (r, RestartAction::PollHealth { port: r.port->0, delay_ms: HEALTH_POLL_INTERVAL_MS })
            }
        },
        _ => (r, RestartAction::Nothing),
    }
}

/// A well-formed restart: a container is known once it was started, a port
/// once health checking began, and the inspection count stays in bounds.
pub open spec fn restart_wf(r: Restart) -> bool {
    &&& r.attempts <= max_port_attempts()
    &&& (r.phase is StartingNew ==> r.new_container_id is None && r.port is None && r.attempts == 0)
    &&& (r.phase is WaitingForPort ==> r.new_container_id is Some && r.port is None
        && r.attempts < max_port_attempts())
    &&& (r.phase is HealthChecking || r.phase is Complete) ==> r.new_container_id is Some
        && r.port is Some
}

/// Advances a restart on the outcome of the last action.
pub fn restart_step(r: &mut Restart, e: RestartEvent) -> (a: RestartAction)
    requires
        restart_wf(*old(r)),
    ensures
        (*final(r), a) == spec_restart_step(*old(r), e),
        restart_wf(*final(r)),
{
    match (&r.phase, e) {
        (RestartPhase::StartingNew, RestartEvent::ContainerStarted(cid)) => {
            r.new_container_id = Some(cid);
            r.phase = RestartPhase::WaitingForPort;
            RestartAction::InspectNew { delay_ms: 0 }
        },
        (RestartPhase::StartingNew, RestartEvent::ContainerFailed(msg)) => {
            r.phase = RestartPhase::Failed;
            RestartAction::Abandon { remove: None, reason: RestartFailure::StartFailed(msg) }
        },
        (RestartPhase::WaitingForPort, RestartEvent::Inspected { host_port: Some(p), .. }) => {
            r.port = Some(p);
            r.phase = RestartPhase::HealthChecking;
            RestartAction::PollHealth { port: p, delay_ms: HEALTH_POLL_INTERVAL_MS }
        },
        (RestartPhase::WaitingForPort, RestartEvent::Inspected { host_port: None, running: false }) => {
            r.phase = RestartPhase::Failed;
            RestartAction::Abandon {
                remove: clone_opt(&r.new_container_id),
                reason: RestartFailure::NoHostPort,
            }
        },
        (RestartPhase::WaitingForPort, RestartEvent::Inspected { host_port: None, running: true })
        | (RestartPhase::WaitingForPort, RestartEvent::InspectFailed) => {
            if r.attempts + 1 < 10 {
                r.attempts = r.attempts + 1;
                RestartAction::InspectNew { delay_ms: 500 }
            } else {
                r.attempts = 10;
                r.phase = RestartPhase::Failed;
                RestartAction::Abandon {
                    remove: clone_opt(&r.new_container_id),
                    reason: RestartFailure::NoHostPort,
                }
            }
        },
        (RestartPhase::HealthChecking, RestartEvent::HealthPassed) => {
            let new_id = match &r.new_container_id {
                Some(c) => c.clone(),
                None => {
                    proof {
                        assert(false);
                    }
                    String::new()
                },
            };
            let port = match r.port {
                Some(p) => p,
                None => {
                    proof {
                        assert(false);
                    }
                    0
                },
            };
            r.phase = RestartPhase::Complete;
            RestartAction::SwitchAndRetire {
                new_container_id: new_id,
                port,
                old_container_id: r.old_container_id.clone(),
            }
        },
        (RestartPhase::HealthChecking, RestartEvent::HealthPending { elapsed_ms }) => {
            if elapsed_ms >= HEALTH_BUDGET_MS {
                r.phase = RestartPhase::Failed;
                RestartAction::Abandon {
                    remove: clone_opt(&r.new_container_id),
                    reason: RestartFailure::Unhealthy,
                }
            } else {
                let port = match r.port {
                    Some(p) => p,
                    None => {
                        proof {
                            assert(false);
                        }
                        0
                    },
                };
                RestartAction::PollHealth { port, delay_ms: HEALTH_POLL_INTERVAL_MS }
            }
        },
        _ => RestartAction::Nothing,
    }
}

/// The message a failed restart is answered with.
pub open spec fn spec_failure_message(f: RestartFailure) -> Seq<char> {
    match f {
        RestartFailure::StartFailed(m) => "Failed to start new container for restart: "@ + m@,
        RestartFailure::NoHostPort => "New container started but did not expose a host port (may have crashed at startup — check the app logs)"@,
        RestartFailure::Unhealthy => "New container did not become healthy within 60 seconds. Old container is still running."@,
    }
}

/// The message a failed restart is answered with.
pub fn failure_message(f: &RestartFailure) -> (r: String)
    ensures
        r@ == spec_failure_message(*f),
{
    match f {
        RestartFailure::StartFailed(m) => crate::text::concat2("Failed to start new container for restart: ", m),
        RestartFailure::NoHostPort => owned("New container started but did not expose a host port (may have crashed at startup — check the app logs)"),
        RestartFailure::Unhealthy => owned("New container did not become healthy within 60 seconds. Old container is still running."),
    }
}

/// The name of the new container of a restart: `rivetr-<app>-restart-<suffix>`.
pub fn restart_container_name(app_name: &str, suffix: &str) -> (r: String)
    ensures
        r@ == "rivetr-"@ + app_name@ + "-restart-"@ + suffix@,
{
    let mut s = owned("rivetr-");
    push_str(&mut s, app_name);
    push_str(&mut s, "-restart-");
    push_str(&mut s, suffix);
    s
}

/// The stable name of an app's container: its custom container name when
/// set and not empty, else `rivetr-<app>`.
pub fn canonical_container_name(app_name: &str, custom: &Option<String>) -> (r: String)
    ensures
        r@ == if non_empty(*custom) {
            custom->0@
        } else {
            "rivetr-"@ + app_name@
        },
{
    match custom {
        Some(c) => {
            if !c.as_str().is_empty() {
                return c.clone();
            }
        },
        None => {},
    }
    crate::text::concat2("rivetr-", app_name)
}

/// The health URL of the new container: `http://127.0.0.1:<port><path>`,
/// with the app's health-check path or `/`.
pub fn health_url(port: u16, healthcheck: &Option<String>) -> (r: String)
    ensures
        r@ == "http://127.0.0.1:"@ + decimal(port as nat) + match healthcheck {
            Some(h) => h@,
            None => "/"@,
        },
{
    let mut s = owned("http://127.0.0.1:");
    push_decimal(&mut s, port as u64);
    match healthcheck {
        Some(h) => push_str(&mut s, h),
        None => push_str(&mut s, "/"),
    }
    s
}

/// Starting a restart gives a well-formed state.
pub proof fn law_restart_begins_well_formed(old_container_id: String, image_tag: String)
    ensures
        restart_wf(spec_restart_begin(old_container_id, image_tag)),
{
}

/// Traffic is switched, and the old container retired, only after the new
/// container passed its health check: the only step that switches is a
/// passed health check while health checking, and it switches to the new
/// container on the port found for it.
pub proof fn law_switch_only_after_health(r: Restart, e: RestartEvent)
    requires
        restart_wf(r),
    ensures
        spec_restart_step(r, e).1 is SwitchAndRetire ==> {
            &&& r.phase is HealthChecking
            &&& e is HealthPassed
            &&& spec_restart_step(r, e).1 == RestartAction::SwitchAndRetire {
                new_container_id: r.new_container_id->0,
                port: r.port->0,
                old_container_id: r.old_container_id,
            }
        },
{
}

/// A restart that gives up removes only the new container (when one was
/// started) and never the old one, which keeps serving.
pub proof fn law_abandon_keeps_old_container(r: Restart, e: RestartEvent)
    requires
        restart_wf(r),
    ensures
        spec_restart_step(r, e).1 matches RestartAction::Abandon { remove, .. } ==> {
            &&& remove == r.new_container_id
            &&& spec_restart_step(r, e).0.phase is Failed
            &&& spec_restart_step(r, e).0.old_container_id == r.old_container_id
        },
{
}

/// Finished restarts stay finished: a complete or failed restart ignores
/// every further event.
pub proof fn law_finished_restart_is_final(r: Restart, e: RestartEvent)
    requires
        r.phase is Complete || r.phase is Failed,
    ensures
        spec_restart_step(r, e) == (r, RestartAction::Nothing),
{
}

/// The health budget decides when a restart gives up on an unhealthy new
/// container: while health checking, a failed poll is followed by another
/// poll two seconds later as long as less than 60 seconds have passed, and
/// by giving up (removing the new container) once 60 seconds have passed.
pub proof fn law_health_budget(r: Restart, elapsed_ms: u64)
    requires
        restart_wf(r),
        r.phase is HealthChecking,
    ensures
        elapsed_ms < HEALTH_BUDGET_MS ==> spec_restart_step(r, RestartEvent::HealthPending { elapsed_ms })
            == (r, RestartAction::PollHealth { port: r.port->0, delay_ms: 2000 }),
        elapsed_ms >= HEALTH_BUDGET_MS ==> spec_restart_step(r, RestartEvent::HealthPending { elapsed_ms })
            == (failed(r), RestartAction::Abandon { remove: r.new_container_id, reason: RestartFailure::Unhealthy }),
        HEALTH_BUDGET_MS == 60000,
{
}

/// The answer to a restart that completed: the new container runs on its
/// host port, the phase is stable, the restart's own deployment is the
/// active one, and no uptime is given yet.
pub fn restart_success_response(app_id: String, new_container_id: String, port: u16, restart_deployment_id: String) -> (r: AppStatusResponse)
    ensures
        r.app_id == app_id,
        r.container_id == Some(new_container_id),
        r.running,
        r.status@ == "running"@,
        r.host_port == Some(port),
        r.deployment_phase@ == "stable"@,
        r.active_deployment_id == Some(restart_deployment_id),
        r.uptime_seconds is None,
{
    AppStatusResponse {
        app_id,
        container_id: Some(new_container_id),
        running: true,
        status: owned("running"),
        host_port: Some(port),
        deployment_phase: owned("stable"),
        active_deployment_id: Some(restart_deployment_id),
        uptime_seconds: None,
    }
}

/// The identifiers of the deployments in `ds` that a completed restart
/// marks `replaced`: those of the app still `running`, other than the
/// restart's own deployment, in order.
pub open spec fn replaced_by_restart(ds: Seq<Deployment>, app_id: Seq<char>, restart_id: Seq<char>) -> Seq<Seq<char>>
    decreases ds.len(),
{
    if ds.len() == 0 {
        seq![]
    } else {
        let before = replaced_by_restart(ds.drop_last(), app_id, restart_id);
        let d = ds.last();
        if d.app_id@ == app_id && d.status@ == "running"@ && d.id@ != restart_id {
            before.push(d.id@)
        } else {
            before
        }
    }
}

/// The deployments a completed restart marks `replaced`.
pub fn deployments_replaced_by_restart(ds: &Vec<Deployment>, app_id: &str, restart_id: &str) -> (r: Vec<String>)
    ensures
        strings_view(r@) == replaced_by_restart(ds@, app_id@, restart_id@),
{
    let mut r: Vec<String> = Vec::new();
    let mut i: usize = 0;
    proof {
        assert(ds@.take(0) =~= Seq::<Deployment>::empty());
    }
    while i < ds.len()
        invariant
            i <= ds@.len(),
            strings_view(r@) == replaced_by_restart(ds@.take(i as int), app_id@, restart_id@),
        decreases ds.len() - i,
    {
        let d = &ds[i];
        let pick = str_eq(d.app_id.as_str(), app_id) && str_eq(d.status.as_str(), "running") && !str_eq(
            d.id.as_str(),
            restart_id,
        );
        proof {
            let t = ds@.take(i + 1);
            assert(t.drop_last() =~= ds@.take(i as int));
            assert(t.last() == ds@[i as int]);
        }
        if pick {
            let ghost before = r@;
            r.push(d.id.clone());
            proof {
                assert(strings_view(r@) =~= strings_view(before).push(d.id@));
            }
        }
        i = i + 1;
    }
    proof {
        assert(ds@.take(ds@.len() as int) =~= ds@);
    }
    r
}

} // verus!
