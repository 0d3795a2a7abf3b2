//! Decisions of the agent-service manager.
//!
//! The manager talks to a local agent service over HTTP: it waits for the
//! service to come up, and gates task execution on the service's health.
//! The HTTP calls, the sleeps and the loop itself stay with the host; this
//! module makes the decisions, one step at a time, from the last health
//! reading.

use vstd::prelude::*;
use vstd::string::StringExecFns;
use crate::resolver::str_eq;

verus! {

/// How many times the startup wait polls the service, one second apart,
/// before giving up.
pub const MAX_SERVER_WAIT_ATTEMPTS: u64 = 60;

/// Whether a reported health status counts as "the service is up": a fully
/// configured service as well as one still waiting for its configuration.
pub fn server_ready(status: &str) -> (r: bool)
    ensures
        r == (status@ == "healthy"@ || status@ == "waiting_for_config"@),
{
    str_eq(status, "healthy") || str_eq(status, "waiting_for_config")
}

/// What the startup wait does after one poll.
#[derive(Clone, Copy, Debug, PartialEq, Eq, Structural)]
pub enum WaitDecision {
    /// The service is up; stop polling.
    Ready,
    /// Not up yet; sleep and poll again.
    RetryAfterDelay,
    /// The attempt budget is spent; report the service unavailable.
    GiveUp,
}

/// Decides one step of the startup wait from the poll just made:
/// `health_status` is the status the health endpoint reported, or `None`
/// when the request itself failed, and `attempts` counts the polls already
/// made before this one.
pub fn wait_for_server_step(attempts: u64, health_status: Option<&str>) -> (r: WaitDecision)
    ensures
        (health_status matches Some(s) && (s@ == "healthy"@ || s@ == "waiting_for_config"@)) ==> r
            is Ready,
        !(health_status matches Some(s) && (s@ == "healthy"@ || s@ == "waiting_for_config"@))
            ==> if attempts + 1 < MAX_SERVER_WAIT_ATTEMPTS {
                r is RetryAfterDelay
            } else {
                r is GiveUp
            },
{
    if let Some(status) = health_status {
        if server_ready(status) {
            return WaitDecision::Ready;
        }
    }
    if attempts < MAX_SERVER_WAIT_ATTEMPTS - 1 {
        WaitDecision::RetryAfterDelay
    } else {
        WaitDecision::GiveUp
    }
}

/// Gates task execution on the service's health: `None` means proceed, and
/// an error message means refuse without sending the task.
///
/// `health_status` is the status the health endpoint reported, or `None`
/// when the health check itself failed. Only a fully healthy service may
/// execute tasks; one waiting for configuration, in any other state, or
/// unreachable is refused with the matching description.
pub fn execute_gate(health_status: Option<&str>) -> (r: Option<String>)
    ensures
        r is None <==> (health_status matches Some(s) && s@ == "healthy"@),
        health_status is None ==> (r matches Some(m) && m@
            == "无法连接到Python Agent服务，请确保服务已启动并运行在端口8765"@),
        (health_status matches Some(s) && s@ == "waiting_for_config"@) ==> (r matches Some(m)
            && m@
            == "Python Agent服务等待配置中，请先完成模型配置"@),
        (health_status matches Some(s) && s@ != "healthy"@ && s@ != "waiting_for_config"@) ==> (
        r matches Some(m) && m@
            == "Python Agent服务状态异常，请检查服务是否正常运行"@),
{
    proof {
        reveal_strlit("healthy");
        reveal_strlit("waiting_for_config");
        assert("healthy"@.len() == 7);
        assert("waiting_for_config"@.len() == 18);
    }
    match health_status {
        None => Some(
            String::from_str(
                "无法连接到Python Agent服务，请确保服务已启动并运行在端口8765",
            ),
        ),
        Some(status) => {
            if str_eq(status, "healthy") {
                None
            } else if str_eq(status, "waiting_for_config") {
                Some(
                    String::from_str(
                        "Python Agent服务等待配置中，请先完成模型配置",
                    ),
                )
            } else {
                Some(
                    String::from_str(
                        "Python Agent服务状态异常，请检查服务是否正常运行",
                    ),
                )
            }
        },
    }
}

} // verus!
