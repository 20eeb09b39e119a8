//! What the daemon's HTTP routes decide before and after handing a request
//! to the manager.
use vstd::prelude::*;

verus! {

/// The number of log lines sent when none is asked for.
pub const DEFAULT_LOG_TAIL: usize = 200;

/// The most log lines sent at once.
pub const MAX_LOG_TAIL: usize = 10_000;

/// `container_logs`, its decision: the lines asked for (200 by default),
/// at most 10 000.
pub fn effective_log_tail(tail: Option<usize>) -> (n: usize)
    ensures
        n == (match tail {
            Some(t) => if t < 10_000 {
                t
            } else {
                10_000
            },
            None => 200,
        }),
{
    let t = match tail {
        Some(t) => t,
        None => DEFAULT_LOG_TAIL,
    };
    if t < MAX_LOG_TAIL {
        t
    } else {
        MAX_LOG_TAIL
    }
}

/// A change of a container's lifecycle.
#[derive(Clone, Copy, PartialEq, Eq, Structural, Debug)]
pub enum ContainerAction {
    Start,
    Stop,
    Restart,
    Delete,
}

/// The status a route answers once the action has been carried out.
pub open spec fn action_status(action: ContainerAction) -> Seq<char> {
    match action {
        ContainerAction::Start => "running"@,
        ContainerAction::Stop => "stopped"@,
        ContainerAction::Restart => "running"@,
        ContainerAction::Delete => "deleted"@,
    }
}

/// The status a route answers once the action has been carried out.
pub fn action_status_label(action: ContainerAction) -> (s: String)
    ensures
        s@ == action_status(action),
{
    match action {
        ContainerAction::Start => "running".to_owned(),
        ContainerAction::Stop => "stopped".to_owned(),
        ContainerAction::Restart => "running".to_owned(),
        ContainerAction::Delete => "deleted".to_owned(),
    }
}

} // verus!
