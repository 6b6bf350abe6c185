//! Labels and values of the metrics of the health-check server.

use crate::server::types::State;
use crate::text::{decimal, decimal_spec};
use vstd::prelude::*;

verus! {

/// Labels of the metrics of one health check.
#[derive(Clone, Debug, Hash, PartialEq, Eq)]
pub struct HealthcheckLabels {
    /// Identifier of the health check, in decimal.
    pub id: String,
    /// Kind of checker: tcp, http or dns.
    pub checker_type: String,
}

/// Labels of the counter of check results.
#[derive(Clone, Debug, Hash, PartialEq, Eq)]
pub struct CheckLabels {
    /// Identifier of the health check, in decimal.
    pub id: String,
    /// Kind of checker: tcp, http or dns.
    pub checker_type: String,
    /// Result: success, failure, timeout or error.
    pub result: String,
}

/// Labels of the counter of state transitions.
#[derive(Clone, Debug, Hash, PartialEq, Eq)]
pub struct StateTransitionLabels {
    /// Identifier of the health check, in decimal.
    pub id: String,
    /// Kind of checker: tcp, http or dns.
    pub checker_type: String,
    /// State before the transition.
    pub from: String,
    /// State after the transition.
    pub to: String,
}

/// Labels of the counter of batches sent.
#[derive(Clone, Debug, Hash, PartialEq, Eq)]
pub struct BatchTriggerLabels {
    /// What made the batch leave: size_limit or time_delay.
    pub trigger: String,
}

/// Labels of the gauge of monitors by state.
#[derive(Clone, Debug, Hash, PartialEq, Eq)]
pub struct StateLabels {
    /// State: healthy, unhealthy or unknown.
    pub state: String,
}

/// Labels of the gauge of queue depths.
#[derive(Clone, Debug, Hash, PartialEq, Eq)]
pub struct ChannelLabels {
    /// Queue: notification, config_update or proxy_message.
    pub channel: String,
}

/// Labels of the counter of errors.
#[derive(Clone, Debug, Hash, PartialEq, Eq)]
pub struct ErrorLabels {
    /// Kind of error: channel, socket, parse and the like.
    pub error_type: String,
}

/// The name of a state in labels.
pub open spec fn state_name(state: State) -> Seq<char> {
    match state {
        State::Unknown => "unknown"@,
        State::Healthy => "healthy"@,
        State::Unhealthy => "unhealthy"@,
    }
}

/// The name of a state in labels, as text.
pub fn state_to_string(state: State) -> (s: String)
    ensures
        s@ == state_name(state),
{
    match state {
        State::Unknown => "unknown".to_owned(),
        State::Healthy => "healthy".to_owned(),
        State::Unhealthy => "unhealthy".to_owned(),
    }
}

/// The value of the state gauge of a health check: 1 for up, 2 for down.
pub fn state_value(is_healthy: bool) -> (v: i64)
    ensures
        v == if is_healthy {
            1i64
        } else {
            2i64
        },
{
    if is_healthy {
        1
    } else {
        2
    }
}

/// The value of the gauge of the connection to the control agent: 1 while
/// connected, 0 while not.
pub fn connected_value(connected: bool) -> (v: i64)
    ensures
        v == if connected {
            1i64
        } else {
            0i64
        },
{
    if connected {
        1
    } else {
        0
    }
}

impl HealthcheckLabels {
    /// The labels of the health check `id` with a checker of the given kind.
    pub fn new(id: u64, checker_type: &str) -> (l: Self)
        ensures
            l.id@ == decimal_spec(id as nat),
            l.checker_type@ == checker_type@,
    {
        HealthcheckLabels { id: decimal(id), checker_type: checker_type.to_owned() }
    }
}

impl CheckLabels {
    /// The labels of one result of the health check `id`.
    pub fn new(id: u64, checker_type: &str, result: &str) -> (l: Self)
        ensures
            l.id@ == decimal_spec(id as nat),
            l.checker_type@ == checker_type@,
            l.result@ == result@,
    {
        CheckLabels {
            id: decimal(id),
            checker_type: checker_type.to_owned(),
            result: result.to_owned(),
        }
    }
}

impl StateTransitionLabels {
    /// The labels of a transition of the health check `id`.
    pub fn new(id: u64, checker_type: &str, from_state: State, to_state: State) -> (l: Self)
        ensures
            l.id@ == decimal_spec(id as nat),
            l.checker_type@ == checker_type@,
            l.from@ == state_name(from_state),
            l.to@ == state_name(to_state),
    {
        StateTransitionLabels {
            id: decimal(id),
            checker_type: checker_type.to_owned(),
            from: state_to_string(from_state),
            to: state_to_string(to_state),
        }
    }
}

} // verus!
