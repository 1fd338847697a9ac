//! The states that a service goes through, and the events that move it.

use vstd::prelude::*;

verus! {

/// The state of a service.
#[derive(Debug, Clone, Copy, PartialEq, Eq, Structural)]
pub enum ServiceStatus {
    Starting,
    Healthy,
    Degraded,
    Unhealthy,
    Stopping,
    Stopped,
}

/// What happens to a service.
#[derive(Debug, Clone, Copy, PartialEq, Eq, Structural)]
pub enum LifecycleEvent {
    /// The caller asks the service to start.
    Start,
    /// Every component has come up.
    Started,
    /// A transport has failed for good.
    TransportFailed,
    /// The caller asks the service to stop.
    Shutdown,
    /// The drain is over, or its time is up.
    Drained,
}

/// The state after `event`, or nothing where the event has no place in `status`.
pub open spec fn next_status(status: ServiceStatus, event: LifecycleEvent) -> Option<
    ServiceStatus,
> {
    match (status, event) {
        (ServiceStatus::Stopped, LifecycleEvent::Start) => Some(ServiceStatus::Starting),
        (ServiceStatus::Starting, LifecycleEvent::Started) => Some(ServiceStatus::Healthy),
        (ServiceStatus::Healthy, LifecycleEvent::TransportFailed) => Some(
            ServiceStatus::Degraded,
        ),
        (ServiceStatus::Degraded, LifecycleEvent::TransportFailed) => Some(
            ServiceStatus::Degraded,
        ),
        (ServiceStatus::Starting, LifecycleEvent::Shutdown) => Some(ServiceStatus::Stopping),
        (ServiceStatus::Healthy, LifecycleEvent::Shutdown) => Some(ServiceStatus::Stopping),
        (ServiceStatus::Degraded, LifecycleEvent::Shutdown) => Some(ServiceStatus::Stopping),
        (ServiceStatus::Unhealthy, LifecycleEvent::Shutdown) => Some(ServiceStatus::Stopping),
        (ServiceStatus::Stopping, LifecycleEvent::Drained) => Some(ServiceStatus::Stopped),
        _ => None,
    }
}

/// The state after `event`, or nothing where the event has no place in `status`.
pub fn advance(status: ServiceStatus, event: LifecycleEvent) -> (r: Option<ServiceStatus>)
    ensures
        r == next_status(status, event),
{
    match status {
        ServiceStatus::Stopped => match event {
            LifecycleEvent::Start => Some(ServiceStatus::Starting),
            _ => None,
        },
        ServiceStatus::Starting => match event {
            LifecycleEvent::Started => Some(ServiceStatus::Healthy),
            LifecycleEvent::Shutdown => Some(ServiceStatus::Stopping),
            _ => None,
        },
        ServiceStatus::Healthy => match event {
            LifecycleEvent::TransportFailed => Some(ServiceStatus::Degraded),
            LifecycleEvent::Shutdown => Some(ServiceStatus::Stopping),
            _ => None,
        },
        ServiceStatus::Degraded => match event {
            LifecycleEvent::TransportFailed => Some(ServiceStatus::Degraded),
            LifecycleEvent::Shutdown => Some(ServiceStatus::Stopping),
            _ => None,
        },
        ServiceStatus::Unhealthy => match event {
            LifecycleEvent::Shutdown => Some(ServiceStatus::Stopping),
            _ => None,
        },
        ServiceStatus::Stopping => match event {
            LifecycleEvent::Drained => Some(ServiceStatus::Stopped),
            _ => None,
        },
    }
}

/// From every state but Stopped, a shutdown followed by the end of the drain ends in
/// Stopped; and nothing but a start leaves Stopped.
pub proof fn lemma_shutdown_reaches_stopped(status: ServiceStatus)
    ensures
        status != ServiceStatus::Stopped && status != ServiceStatus::Stopping ==> next_status(
            status,
            LifecycleEvent::Shutdown,
        ) == Some(ServiceStatus::Stopping),
        next_status(ServiceStatus::Stopping, LifecycleEvent::Drained) == Some(
            ServiceStatus::Stopped,
        ),
        forall|event: LifecycleEvent|
            event != LifecycleEvent::Start ==> #[trigger] next_status(
                ServiceStatus::Stopped,
                event,
            ) is None,
{
}

} // verus!
