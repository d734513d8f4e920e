//! Decision logic of a background network-health monitor.
//!
//! The crate holds the rules that turn operating-system notifications and
//! probe results into the events a host application consumes: connectivity
//! status, wireless signal status with hysteresis, and periodic link-quality
//! samples. Everything here works on plain values; the surrounding program
//! performs the system calls and hands their results in.

pub mod global;
pub mod messages;
pub mod monitor;
pub mod network;
pub mod network_quality;
pub mod percent;
pub mod win32;
pub mod wlan;

use vstd::prelude::*;
use crate::global::{Listener, MonitorPhase, Supervisor};
use crate::monitor::{after_start_request, start_monitor_thread};
use crate::wlan::SIGNAL_THRESHOLD_GAP;

verus! {

/// A callback was registered before; `listener` is the first one found so.
#[derive(Clone, Copy, Debug, PartialEq, Eq, Structural)]
pub struct AlreadyRegistered {
    pub listener: Listener,
}

impl AlreadyRegistered {
    /// The text that describes the error to the host.
    pub fn message(&self) -> (text: &'static str)
        ensures
            text@ == match self.listener {
                Listener::NetworkStatus => "Global report listener already registered"@,
                Listener::WlanStatus => "Global report wlan status listener already registered"@,
                Listener::NetQuality => "Global report net quality listener already registered"@,
                Listener::Log => "Global log listener already registered"@,
            },
    {
        match self.listener {
            Listener::NetworkStatus => "Global report listener already registered",
            Listener::WlanStatus => "Global report wlan status listener already registered",
            Listener::NetQuality => "Global report net quality listener already registered",
            Listener::Log => "Global log listener already registered",
        }
    }
}

/// The first callback, in the order in which they are registered, that is
/// registered already.
pub open spec fn first_registered(supervisor: Supervisor) -> Option<Listener> {
    if supervisor.network_status_registered {
        Some(Listener::NetworkStatus)
    } else if supervisor.wlan_status_registered {
        Some(Listener::WlanStatus)
    } else if supervisor.net_quality_registered {
        Some(Listener::NetQuality)
    } else if supervisor.log_registered {
        Some(Listener::Log)
    } else {
        None
    }
}

/// The bookkeeping with all four callbacks registered.
pub open spec fn with_listeners(supervisor: Supervisor) -> Supervisor {
    Supervisor {
        network_status_registered: true,
        wlan_status_registered: true,
        net_quality_registered: true,
        log_registered: true,
        ..supervisor
    }
}

/// Registers the four callbacks. Each may be registered once in the life of
/// the process: if any of them is registered already the attempt fails and
/// changes nothing.
pub fn register_listeners(
    supervisor: &mut Supervisor,
) -> (registered: Result<(), AlreadyRegistered>)
    ensures
        match first_registered(*old(supervisor)) {
            Some(listener) => {
                &&& registered == Err::<(), AlreadyRegistered>(AlreadyRegistered { listener })
                &&& *final(supervisor) == *old(supervisor)
            },
            None => registered.is_ok() && *final(supervisor) == with_listeners(*old(supervisor)),
        },
        old(supervisor).wf() ==> final(supervisor).wf(),
{
    if supervisor.network_status_registered {
        return Err(AlreadyRegistered { listener: Listener::NetworkStatus });
    }
    if supervisor.wlan_status_registered {
        return Err(AlreadyRegistered { listener: Listener::WlanStatus });
    }
    if supervisor.net_quality_registered {
        return Err(AlreadyRegistered { listener: Listener::NetQuality });
    }
    if supervisor.log_registered {
        return Err(AlreadyRegistered { listener: Listener::Log });
    }
    supervisor.network_status_registered = true;
    supervisor.wlan_status_registered = true;
    supervisor.net_quality_registered = true;
    supervisor.log_registered = true;
    Ok(())
}

/// Stores the two signal thresholds as the host configured them. They are
/// normalized when the signal watcher starts.
pub fn configure(supervisor: &mut Supervisor, threshold_drop: u32, threshold_recover: u32)
    requires
        threshold_drop <= u32::MAX - SIGNAL_THRESHOLD_GAP,
    ensures
        *final(supervisor) == (Supervisor { threshold_drop, threshold_recover, ..*old(supervisor) }),
        old(supervisor).wf() ==> final(supervisor).wf(),
{
    supervisor.threshold_drop = threshold_drop;
    supervisor.threshold_recover = threshold_recover;
}

/// The host's entry point: registers the callbacks, stores the thresholds
/// and asks for the monitor to start.
///
/// On success the result tells whether a monitor thread must be spawned,
/// which is the case unless a monitor exists already. If a callback is
/// registered already the call fails and changes nothing.
pub fn do_initialize(
    supervisor: &mut Supervisor,
    threshold_drop: u32,
    threshold_recover: u32,
) -> (started: Result<bool, AlreadyRegistered>)
    requires
        old(supervisor).wf(),
        threshold_drop <= u32::MAX - SIGNAL_THRESHOLD_GAP,
    ensures
        final(supervisor).wf(),
        match first_registered(*old(supervisor)) {
            Some(listener) => {
                &&& started == Err::<bool, AlreadyRegistered>(AlreadyRegistered { listener })
                &&& *final(supervisor) == *old(supervisor)
            },
            None => {
                &&& started == Ok::<bool, AlreadyRegistered>(
                    old(supervisor).phase == MonitorPhase::Stopped,
                )
                &&& *final(supervisor) == after_start_request(
                    Supervisor {
                        threshold_drop,
                        threshold_recover,
                        ..with_listeners(*old(supervisor))
                    },
                )
            },
        },
{
    match register_listeners(supervisor) {
        Err(error) => {
            return Err(error);
        },
        Ok(()) => {},
    }
    configure(supervisor, threshold_drop, threshold_recover);
    let spawn = start_monitor_thread(supervisor);
    Ok(spawn)
}

} // verus!
