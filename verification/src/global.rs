//! Values shared by every part of the monitor: configuration constants and
//! the shapes of the events handed to the consumer.

use vstd::prelude::*;
use crate::percent::Percent;
use crate::wlan::SIGNAL_THRESHOLD_GAP;

verus! {

/// Host probed for latency and loss.
pub const DEFAULT_PING_TARGET: &'static str = "www.baidu.com";

/// Probes sent in one cycle.
pub const DEFAULT_PING_COUNT: usize = 10;

/// Time allowed to a single probe, in milliseconds.
pub const DEFAULT_PING_TIMEOUT_MS: u32 = 3000;

/// Period of the quality probe, in seconds.
pub const DEFAULT_PROBE_INTERVAL_SECS: u64 = 10;

/// Address family whose TCP counters are read.
pub const IP_FAMILY_IPV4: u32 = 2;

/// Port used when latency is measured by TCP handshakes.
pub const HANDSHAKE_PROBE_PORT: u16 = 443;

/// Connectivity as reported to the consumer: 0 is disconnected, 1 is
/// connected.
#[derive(Clone, Copy, Debug, PartialEq, Eq, Structural)]
pub struct NetworkStatus {
    pub status: u32,
}

/// Wireless signal as reported to the consumer. `strong` is 1 while the
/// signal is not classified as weak and 0 while it is.
#[derive(Clone, Copy, Debug, PartialEq, Eq, Structural)]
pub struct WlanStatus {
    pub strong: i32,
    pub quality: u32,
    pub rssi: i32,
}

/// The measurements of one probe cycle.
#[derive(Clone, Copy, Debug, PartialEq, Eq, Structural)]
pub struct NetworkQualitySample {
    pub latency_avg_ms: u32,
    pub latency_min_ms: u32,
    pub latency_max_ms: u32,
    pub jitter_ms: u32,
    pub packet_loss_percent: Percent,
    pub tcp_retransmission_percent: Percent,
    pub tcp_segments_sent: i64,
    pub tcp_segments_retransmitted: i64,
}

/// Hysteresis state of the wireless signal: the two thresholds, the current
/// classification and the quality last seen.
#[derive(Clone, Copy, Debug, PartialEq, Eq, Structural)]
pub struct SignalMonitorContext {
    pub wlan_handle: isize,
    pub threshold_drop: u32,
    pub threshold_recover: u32,
    pub is_signal_weak: bool,
    pub last_quality: u32,
}

impl SignalMonitorContext {
    /// The recovery threshold lies above the drop threshold by the required
    /// gap at least.
    pub open spec fn wf(self) -> bool {
        self.threshold_drop + SIGNAL_THRESHOLD_GAP <= self.threshold_recover
    }
}

/// What the monitor loop owns: the connectivity last seen, the bookkeeping of
/// the two watchers' subscriptions, and the signal hysteresis state.
///
/// `network_subscribed` tells whether the connectivity watcher holds a
/// subscription, which `cookie` identifies; `wlan_handle` is the handle of
/// the signal watcher's session, if one is open.
#[derive(Clone, Copy, Debug, PartialEq, Eq)]
pub struct MonitorState {
    pub network_connected: bool,
    pub network_subscribed: bool,
    pub cookie: u32,
    pub wlan_handle: Option<isize>,
    pub signal_context: Option<SignalMonitorContext>,
}

impl MonitorState {
    /// The state of a monitor that has subscribed to nothing yet.
    pub open spec fn initial() -> MonitorState {
        MonitorState {
            network_connected: false,
            network_subscribed: false,
            cookie: 0,
            wlan_handle: None,
            signal_context: None,
        }
    }

    /// Creates the state of a monitor that has subscribed to nothing yet.
    pub fn new() -> (state: MonitorState)
        ensures
            state == MonitorState::initial(),
    {
        MonitorState {
            network_connected: false,
            network_subscribed: false,
            cookie: 0,
            wlan_handle: None,
            signal_context: None,
        }
    }
}

/// Where the monitor loop's thread stands in its life.
#[derive(Clone, Copy, Debug, PartialEq, Eq, Structural)]
pub enum MonitorPhase {
    /// No monitor thread exists; one may be started.
    Stopped,
    /// The thread has been requested and is setting up its watchers.
    Starting,
    /// The thread is receiving messages.
    Running,
    /// The thread has seen the request to end and is releasing its watchers.
    Stopping,
}

/// The outbound callbacks that the host registers.
#[derive(Clone, Copy, Debug, PartialEq, Eq, Structural)]
pub enum Listener {
    NetworkStatus,
    WlanStatus,
    NetQuality,
    Log,
}

/// The process-wide bookkeeping of the monitor: which callbacks are
/// registered, the configured thresholds, and the life of the monitor
/// thread with the identifier under which messages reach it.
#[derive(Clone, Copy, Debug, PartialEq, Eq, Structural)]
pub struct Supervisor {
    pub network_status_registered: bool,
    pub wlan_status_registered: bool,
    pub net_quality_registered: bool,
    pub log_registered: bool,
    pub threshold_drop: u32,
    pub threshold_recover: u32,
    pub phase: MonitorPhase,
    pub monitor_thread_id: u32,
}

impl Supervisor {
    /// The bookkeeping of a process in which nothing has happened yet.
    pub open spec fn initial() -> Supervisor {
        Supervisor {
            network_status_registered: false,
            wlan_status_registered: false,
            net_quality_registered: false,
            log_registered: false,
            threshold_drop: 0,
            threshold_recover: 0,
            phase: MonitorPhase::Stopped,
            monitor_thread_id: 0,
        }
    }

    /// A stopped monitor has no thread identifier, and the configured drop
    /// threshold leaves room for the recovery threshold above it.
    pub open spec fn wf(self) -> bool {
        &&& self.phase == MonitorPhase::Stopped ==> self.monitor_thread_id == 0
        &&& self.threshold_drop <= u32::MAX - SIGNAL_THRESHOLD_GAP
    }

    /// Whether a monitor thread exists or has been requested.
    pub open spec fn monitor_started(self) -> bool {
        self.phase != MonitorPhase::Stopped
    }

    /// Creates the bookkeeping of a process in which nothing has happened
    /// yet.
    pub fn new() -> (supervisor: Supervisor)
        ensures
            supervisor == Supervisor::initial(),
            supervisor.wf(),
    {
        Supervisor {
            network_status_registered: false,
            wlan_status_registered: false,
            net_quality_registered: false,
            log_registered: false,
            threshold_drop: 0,
            threshold_recover: 0,
            phase: MonitorPhase::Stopped,
            monitor_thread_id: 0,
        }
    }
}

} // verus!
