//! The connectivity watcher: from the system's connectivity flags to the
//! connected/disconnected status that is posted to the monitor loop.

use vstd::prelude::*;
use crate::global::{MonitorState, NetworkStatus};

verus! {

/// Connectivity flag: the internet is reachable over IPv4.
pub const CONNECTIVITY_IPV4_INTERNET: i32 = 0x40;

/// Connectivity flag: the internet is reachable over IPv6.
pub const CONNECTIVITY_IPV6_INTERNET: i32 = 0x400;

/// Status value of a machine without internet connectivity.
pub const STATUS_DISCONNECTED: u32 = 0;

/// Status value of a machine with internet connectivity.
pub const STATUS_CONNECTED: u32 = 1;

/// Whether the flags show internet connectivity over IPv4 or over IPv6;
/// either one is enough.
pub open spec fn has_internet(connectivity: i32) -> bool {
    (connectivity & CONNECTIVITY_IPV4_INTERNET) != 0 || (connectivity
        & CONNECTIVITY_IPV6_INTERNET) != 0
}

/// The status that stands for connectivity flags.
pub open spec fn status_of(connectivity: i32) -> u32 {
    if has_internet(connectivity) {
        STATUS_CONNECTED
    } else {
        STATUS_DISCONNECTED
    }
}

/// Maps connectivity flags to the status 1 (connected) or 0 (disconnected).
pub fn connectivity_to_status(connectivity: i32) -> (status: u32)
    ensures
        status == status_of(connectivity),
        status == STATUS_CONNECTED || status == STATUS_DISCONNECTED,
{
    let has_internet = (connectivity & CONNECTIVITY_IPV4_INTERNET) != 0 || (connectivity
        & CONNECTIVITY_IPV6_INTERNET) != 0;
    if has_internet {
        STATUS_CONNECTED
    } else {
        STATUS_DISCONNECTED
    }
}

/// Handles a connectivity-change notification: returns the status to post
/// to the monitor loop. Every notification is posted; identical statuses in
/// a row are not filtered out.
pub fn connectivity_changed(new_connectivity: i32) -> (posted: NetworkStatus)
    ensures
        posted.status == status_of(new_connectivity),
{
    NetworkStatus { status: connectivity_to_status(new_connectivity) }
}

/// Records the connectivity watcher's subscription, identified by `cookie`,
/// and takes in the connectivity queried at subscription time, `None`
/// where that query failed.
///
/// A successful query sets the connectivity known to the monitor and yields
/// the initial status to post. After a failed query the monitor takes the
/// machine for disconnected and nothing is posted.
pub fn initialize_network_monitor(
    state: &mut MonitorState,
    cookie: u32,
    connectivity: Option<i32>,
) -> (posted: Option<NetworkStatus>)
    ensures
        final(state).network_subscribed,
        final(state).cookie == cookie,
        final(state).wlan_handle == old(state).wlan_handle,
        final(state).signal_context == old(state).signal_context,
        match connectivity {
            Some(flags) => {
                &&& posted == Some(NetworkStatus { status: status_of(flags) })
                &&& final(state).network_connected == has_internet(flags)
            },
            None => posted.is_none() && !final(state).network_connected,
        },
{
    state.network_subscribed = true;
    state.cookie = cookie;
    match connectivity {
        Some(flags) => {
            let status = connectivity_to_status(flags);
            state.network_connected = status != STATUS_DISCONNECTED;
            Some(NetworkStatus { status })
        },
        None => {
            state.network_connected = false;
            None
        },
    }
}

/// Ends the connectivity watcher's subscription: returns the cookie to
/// unsubscribe with, if a subscription with a cookie other than zero is
/// held, and forgets the subscription. The monitor then takes the machine
/// for disconnected.
///
/// The subscription is forgotten whether or not unsubscribing succeeds
/// afterwards, so it is released once only.
pub fn cleanup_network_monitor(state: &mut MonitorState) -> (unadvise: Option<u32>)
    ensures
        unadvise == if old(state).network_subscribed && old(state).cookie != 0 {
            Some(old(state).cookie)
        } else {
            None
        },
        !final(state).network_connected,
        !final(state).network_subscribed,
        final(state).cookie == 0,
        final(state).wlan_handle == old(state).wlan_handle,
        final(state).signal_context == old(state).signal_context,
{
    let unadvise = if state.network_subscribed && state.cookie != 0 {
        Some(state.cookie)
    } else {
        None
    };
    state.network_connected = false;
    state.network_subscribed = false;
    state.cookie = 0;
    unadvise
}

} // verus!
