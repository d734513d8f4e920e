//! The signal watcher: classification of wireless notifications and the
//! two-threshold hysteresis that keeps the weak/normal classification from
//! fluttering.

use vstd::prelude::*;
use crate::global::{MonitorState, SignalMonitorContext};

verus! {

/// Drop threshold used when none is configured.
pub const DEFAULT_SIGNAL_DROP: u32 = 30;

/// Recovery threshold used when none is configured.
pub const DEFAULT_SIGNAL_RECOVER: u32 = 40;

/// Least distance kept between the drop and the recovery threshold.
pub const SIGNAL_THRESHOLD_GAP: u32 = 5;

/// Notification source of the media-specific module, the only one watched.
pub const NOTIFICATION_SOURCE_MSM: u32 = 16;

/// Notification source value that cancels a registration.
pub const NOTIFICATION_SOURCE_NONE: u32 = 0;

/// Notification code: the interface connected to a network.
pub const NOTIFICATION_MSM_CONNECTED: u32 = 4;

/// Notification code: the signal quality of the connection changed.
pub const NOTIFICATION_MSM_SIGNAL_QUALITY_CHANGE: u32 = 8;

/// Notification code: the interface lost its connection.
pub const NOTIFICATION_MSM_DISCONNECTED: u32 = 10;

/// The drop threshold in force for a configured value: the value itself, or
/// the default where it is zero.
pub open spec fn effective_drop(threshold_drop: u32) -> u32 {
    if threshold_drop == 0 {
        DEFAULT_SIGNAL_DROP
    } else {
        threshold_drop
    }
}

/// The recovery threshold in force for a configured pair: the configured
/// value, or the default where it is zero, raised where necessary to lie
/// [`SIGNAL_THRESHOLD_GAP`] above the drop threshold in force.
pub open spec fn effective_recover(threshold_drop: u32, threshold_recover: u32) -> int {
    let recover = if threshold_recover == 0 {
        DEFAULT_SIGNAL_RECOVER
    } else {
        threshold_recover
    };
    if recover < effective_drop(threshold_drop) + SIGNAL_THRESHOLD_GAP {
        effective_drop(threshold_drop) + SIGNAL_THRESHOLD_GAP
    } else {
        recover as int
    }
}

/// Normalizes the configured thresholds into the pair `(drop, recover)`
/// that the hysteresis works with. Whatever was configured, the recovery
/// threshold ends up at least [`SIGNAL_THRESHOLD_GAP`] above the drop
/// threshold.
pub fn resolve_signal_thresholds(
    threshold_drop: u32,
    threshold_recover: u32,
) -> (thresholds: (u32, u32))
    requires
        threshold_drop <= u32::MAX - SIGNAL_THRESHOLD_GAP,
    ensures
        thresholds.0 == effective_drop(threshold_drop),
        thresholds.1 == effective_recover(threshold_drop, threshold_recover),
        thresholds.0 + SIGNAL_THRESHOLD_GAP <= thresholds.1,
{
    let drop = if threshold_drop == 0 {
        DEFAULT_SIGNAL_DROP
    } else {
        threshold_drop
    };
    let mut recover = if threshold_recover == 0 {
        DEFAULT_SIGNAL_RECOVER
    } else {
        threshold_recover
    };
    if recover < drop + SIGNAL_THRESHOLD_GAP {
        recover = drop + SIGNAL_THRESHOLD_GAP;
    }
    (drop, recover)
}

/// The classification after a reading of `quality`: weak at or below the
/// drop threshold, not weak at or above the recovery threshold, and as
/// before in between.
pub open spec fn weak_after(context: SignalMonitorContext, quality: u32) -> bool {
    if quality <= context.threshold_drop {
        true
    } else if quality >= context.threshold_recover {
        false
    } else {
        context.is_signal_weak
    }
}

/// How a reading changed the classification of the signal.
#[derive(Clone, Copy, Debug, PartialEq, Eq, Structural)]
pub enum SignalChange {
    /// The classification is what it was.
    Unchanged,
    /// The signal was not weak and now is.
    BecameWeak,
    /// The signal was weak and no longer is.
    Recovered,
}

/// The change between two classifications.
pub open spec fn change_between(was_weak: bool, is_weak: bool) -> SignalChange {
    if was_weak == is_weak {
        SignalChange::Unchanged
    } else if is_weak {
        SignalChange::BecameWeak
    } else {
        SignalChange::Recovered
    }
}

/// Applies the hysteresis rule to a reading of the signal quality and
/// records the reading. The result tells whether the classification
/// flipped, which is the only occasion on which a transition is announced.
pub fn update_signal_state(
    context: &mut SignalMonitorContext,
    quality: u32,
) -> (change: SignalChange)
    ensures
        final(context).is_signal_weak == weak_after(*old(context), quality),
        final(context).last_quality == quality,
        final(context).threshold_drop == old(context).threshold_drop,
        final(context).threshold_recover == old(context).threshold_recover,
        final(context).wlan_handle == old(context).wlan_handle,
        change == change_between(old(context).is_signal_weak, final(context).is_signal_weak),
        quality <= old(context).threshold_drop ==> final(context).is_signal_weak,
        old(context).wf() && quality >= old(context).threshold_recover
            ==> !final(context).is_signal_weak,
        old(context).threshold_drop < quality < old(context).threshold_recover
            ==> final(context).is_signal_weak == old(context).is_signal_weak,
{
    let was_weak = context.is_signal_weak;
    if quality <= context.threshold_drop {
        context.is_signal_weak = true;
    } else if quality >= context.threshold_recover {
        context.is_signal_weak = false;
    }
    context.last_quality = quality;
    if was_weak == context.is_signal_weak {
        SignalChange::Unchanged
    } else if context.is_signal_weak {
        SignalChange::BecameWeak
    } else {
        SignalChange::Recovered
    }
}

/// What a wireless notification asks of the watcher.
#[derive(Clone, Copy, Debug, PartialEq, Eq, Structural)]
pub enum NotificationKind {
    /// Not a notification the watcher reacts to.
    Ignored,
    /// The interface lost its connection.
    Disconnected,
    /// The interface connected or its signal quality changed: the live
    /// signal quality has to be queried.
    SignalQuery,
}

/// The kind of a notification with the given source and code.
pub open spec fn kind_of_notification(source: u32, code: u32) -> NotificationKind {
    if source != NOTIFICATION_SOURCE_MSM {
        NotificationKind::Ignored
    } else if code == NOTIFICATION_MSM_DISCONNECTED {
        NotificationKind::Disconnected
    } else if code == NOTIFICATION_MSM_CONNECTED || code
        == NOTIFICATION_MSM_SIGNAL_QUALITY_CHANGE {
        NotificationKind::SignalQuery
    } else {
        NotificationKind::Ignored
    }
}

/// Classifies a notification by its source and code.
pub fn notification_kind(source: u32, code: u32) -> (kind: NotificationKind)
    ensures
        kind == kind_of_notification(source, code),
{
    if source != NOTIFICATION_SOURCE_MSM {
        NotificationKind::Ignored
    } else if code == NOTIFICATION_MSM_DISCONNECTED {
        NotificationKind::Disconnected
    } else if code == NOTIFICATION_MSM_CONNECTED || code == NOTIFICATION_MSM_SIGNAL_QUALITY_CHANGE {
        NotificationKind::SignalQuery
    } else {
        NotificationKind::Ignored
    }
}

/// The context after a disconnection: quality zero and not weak.
pub open spec fn after_disconnect(context: SignalMonitorContext) -> SignalMonitorContext {
    SignalMonitorContext { is_signal_weak: false, last_quality: 0, ..context }
}

/// The context after a successful reading of `quality`.
pub open spec fn after_reading(context: SignalMonitorContext, quality: u32)
    -> SignalMonitorContext {
    SignalMonitorContext {
        is_signal_weak: weak_after(context, quality),
        last_quality: quality,
        ..context
    }
}

/// What the watcher does in reaction to a notification.
#[derive(Clone, Copy, Debug, PartialEq, Eq)]
pub struct WatcherReaction {
    /// The signal message `(quality, rssi)` to post to the monitor loop, if
    /// any.
    pub posted: Option<(u32, i32)>,
    /// The transition to announce, which is one for a reading that flipped
    /// the classification and none otherwise.
    pub announced: SignalChange,
}

/// The reaction to a notification of the given kind, `signal` being the
/// result of the query for the live signal.
pub open spec fn reaction_to(
    context: SignalMonitorContext,
    kind: NotificationKind,
    signal: Option<(u32, i32)>,
) -> WatcherReaction {
    match kind {
        NotificationKind::Disconnected => WatcherReaction {
            posted: Some((0u32, 0i32)),
            announced: SignalChange::Unchanged,
        },
        NotificationKind::SignalQuery => match signal {
            Some((quality, rssi)) => WatcherReaction {
                posted: Some((quality, rssi)),
                announced: change_between(context.is_signal_weak, weak_after(context, quality)),
            },
            None => WatcherReaction { posted: None, announced: SignalChange::Unchanged },
        },
        NotificationKind::Ignored => WatcherReaction {
            posted: None,
            announced: SignalChange::Unchanged,
        },
    }
}

/// The context after the reaction to a notification of the given kind.
pub open spec fn context_after(
    context: SignalMonitorContext,
    kind: NotificationKind,
    signal: Option<(u32, i32)>,
) -> SignalMonitorContext {
    match kind {
        NotificationKind::Disconnected => after_disconnect(context),
        NotificationKind::SignalQuery => match signal {
            Some((quality, _)) => after_reading(context, quality),
            None => context,
        },
        NotificationKind::Ignored => context,
    }
}

/// Reacts to a wireless notification of the given kind.
///
/// `signal` is the result of querying the live signal of the interface,
/// `None` where the query failed; it is looked at for
/// [`NotificationKind::SignalQuery`] only.
///
/// * A disconnection resets the context to quality zero and not weak, and
///   always posts `(0, 0)`, whatever the state was.
/// * A successful query goes through the hysteresis rule and is posted,
///   whether or not the classification changed.
/// * A failed query posts nothing and leaves the context untouched.
pub fn wlan_notification_callback(
    context: &mut SignalMonitorContext,
    kind: NotificationKind,
    signal: Option<(u32, i32)>,
) -> (reaction: WatcherReaction)
    ensures
        reaction == reaction_to(*old(context), kind, signal),
        *final(context) == context_after(*old(context), kind, signal),
        kind == NotificationKind::Disconnected ==> {
            &&& reaction.posted == Some((0u32, 0i32))
            &&& !final(context).is_signal_weak
            &&& final(context).last_quality == 0
        },
{
    match kind {
        NotificationKind::Ignored => WatcherReaction {
            posted: None,
            announced: SignalChange::Unchanged,
        },
        NotificationKind::Disconnected => {
            context.last_quality = 0;
            context.is_signal_weak = false;
            WatcherReaction { posted: Some((0, 0)), announced: SignalChange::Unchanged }
        },
        NotificationKind::SignalQuery => match signal {
            Some((quality, rssi)) => {
                let announced = update_signal_state(context, quality);
                WatcherReaction { posted: Some((quality, rssi)), announced }
            },
            None => WatcherReaction { posted: None, announced: SignalChange::Unchanged },
        },
    }
}

/// Result code with which a signal query reports success.
pub const QUERY_SUCCESS: u32 = 0;

/// Interprets the outcome of a query for the current connection of an
/// interface: `result` is the query's result code and `quality` the signal
/// quality read from the data it returned, `None` where it returned none.
///
/// The query yields `(quality, rssi)` only if it succeeded and returned
/// data. The connection attributes carry no signal strength, so the second
/// component is always zero.
pub fn query_interface_signal(result: u32, quality: Option<u32>) -> (signal: Option<(u32, i32)>)
    ensures
        signal == match quality {
            Some(q) if result == QUERY_SUCCESS => Some((q, 0i32)),
            _ => None::<(u32, i32)>,
        },
{
    if result != QUERY_SUCCESS {
        return None;
    }
    match quality {
        Some(q) => Some((q, 0)),
        None => None,
    }
}

/// Records the signal watcher's session in the monitor state and sets up
/// the hysteresis state from the configured thresholds, starting as not
/// weak with quality zero.
pub fn initialize_wlan_monitor(
    state: &mut MonitorState,
    wlan_handle: isize,
    threshold_drop: u32,
    threshold_recover: u32,
)
    requires
        threshold_drop <= u32::MAX - SIGNAL_THRESHOLD_GAP,
    ensures
        final(state).wlan_handle == Some(wlan_handle),
        final(state).signal_context == Some(
            SignalMonitorContext {
                wlan_handle,
                threshold_drop: effective_drop(threshold_drop),
                threshold_recover: effective_recover(threshold_drop, threshold_recover) as u32,
                is_signal_weak: false,
                last_quality: 0,
            },
        ),
        final(state).signal_context.unwrap().wf(),
        final(state).network_connected == old(state).network_connected,
        final(state).network_subscribed == old(state).network_subscribed,
        final(state).cookie == old(state).cookie,
{
    let (drop, recover) = resolve_signal_thresholds(threshold_drop, threshold_recover);
    state.wlan_handle = Some(wlan_handle);
    state.signal_context = Some(
        SignalMonitorContext {
            wlan_handle,
            threshold_drop: drop,
            threshold_recover: recover,
            is_signal_weak: false,
            last_quality: 0,
        },
    );
}

/// Takes in the signal read right after subscribing, `None` where no
/// interface was found or the query failed. A reading is posted as the
/// initial state and goes through the hysteresis rule like every other.
pub fn initial_signal_probe(
    context: &mut SignalMonitorContext,
    signal: Option<(u32, i32)>,
) -> (reaction: WatcherReaction)
    ensures
        reaction == reaction_to(*old(context), NotificationKind::SignalQuery, signal),
        *final(context) == context_after(*old(context), NotificationKind::SignalQuery, signal),
{
    wlan_notification_callback(context, NotificationKind::SignalQuery, signal)
}

/// Ends the signal watcher's session: returns the handle whose notification
/// registration must be cancelled and which must be closed, if a session is
/// open, and forgets the session and the hysteresis state.
pub fn cleanup_wlan_monitor(state: &mut MonitorState) -> (release: Option<isize>)
    ensures
        release == old(state).wlan_handle,
        final(state).wlan_handle.is_none(),
        final(state).signal_context.is_none(),
        final(state).network_connected == old(state).network_connected,
        final(state).network_subscribed == old(state).network_subscribed,
        final(state).cookie == old(state).cookie,
{
    let release = state.wlan_handle;
    state.wlan_handle = None;
    state.signal_context = None;
    release
}

} // verus!
