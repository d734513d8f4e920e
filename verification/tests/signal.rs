use net_monitor::global::{MonitorState, SignalMonitorContext};
use net_monitor::wlan::{
    cleanup_wlan_monitor, initial_signal_probe, initialize_wlan_monitor, notification_kind,
    query_interface_signal, resolve_signal_thresholds, update_signal_state,
    wlan_notification_callback, NotificationKind, SignalChange, WatcherReaction,
    DEFAULT_SIGNAL_DROP,
    DEFAULT_SIGNAL_RECOVER, NOTIFICATION_MSM_CONNECTED, NOTIFICATION_MSM_DISCONNECTED,
    NOTIFICATION_MSM_SIGNAL_QUALITY_CHANGE, NOTIFICATION_SOURCE_MSM, NOTIFICATION_SOURCE_NONE,
};

fn context(is_signal_weak: bool) -> SignalMonitorContext {
    SignalMonitorContext {
        wlan_handle: 7,
        threshold_drop: 30,
        threshold_recover: 40,
        is_signal_weak,
        last_quality: 55,
    }
}

#[test]
fn defaults_are_thirty_and_forty() {
    assert_eq!(DEFAULT_SIGNAL_DROP, 30);
    assert_eq!(DEFAULT_SIGNAL_RECOVER, 40);
    assert_eq!(resolve_signal_thresholds(0, 0), (30, 40));
    assert_eq!(resolve_signal_thresholds(0, 50), (30, 50));
    assert_eq!(resolve_signal_thresholds(20, 0), (20, 40));
}

#[test]
fn recover_is_raised_above_drop() {
    assert_eq!(resolve_signal_thresholds(50, 50), (50, 55));
    assert_eq!(resolve_signal_thresholds(50, 20), (50, 55));
    assert_eq!(resolve_signal_thresholds(50, 0), (50, 55));
    assert_eq!(resolve_signal_thresholds(30, 32), (30, 35));
    assert_eq!(resolve_signal_thresholds(30, 35), (30, 35));
    assert_eq!(resolve_signal_thresholds(30, 36), (30, 36));
    assert_eq!(resolve_signal_thresholds(u32::MAX - 5, 1), (u32::MAX - 5, u32::MAX));
}

#[test]
fn quality_at_or_below_drop_is_weak() {
    for was_weak in [false, true] {
        for quality in [0, 15, 30] {
            let mut ctx = context(was_weak);
            update_signal_state(&mut ctx, quality);
            assert!(ctx.is_signal_weak);
            assert_eq!(ctx.last_quality, quality);
        }
    }
}

#[test]
fn quality_at_or_above_recover_is_not_weak() {
    for was_weak in [false, true] {
        for quality in [40, 41, 100, u32::MAX] {
            let mut ctx = context(was_weak);
            update_signal_state(&mut ctx, quality);
            assert!(!ctx.is_signal_weak);
            assert_eq!(ctx.last_quality, quality);
        }
    }
}

#[test]
fn quality_between_the_thresholds_keeps_the_state() {
    for was_weak in [false, true] {
        for quality in [31, 35, 39] {
            let mut ctx = context(was_weak);
            let change = update_signal_state(&mut ctx, quality);
            assert_eq!(ctx.is_signal_weak, was_weak);
            assert_eq!(change, SignalChange::Unchanged);
            assert_eq!(ctx.last_quality, quality);
        }
    }
}

#[test]
fn only_a_flip_is_announced() {
    let mut ctx = context(false);
    assert_eq!(update_signal_state(&mut ctx, 30), SignalChange::BecameWeak);
    assert_eq!(update_signal_state(&mut ctx, 10), SignalChange::Unchanged);
    assert_eq!(update_signal_state(&mut ctx, 39), SignalChange::Unchanged);
    assert_eq!(update_signal_state(&mut ctx, 40), SignalChange::Recovered);
    assert_eq!(update_signal_state(&mut ctx, 90), SignalChange::Unchanged);
    assert_eq!(ctx.threshold_drop, 30);
    assert_eq!(ctx.threshold_recover, 40);
    assert_eq!(ctx.wlan_handle, 7);
}

#[test]
fn notifications_are_told_apart() {
    let msm = NOTIFICATION_SOURCE_MSM;
    assert_eq!(msm, 16);
    assert_eq!(NOTIFICATION_SOURCE_NONE, 0);
    assert_eq!(notification_kind(msm, NOTIFICATION_MSM_DISCONNECTED), NotificationKind::Disconnected);
    assert_eq!(notification_kind(msm, 10), NotificationKind::Disconnected);
    assert_eq!(notification_kind(msm, NOTIFICATION_MSM_CONNECTED), NotificationKind::SignalQuery);
    assert_eq!(notification_kind(msm, 4), NotificationKind::SignalQuery);
    assert_eq!(
        notification_kind(msm, NOTIFICATION_MSM_SIGNAL_QUALITY_CHANGE),
        NotificationKind::SignalQuery
    );
    assert_eq!(notification_kind(msm, 8), NotificationKind::SignalQuery);
    assert_eq!(notification_kind(msm, 9), NotificationKind::Ignored);
    assert_eq!(notification_kind(8, NOTIFICATION_MSM_DISCONNECTED), NotificationKind::Ignored);
    assert_eq!(notification_kind(0, NOTIFICATION_MSM_CONNECTED), NotificationKind::Ignored);
}

#[test]
fn disconnection_posts_quality_zero_and_resets() {
    for was_weak in [false, true] {
        for signal in [None, Some((80, -40))] {
            let mut ctx = context(was_weak);
            let reaction =
                wlan_notification_callback(&mut ctx, NotificationKind::Disconnected, signal);
            assert_eq!(reaction.posted, Some((0, 0)));
            assert_eq!(reaction.announced, SignalChange::Unchanged);
            assert!(!ctx.is_signal_weak);
            assert_eq!(ctx.last_quality, 0);
            assert_eq!(ctx.threshold_drop, 30);
            assert_eq!(ctx.threshold_recover, 40);
        }
    }
}

#[test]
fn every_successful_query_is_posted() {
    let mut ctx = context(false);
    let reaction =
        wlan_notification_callback(&mut ctx, NotificationKind::SignalQuery, Some((20, -70)));
    assert_eq!(
        reaction,
        WatcherReaction { posted: Some((20, -70)), announced: SignalChange::BecameWeak }
    );
    assert!(ctx.is_signal_weak);
    assert_eq!(ctx.last_quality, 20);
    let reaction =
        wlan_notification_callback(&mut ctx, NotificationKind::SignalQuery, Some((21, -69)));
    assert_eq!(
        reaction,
        WatcherReaction { posted: Some((21, -69)), announced: SignalChange::Unchanged }
    );
    assert!(ctx.is_signal_weak);
    assert_eq!(ctx.last_quality, 21);
}

#[test]
fn a_failed_query_posts_nothing() {
    let mut ctx = context(true);
    let reaction = wlan_notification_callback(&mut ctx, NotificationKind::SignalQuery, None);
    assert_eq!(reaction, WatcherReaction { posted: None, announced: SignalChange::Unchanged });
    assert_eq!(ctx, context(true));
    let reaction = wlan_notification_callback(&mut ctx, NotificationKind::Ignored, Some((99, 0)));
    assert_eq!(reaction, WatcherReaction { posted: None, announced: SignalChange::Unchanged });
    assert_eq!(ctx, context(true));
}

#[test]
fn query_outcome_is_interpreted() {
    assert_eq!(query_interface_signal(0, Some(64)), Some((64, 0)));
    assert_eq!(query_interface_signal(0, None), None);
    assert_eq!(query_interface_signal(5, Some(64)), None);
    assert_eq!(query_interface_signal(5, None), None);
}

#[test]
fn watcher_session_is_recorded_and_released_once() {
    let mut state = MonitorState::new();
    initialize_wlan_monitor(&mut state, 1234, 0, 35);
    assert_eq!(state.wlan_handle, Some(1234));
    assert_eq!(
        state.signal_context,
        Some(SignalMonitorContext {
            wlan_handle: 1234,
            threshold_drop: 30,
            threshold_recover: 35,
            is_signal_weak: false,
            last_quality: 0,
        })
    );
    assert_eq!(cleanup_wlan_monitor(&mut state), Some(1234));
    assert_eq!(state, MonitorState::new());
    assert_eq!(cleanup_wlan_monitor(&mut state), None);
}

#[test]
fn initial_probe_goes_through_the_hysteresis() {
    let mut state = MonitorState::new();
    initialize_wlan_monitor(&mut state, 1, 30, 40);
    let mut ctx = state.signal_context.unwrap();
    assert_eq!(initial_signal_probe(&mut ctx, None).posted, None);
    assert!(!ctx.is_signal_weak);
    assert_eq!(
        initial_signal_probe(&mut ctx, Some((25, 0))),
        WatcherReaction { posted: Some((25, 0)), announced: SignalChange::BecameWeak }
    );
    assert!(ctx.is_signal_weak);
    assert_eq!(ctx.last_quality, 25);
}
