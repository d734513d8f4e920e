use net_monitor::global::{
    MonitorPhase, MonitorState, NetworkStatus, SignalMonitorContext, Supervisor, WlanStatus,
};
use net_monitor::messages::{
    send_network_status_message, send_wlan_status_message, PostError, ThreadMessage,
    WM_NETWORK_STATUS_CHANGE, WM_QUIT, WM_USER, WM_WIFI_SIGNAL_CHANGE,
};
use net_monitor::monitor::{
    cleanup_monitor_thread, handle_network_status_message, handle_received,
    handle_wifi_signal_message, monitor_initialized, monitor_loop_ended, monitor_thread_entered,
    monitor_thread_finished, run_message_loop, start_monitor_thread, LoopAction, Received,
};

fn got(message: ThreadMessage) -> Received {
    Received { result: 1, message }
}

fn quit() -> Received {
    Received { result: 0, message: ThreadMessage { message: WM_QUIT, w_param: 0, l_param: 0 } }
}

fn weak_state(is_signal_weak: bool) -> MonitorState {
    let mut state = MonitorState::new();
    state.signal_context = Some(SignalMonitorContext {
        wlan_handle: 1,
        threshold_drop: 30,
        threshold_recover: 40,
        is_signal_weak,
        last_quality: 0,
    });
    state
}

#[test]
fn message_identifiers_follow_the_private_range() {
    assert_eq!(WM_USER, 1024);
    assert_eq!(WM_QUIT, 18);
    assert_eq!(WM_NETWORK_STATUS_CHANGE, 1131);
    assert_eq!(WM_WIFI_SIGNAL_CHANGE, 1132);
}

#[test]
fn posting_before_the_loop_started_fails() {
    assert_eq!(send_network_status_message(0, 1), Err(PostError::MonitorNotStarted));
    assert_eq!(send_wlan_status_message(0, 50, -60), Err(PostError::MonitorNotStarted));
}

#[test]
fn posted_messages_carry_their_values() {
    assert_eq!(
        send_network_status_message(4242, 1),
        Ok(ThreadMessage { message: 1131, w_param: 1, l_param: 0 })
    );
    assert_eq!(
        send_wlan_status_message(4242, 50, -60),
        Ok(ThreadMessage { message: 1132, w_param: 50, l_param: -60 })
    );
}

#[test]
fn a_second_start_spawns_nothing() {
    let mut supervisor = Supervisor::new();
    assert_eq!(supervisor.phase, MonitorPhase::Stopped);
    assert!(start_monitor_thread(&mut supervisor));
    assert_eq!(supervisor.phase, MonitorPhase::Starting);
    let after_first = supervisor;
    assert!(!start_monitor_thread(&mut supervisor));
    assert_eq!(supervisor, after_first);
    monitor_thread_entered(&mut supervisor, 4242);
    monitor_initialized(&mut supervisor);
    let running = supervisor;
    assert!(!start_monitor_thread(&mut supervisor));
    assert_eq!(supervisor, running);
    monitor_loop_ended(&mut supervisor);
    let stopping = supervisor;
    assert!(!start_monitor_thread(&mut supervisor));
    assert_eq!(supervisor, stopping);
}

#[test]
fn monitor_goes_through_its_phases_and_can_start_again() {
    let mut supervisor = Supervisor::new();
    monitor_thread_entered(&mut supervisor, 9);
    assert_eq!(supervisor.monitor_thread_id, 0);
    monitor_initialized(&mut supervisor);
    assert_eq!(supervisor.phase, MonitorPhase::Stopped);
    monitor_loop_ended(&mut supervisor);
    assert_eq!(supervisor.phase, MonitorPhase::Stopped);

    assert!(start_monitor_thread(&mut supervisor));
    monitor_loop_ended(&mut supervisor);
    assert_eq!(supervisor.phase, MonitorPhase::Starting);
    monitor_thread_entered(&mut supervisor, 4242);
    assert_eq!(supervisor.monitor_thread_id, 4242);
    monitor_initialized(&mut supervisor);
    assert_eq!(supervisor.phase, MonitorPhase::Running);
    monitor_thread_entered(&mut supervisor, 1);
    assert_eq!(supervisor.monitor_thread_id, 4242);
    monitor_loop_ended(&mut supervisor);
    assert_eq!(supervisor.phase, MonitorPhase::Stopping);
    monitor_thread_finished(&mut supervisor);
    assert_eq!(supervisor.phase, MonitorPhase::Stopped);
    assert_eq!(supervisor.monitor_thread_id, 0);
    assert!(start_monitor_thread(&mut supervisor));
}

#[test]
fn shutdown_of_a_monitor_that_never_started_posts_nothing() {
    let supervisor = Supervisor::new();
    assert_eq!(cleanup_monitor_thread(&supervisor), None);
}

#[test]
fn shutdown_posts_the_quit_message() {
    let mut supervisor = Supervisor::new();
    start_monitor_thread(&mut supervisor);
    monitor_thread_entered(&mut supervisor, 4242);
    assert_eq!(
        cleanup_monitor_thread(&supervisor),
        Some(ThreadMessage { message: 18, w_param: 0, l_param: 0 })
    );
}

#[test]
fn connectivity_messages_are_reported_without_filtering() {
    let mut state = MonitorState::new();
    assert_eq!(handle_network_status_message(&mut state, 1), NetworkStatus { status: 1 });
    assert!(state.network_connected);
    assert_eq!(handle_network_status_message(&mut state, 1), NetworkStatus { status: 1 });
    assert!(state.network_connected);
    assert_eq!(handle_network_status_message(&mut state, 0), NetworkStatus { status: 0 });
    assert!(!state.network_connected);
    assert_eq!(handle_network_status_message(&mut state, 7), NetworkStatus { status: 1 });
    assert!(state.network_connected);
}

#[test]
fn signal_messages_carry_the_classification() {
    assert_eq!(
        handle_wifi_signal_message(&weak_state(false), 80, -45),
        WlanStatus { strong: 1, quality: 80, rssi: -45 }
    );
    assert_eq!(
        handle_wifi_signal_message(&weak_state(true), 20, -80),
        WlanStatus { strong: 0, quality: 20, rssi: -80 }
    );
    assert_eq!(
        handle_wifi_signal_message(&MonitorState::new(), 5, 0),
        WlanStatus { strong: 1, quality: 5, rssi: 0 }
    );
}

#[test]
fn what_was_posted_is_what_is_reported() {
    let mut state = weak_state(true);
    let network = send_network_status_message(4242, 1).unwrap();
    assert_eq!(
        handle_received(&mut state, &got(network)),
        LoopAction::ReportNetworkStatus(NetworkStatus { status: 1 })
    );
    assert!(state.network_connected);
    let signal = send_wlan_status_message(4242, u32::MAX, i32::MIN).unwrap();
    assert_eq!(
        handle_received(&mut state, &got(signal)),
        LoopAction::ReportWlanStatus(WlanStatus { strong: 0, quality: u32::MAX, rssi: i32::MIN })
    );
}

#[test]
fn the_wait_result_decides_before_the_message() {
    let mut state = MonitorState::new();
    let message = send_network_status_message(1, 1).unwrap();
    assert_eq!(
        handle_received(&mut state, &Received { result: -1, message }),
        LoopAction::Exit { failed: true }
    );
    assert_eq!(
        handle_received(&mut state, &Received { result: 0, message }),
        LoopAction::Exit { failed: false }
    );
    assert_eq!(state, MonitorState::new());
    let foreign = ThreadMessage { message: 15, w_param: 3, l_param: 4 };
    assert_eq!(handle_received(&mut state, &got(foreign)), LoopAction::Dispatch);
    assert_eq!(state, MonitorState::new());
}

#[test]
fn quit_does_not_overtake_queued_messages() {
    let mut state = weak_state(false);
    let queue = vec![
        got(send_network_status_message(1, 1).unwrap()),
        got(send_wlan_status_message(1, 70, -50).unwrap()),
        got(ThreadMessage { message: 15, w_param: 0, l_param: 0 }),
        got(send_network_status_message(1, 0).unwrap()),
        quit(),
        got(send_network_status_message(1, 1).unwrap()),
    ];
    let actions = run_message_loop(&mut state, &queue);
    assert_eq!(
        actions,
        vec![
            LoopAction::ReportNetworkStatus(NetworkStatus { status: 1 }),
            LoopAction::ReportWlanStatus(WlanStatus { strong: 1, quality: 70, rssi: -50 }),
            LoopAction::Dispatch,
            LoopAction::ReportNetworkStatus(NetworkStatus { status: 0 }),
            LoopAction::Exit { failed: false },
        ]
    );
    assert!(!state.network_connected);
}

#[test]
fn the_loop_handles_all_it_received_when_nothing_ends_it() {
    let mut state = MonitorState::new();
    let queue = vec![got(send_network_status_message(1, 1).unwrap())];
    assert_eq!(
        run_message_loop(&mut state, &queue),
        vec![LoopAction::ReportNetworkStatus(NetworkStatus { status: 1 })]
    );
    assert!(state.network_connected);
    assert_eq!(run_message_loop(&mut state, &Vec::new()), Vec::new());
}

#[test]
fn a_failed_wait_ends_the_loop() {
    let mut state = MonitorState::new();
    let failed = Received { result: -1, message: ThreadMessage { message: 0, w_param: 0, l_param: 0 } };
    let queue = vec![failed, got(send_network_status_message(1, 1).unwrap())];
    assert_eq!(run_message_loop(&mut state, &queue), vec![LoopAction::Exit { failed: true }]);
    assert!(!state.network_connected);
}
