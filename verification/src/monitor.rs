//! The monitor loop: the life of its thread and the handling of the
//! messages it receives, one at a time and in the order of their arrival.

use vstd::prelude::*;
use crate::global::{MonitorPhase, MonitorState, NetworkStatus, Supervisor, WlanStatus};
use crate::messages::{ThreadMessage, WM_NETWORK_STATUS_CHANGE, WM_QUIT, WM_WIFI_SIGNAL_CHANGE};
use crate::messages::{network_status_message, quit_message, wlan_status_message};

verus! {

/// The bookkeeping after a request to start the monitor: a stopped monitor
/// begins to start, any other is left as it is.
pub open spec fn after_start_request(supervisor: Supervisor) -> Supervisor {
    if supervisor.phase == MonitorPhase::Stopped {
        Supervisor { phase: MonitorPhase::Starting, ..supervisor }
    } else {
        supervisor
    }
}

/// Handles a request to start the monitor and tells whether a thread must
/// be spawned for it. Only a stopped monitor is started; a request that
/// finds the monitor started already changes nothing and spawns nothing.
pub fn start_monitor_thread(supervisor: &mut Supervisor) -> (spawn: bool)
    ensures
        spawn == (old(supervisor).phase == MonitorPhase::Stopped),
        *final(supervisor) == after_start_request(*old(supervisor)),
        final(supervisor).monitor_started(),
        old(supervisor).wf() ==> final(supervisor).wf(),
{
    match supervisor.phase {
        MonitorPhase::Stopped => {
            supervisor.phase = MonitorPhase::Starting;
            true
        },
        _ => false,
    }
}

/// A monitor that is asked to start twice is started once: the second
/// request spawns no thread and leaves the bookkeeping as the first request
/// left it, whatever the state before the first.
pub proof fn lemma_second_start_does_nothing(supervisor: Supervisor)
    ensures
        after_start_request(supervisor).phase != MonitorPhase::Stopped,
        after_start_request(after_start_request(supervisor)) == after_start_request(supervisor),
{
}

/// The monitor thread, on entry, makes itself reachable under its thread
/// identifier. This takes effect while the monitor is starting.
pub fn monitor_thread_entered(supervisor: &mut Supervisor, thread_id: u32)
    ensures
        *final(supervisor) == if old(supervisor).phase == MonitorPhase::Starting {
            Supervisor { monitor_thread_id: thread_id, ..*old(supervisor) }
        } else {
            *old(supervisor)
        },
        old(supervisor).wf() ==> final(supervisor).wf(),
{
    if supervisor.phase == MonitorPhase::Starting {
        supervisor.monitor_thread_id = thread_id;
    }
}

/// Setting up the watchers is over, whether each of them succeeded or not:
/// a starting monitor begins to run.
pub fn monitor_initialized(supervisor: &mut Supervisor)
    ensures
        *final(supervisor) == if old(supervisor).phase == MonitorPhase::Starting {
            Supervisor { phase: MonitorPhase::Running, ..*old(supervisor) }
        } else {
            *old(supervisor)
        },
        old(supervisor).wf() ==> final(supervisor).wf(),
{
    if supervisor.phase == MonitorPhase::Starting {
        supervisor.phase = MonitorPhase::Running;
    }
}

/// The loop has ended: a running monitor begins to stop.
pub fn monitor_loop_ended(supervisor: &mut Supervisor)
    ensures
        *final(supervisor) == if old(supervisor).phase == MonitorPhase::Running {
            Supervisor { phase: MonitorPhase::Stopping, ..*old(supervisor) }
        } else {
            *old(supervisor)
        },
        old(supervisor).wf() ==> final(supervisor).wf(),
{
    if supervisor.phase == MonitorPhase::Running {
        supervisor.phase = MonitorPhase::Stopping;
    }
}

/// The watchers are released and the thread is about to end: the monitor is
/// stopped and its thread identifier forgotten, so that it can be started
/// again.
pub fn monitor_thread_finished(supervisor: &mut Supervisor)
    ensures
        *final(supervisor) == (Supervisor {
            phase: MonitorPhase::Stopped,
            monitor_thread_id: 0,
            ..*old(supervisor)
        }),
        old(supervisor).wf() ==> final(supervisor).wf(),
{
    supervisor.phase = MonitorPhase::Stopped;
    supervisor.monitor_thread_id = 0;
}

/// Handles a request to shut the monitor down: returns the message that
/// asks the loop to end, to be posted to its thread, or nothing where no
/// monitor thread is reachable. Asking a monitor that never started is
/// harmless.
pub fn cleanup_monitor_thread(supervisor: &Supervisor) -> (posted: Option<ThreadMessage>)
    ensures
        posted == if supervisor.monitor_thread_id == 0 {
            None
        } else {
            Some(quit_message())
        },
{
    if supervisor.monitor_thread_id == 0 {
        return None;
    }
    Some(ThreadMessage { message: WM_QUIT, w_param: 0, l_param: 0 })
}

/// What waiting for a message returned: the result of the wait and the
/// message. The result 0 says that the loop was asked to end, -1 that the
/// wait failed; with any other result `message` was received.
#[derive(Clone, Copy, Debug, PartialEq, Eq, Structural)]
pub struct Received {
    pub result: i32,
    pub message: ThreadMessage,
}

/// What the monitor loop does in response to what it received.
#[derive(Clone, Copy, Debug, PartialEq, Eq, Structural)]
pub enum LoopAction {
    /// Leave the loop; `failed` tells whether waiting for a message failed.
    Exit { failed: bool },
    /// Hand the connectivity status to the consumer.
    ReportNetworkStatus(NetworkStatus),
    /// Hand the signal status to the consumer.
    ReportWlanStatus(WlanStatus),
    /// Not a message of the monitor: pass it on to the system's default
    /// handling.
    Dispatch,
}

/// The status reported for a connectivity message: 1 unless the message
/// carries 0.
pub open spec fn network_status_report(status: u32) -> NetworkStatus {
    NetworkStatus { status: if status != 0 { 1 } else { 0 } }
}

/// The signal status reported for a signal message: the reading as it came,
/// marked strong unless the hysteresis state classifies the signal as weak.
pub open spec fn wlan_status_report(state: MonitorState, quality: u32, rssi: i32) -> WlanStatus {
    WlanStatus {
        strong: match state.signal_context {
            Some(context) => if context.is_signal_weak { 0 } else { 1 },
            None => 1,
        },
        quality,
        rssi,
    }
}

/// Handles a connectivity message: remembers whether the machine is
/// connected and returns the status to report. Every message is reported,
/// also one that repeats the status before it.
pub fn handle_network_status_message(
    state: &mut MonitorState,
    status: u32,
) -> (report: NetworkStatus)
    ensures
        report == network_status_report(status),
        *final(state) == (MonitorState { network_connected: status != 0, ..*old(state) }),
{
    let connected = status != 0;
    state.network_connected = connected;
    NetworkStatus { status: if connected { 1 } else { 0 } }
}

/// Handles a signal message: returns the signal status to report. Every
/// message is reported.
pub fn handle_wifi_signal_message(
    state: &MonitorState,
    quality: u32,
    rssi: i32,
) -> (report: WlanStatus)
    ensures
        report == wlan_status_report(*state, quality, rssi),
{
    let strong = match state.signal_context {
        Some(context) => if context.is_signal_weak { 0 } else { 1 },
        None => 1,
    };
    WlanStatus { strong, quality, rssi }
}

/// What the loop does with what it received, in the given state.
pub open spec fn action_for(state: MonitorState, received: Received) -> LoopAction {
    if received.result == -1 {
        LoopAction::Exit { failed: true }
    } else if received.result == 0 {
        LoopAction::Exit { failed: false }
    } else if received.message.message == WM_NETWORK_STATUS_CHANGE {
        LoopAction::ReportNetworkStatus(network_status_report(received.message.w_param as u32))
    } else if received.message.message == WM_WIFI_SIGNAL_CHANGE {
        LoopAction::ReportWlanStatus(
            wlan_status_report(
                state,
                received.message.w_param as u32,
                received.message.l_param as i32,
            ),
        )
    } else {
        LoopAction::Dispatch
    }
}

/// The state of the loop after it handled what it received.
pub open spec fn state_after(state: MonitorState, received: Received) -> MonitorState {
    if received.result != -1 && received.result != 0 && received.message.message
        == WM_NETWORK_STATUS_CHANGE {
        MonitorState { network_connected: received.message.w_param as u32 != 0, ..state }
    } else {
        state
    }
}

/// One turn of the monitor loop: decides what to do with what the wait for
/// a message returned, and updates the loop's state.
pub fn handle_received(state: &mut MonitorState, received: &Received) -> (action: LoopAction)
    ensures
        action == action_for(*old(state), *received),
        *final(state) == state_after(*old(state), *received),
{
    if received.result == -1 {
        return LoopAction::Exit { failed: true };
    }
    if received.result == 0 {
        return LoopAction::Exit { failed: false };
    }
    if received.message.message == WM_NETWORK_STATUS_CHANGE {
        let status = received.message.w_param as u32;
        return LoopAction::ReportNetworkStatus(handle_network_status_message(state, status));
    }
    if received.message.message == WM_WIFI_SIGNAL_CHANGE {
        let quality = received.message.w_param as u32;
        let rssi = received.message.l_param as i32;
        return LoopAction::ReportWlanStatus(handle_wifi_signal_message(state, quality, rssi));
    }
    LoopAction::Dispatch
}

/// A connectivity status and a signal reading survive the way through the
/// queue: the loop reports what the watcher posted.
pub proof fn lemma_posted_is_reported(
    state: MonitorState,
    result: i32,
    status: u32,
    quality: u32,
    rssi: i32,
)
    requires
        result != 0,
        result != -1,
    ensures
        action_for(state, Received { result, message: network_status_message(status) })
            == LoopAction::ReportNetworkStatus(network_status_report(status)),
        action_for(state, Received { result, message: wlan_status_message(quality, rssi) })
            == LoopAction::ReportWlanStatus(wlan_status_report(state, quality, rssi)),
{
    assert((status as usize) as u32 == status);
    assert((quality as usize) as u32 == quality);
    assert((rssi as isize) as i32 == rssi);
}

/// The actions of a loop that starts in `state` and receives `received` in
/// this order: one action for each item up to and including the first that
/// makes the loop exit. What follows that item is not handled.
pub open spec fn loop_actions(state: MonitorState, received: Seq<Received>) -> Seq<LoopAction>
    decreases received.len(),
{
    if received.len() == 0 {
        Seq::empty()
    } else {
        let action = action_for(state, received[0]);
        if action is Exit {
            seq![action]
        } else {
            seq![action] + loop_actions(state_after(state, received[0]), received.drop_first())
        }
    }
}

/// The state in which the loop of [`loop_actions`] ends.
pub open spec fn loop_state(state: MonitorState, received: Seq<Received>) -> MonitorState
    decreases received.len(),
{
    if received.len() == 0 {
        state
    } else if action_for(state, received[0]) is Exit {
        state
    } else {
        loop_state(state_after(state, received[0]), received.drop_first())
    }
}

/// Runs the monitor loop over what the waits for a message returned, in
/// the order of arrival, until an item makes the loop exit or the items are
/// used up. Returns the actions taken, in order.
pub fn run_message_loop(
    state: &mut MonitorState,
    received: &Vec<Received>,
) -> (actions: Vec<LoopAction>)
    ensures
        actions@ == loop_actions(*old(state), received@),
        *final(state) == loop_state(*old(state), received@),
{
    let ghost start = *state;
    let mut actions: Vec<LoopAction> = Vec::new();
    let mut i: usize = 0;
    proof {
        assert(received@.subrange(0, received@.len() as int) =~= received@);
    }
    while i < received.len()
        invariant
            i <= received.len(),
            start == *old(state),
            loop_actions(start, received@) == actions@ + loop_actions(
                *state,
                received@.subrange(i as int, received@.len() as int),
            ),
            loop_state(start, received@) == loop_state(
                *state,
                received@.subrange(i as int, received@.len() as int),
            ),
        decreases received.len() - i,
    {
        let ghost rest = received@.subrange(i as int, received@.len() as int);
        let ghost before = *state;
        proof {
            assert(rest[0] == received@[i as int]);
            assert(rest.drop_first() =~= received@.subrange(i + 1, received@.len() as int));
        }
        let action = handle_received(state, &received[i]);
        actions.push(action);
        match action {
            LoopAction::Exit { .. } => {
                proof {
                    assert(loop_actions(before, rest) =~= seq![action]);
                    assert(loop_state(before, rest) == before);
                    assert(*state == before);
                    assert(actions@ =~= actions@.drop_last() + seq![action]);
                }
                return actions;
            },
            _ => {},
        }
        proof {
            assert(actions@ + loop_actions(*state, rest.drop_first()) =~= actions@.drop_last() + (
            seq![action] + loop_actions(*state, rest.drop_first())));
        }
        i = i + 1;
    }
    proof {
        assert(received@.subrange(i as int, received@.len() as int) =~= Seq::<Received>::empty());
        assert(actions@ + Seq::<LoopAction>::empty() =~= actions@);
    }
    actions
}

/// Whether an item is a received message rather than a request to end or a
/// failed wait.
pub open spec fn is_message(received: Received) -> bool {
    received.result != 0 && received.result != -1
}

/// A request to end the loop does not overtake the messages queued before
/// it, and nothing queued after it is handled: the loop handles each
/// earlier message, in order, then exits.
pub proof fn lemma_quit_waits_its_turn(
    state: MonitorState,
    before: Seq<Received>,
    quit: Received,
    after: Seq<Received>,
)
    requires
        forall|i: int| 0 <= i < before.len() ==> is_message(#[trigger] before[i]),
        quit.result == 0,
    ensures
        loop_actions(state, before).len() == before.len(),
        loop_actions(state, before + seq![quit] + after) == loop_actions(state, before).push(
            LoopAction::Exit { failed: false },
        ),
        loop_state(state, before + seq![quit] + after) == loop_state(state, before),
    decreases before.len(),
{
    let all = before + seq![quit] + after;
    if before.len() == 0 {
        assert(all[0] == quit);
        assert(loop_actions(state, all) =~= seq![LoopAction::Exit { failed: false }]);
        assert(loop_actions(state, before).push(LoopAction::Exit { failed: false }) =~= seq![
            LoopAction::Exit { failed: false },
        ]);
    } else {
        let first = before[0];
        assert(is_message(first));
        assert(all[0] == first);
        assert(all.drop_first() =~= before.drop_first() + seq![quit] + after);
        lemma_quit_waits_its_turn(state_after(state, first), before.drop_first(), quit, after);
        let tail = loop_actions(state_after(state, first), before.drop_first());
        assert((seq![action_for(state, first)] + tail).push(LoopAction::Exit { failed: false })
            =~= seq![action_for(state, first)] + tail.push(LoopAction::Exit { failed: false }));
    }
}

} // verus!
