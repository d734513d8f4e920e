//! The messages that carry events from the watchers to the monitor loop
//! through the loop thread's message queue.

use vstd::prelude::*;

verus! {

/// First message identifier free for private use.
pub const WM_USER: u32 = 1024;

/// Message identifier that asks a message loop to end.
pub const WM_QUIT: u32 = 18;

/// Private message: connectivity changed; the first parameter is 0 or 1.
pub const WM_NETWORK_STATUS_CHANGE: u32 = WM_USER + 107;

/// Private message: the wireless signal changed; the first parameter is the
/// quality, the second the signal strength.
pub const WM_WIFI_SIGNAL_CHANGE: u32 = WM_USER + 108;

/// A message for the queue of the monitor loop's thread.
#[derive(Clone, Copy, Debug, PartialEq, Eq, Structural)]
pub struct ThreadMessage {
    pub message: u32,
    pub w_param: usize,
    pub l_param: isize,
}

/// Why a message could not be posted.
#[derive(Clone, Copy, Debug, PartialEq, Eq, Structural)]
pub enum PostError {
    /// The monitor loop's thread has not registered itself yet, so there is
    /// no queue to post to.
    MonitorNotStarted,
}

/// The message that carries a connectivity status.
pub open spec fn network_status_message(status: u32) -> ThreadMessage {
    ThreadMessage { message: WM_NETWORK_STATUS_CHANGE, w_param: status as usize, l_param: 0 }
}

/// The message that carries a signal reading.
pub open spec fn wlan_status_message(quality: u32, rssi: i32) -> ThreadMessage {
    ThreadMessage {
        message: WM_WIFI_SIGNAL_CHANGE,
        w_param: quality as usize,
        l_param: rssi as isize,
    }
}

/// The message that asks the monitor loop to end.
pub open spec fn quit_message() -> ThreadMessage {
    ThreadMessage { message: WM_QUIT, w_param: 0, l_param: 0 }
}

/// Builds the message that posts a connectivity status to the monitor loop
/// whose thread has the identifier `thread_id`. With the identifier zero
/// the loop has not started, and the post fails.
pub fn send_network_status_message(
    thread_id: u32,
    status: u32,
) -> (posted: Result<ThreadMessage, PostError>)
    ensures
        thread_id == 0 ==> posted == Err::<ThreadMessage, PostError>(PostError::MonitorNotStarted),
        thread_id != 0 ==> posted == Ok::<ThreadMessage, PostError>(
            network_status_message(status),
        ),
{
    if thread_id == 0 {
        return Err(PostError::MonitorNotStarted);
    }
    Ok(ThreadMessage { message: WM_NETWORK_STATUS_CHANGE, w_param: status as usize, l_param: 0 })
}

/// Builds the message that posts a signal reading to the monitor loop whose
/// thread has the identifier `thread_id`. With the identifier zero the loop
/// has not started, and the post fails.
pub fn send_wlan_status_message(
    thread_id: u32,
    quality: u32,
    rssi: i32,
) -> (posted: Result<ThreadMessage, PostError>)
    ensures
        thread_id == 0 ==> posted == Err::<ThreadMessage, PostError>(PostError::MonitorNotStarted),
        thread_id != 0 ==> posted == Ok::<ThreadMessage, PostError>(
            wlan_status_message(quality, rssi),
        ),
{
    if thread_id == 0 {
        return Err(PostError::MonitorNotStarted);
    }
    Ok(
        ThreadMessage {
            message: WM_WIFI_SIGNAL_CHANGE,
            w_param: quality as usize,
            l_param: rssi as isize,
        },
    )
}

} // verus!
