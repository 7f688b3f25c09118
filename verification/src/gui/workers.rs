//! The front end's background work: which workers run in each connection
//! state, how often they poll, and what the connecting worker does with
//! each attempt's outcome.

use crate::error::CoreError;
use crate::gui::{AppState, backoff_after, connect_error_is_retryable, next_backoff};
use crate::session::ConnectionInfo;
use vstd::prelude::*;

verus! {

/// Seconds between battery reads while connected.
pub const BATTERY_POLL_SECS: u64 = 30;

/// Seconds between signal-strength reads while connected.
pub const RSSI_POLL_SECS: u64 = 10;

/// Seconds between checks that the connection is still alive.
pub const LIVENESS_CHECK_SECS: u64 = 2;

/// A background worker.
#[derive(Debug, Clone, Copy, PartialEq, Eq, Structural)]
pub enum Worker {
    /// Tries to connect until it succeeds or meets an error worth showing.
    Connect,
    /// Reports [`crate::gui::message::Message::Disconnected`] once the link
    /// is gone.
    WatchDisconnect,
    /// Re-reads the battery every [`BATTERY_POLL_SECS`].
    BatteryPoll,
    /// Re-reads the signal strength every [`RSSI_POLL_SECS`].
    RssiPoll,
}

/// The workers that run in `state`: connecting runs the connect worker;
/// connected watches the link and polls battery and signal; a failed
/// connection runs nothing until the user retries.
pub fn workers_for(state: AppState) -> (v: Vec<Worker>)
    ensures
        v@ == (match state {
            AppState::Connecting => seq![Worker::Connect],
            AppState::Connected => seq![
                Worker::WatchDisconnect,
                Worker::BatteryPoll,
                Worker::RssiPoll,
            ],
            AppState::Error => Seq::<Worker>::empty(),
        }),
{
    match state {
        AppState::Connecting => vec![Worker::Connect],
        AppState::Connected => vec![Worker::WatchDisconnect, Worker::BatteryPoll, Worker::RssiPoll],
        AppState::Error => Vec::new(),
    }
}

/// What the connect worker does after one attempt.
#[derive(Debug)]
pub enum ConnectStep {
    /// Report the connection and stop.
    Connected(ConnectionInfo),
    /// Sleep `wait_secs`, then try again with `next_backoff_secs`.
    RetryAfter { wait_secs: u64, next_backoff_secs: u64 },
    /// Report the error and stop: no adapter, or something the user must fix.
    GiveUp(CoreError),
}

/// The connect worker's decision after an attempt made with the current
/// back-off: a missing device or a stack that did not answer is retried
/// after the back-off, which then doubles up to its ceiling; any other error
/// ends the attempts.
pub fn connect_step(result: Result<ConnectionInfo, CoreError>, backoff_secs: u64) -> (s: ConnectStep)
    requires
        backoff_secs <= u64::MAX / 2,
    ensures
        match result {
            Ok(info) => s == ConnectStep::Connected(info),
            Err(e) => if e is DeviceNotFound || e is OperationTimeout {
                s == (ConnectStep::RetryAfter {
                    wait_secs: backoff_secs,
                    next_backoff_secs: backoff_after(backoff_secs),
                })
            } else {
                s == ConnectStep::GiveUp(e)
            },
        },
{
    match result {
        Ok(info) => ConnectStep::Connected(info),
        Err(e) => {
            if connect_error_is_retryable(&e) {
                ConnectStep::RetryAfter {
                    wait_secs: backoff_secs,
                    next_backoff_secs: next_backoff(backoff_secs),
                }
            } else {
                ConnectStep::GiveUp(e)
            }
        },
    }
}

} // verus!
