//! The poll loop's one iteration and its wait computation: drive the protocol
//! engine, run the socket controller, and decide how long the loop may block
//! on the device before the engine must be driven again.

use vstd::prelude::*;
use smoltcp::iface::{Interface, SocketHandle, SocketSet};
use crate::controller::{controller_step, greeting_bytes, ControllerError, StepOutcome, GREETING_PORT};
use crate::device::NetDevice;
use crate::engine::engine_poll_at;
use crate::sockets::{sock_listen_port, sock_open, sock_tx, sock_writable, valid_handle};

verus! {

/// How long the scheduler may block, in microseconds, given the current time
/// and the engine's next mandatory wake-up time (both absolute microsecond
/// timestamps).  No wake-up time means the block may be unbounded; a wake-up
/// time that has already passed means the engine must be polled again at once.
pub open spec fn wait_for_wake(now: int, wake_at: Option<int>) -> Option<int> {
    match wake_at {
        None => None,
        Some(t) => if now < t { Some(t - now) } else { Some(0int) },
    }
}

/// The wake-up time as a mathematical value.
pub open spec fn wake_view(wake_at: Option<i64>) -> Option<int> {
    match wake_at {
        None => None,
        Some(t) => Some(t as int),
    }
}

/// Compute the actual blocking wait from the current time and the engine's
/// reported wake-up time.  The result is `None` (block until the device is
/// readable) exactly when the engine reported no deadline.
pub fn compute_wait(now_micros: i64, wake_at_micros: Option<i64>) -> (w: Option<u64>)
    ensures
        w is Some <==> wake_at_micros is Some,
        w matches Some(d) ==> wait_for_wake(now_micros as int, wake_view(wake_at_micros)) == Some(d as int),
{
    match wake_at_micros {
        None => None,
        Some(t) => {
            if now_micros < t {
                let d: i128 = (t as i128) - (now_micros as i128);
                Some(d as u64)
            } else {
                Some(0u64)
            }
        }
    }
}

/// Deadline non-violation: whenever the engine reports a wake-up time, the
/// computed wait is bounded, and sleeping for it never passes that wake-up
/// time (a deadline already in the past yields a wait of zero).
pub proof fn lemma_wait_within_deadline(now: int, wake_at: int)
    ensures
        wait_for_wake(now, Some(wake_at)) matches Some(d)
            && now + d <= vstd::math::max(now, wake_at),
{
}

/// What one poll-loop iteration decided: what the controller did, the
/// engine's reported wake-up time, and the wait computed from it.
pub struct Iteration {
    pub outcome: StepOutcome,
    pub wake_at_micros: Option<i64>,
    pub wait_micros: Option<u64>,
}

/// One iteration of the poll loop, at the given time: poll the engine against
/// the device (all pending protocol work), run the controller step on the
/// responder socket, then compute from the engine's next wake-up time how
/// long the caller may block on the device.  The caller's loop does only what
/// no library code can: capture the clock and block on the raw descriptor.
pub fn run_iteration(iface: &mut Interface, dev: &mut NetDevice, ss: &mut SocketSet<'static>, h: SocketHandle, now_micros: i64) -> (r: Result<Iteration, ControllerError>)
    requires
        valid_handle(*old(ss), h),
    ensures
        valid_handle(*final(ss), h),
        r matches Err(e) ==> e == ControllerError::GreetingTruncated,
        r matches Ok(it) ==> {
            &&& it.wait_micros is Some <==> it.wake_at_micros is Some
            &&& (it.wait_micros matches Some(d) ==>
                wait_for_wake(now_micros as int, wake_view(it.wake_at_micros)) == Some(d as int))
            &&& (it.outcome == StepOutcome::Listened ==> sock_open(*final(ss), h)
                && !sock_writable(*final(ss), h)
                && sock_listen_port(*final(ss), h) == Some(GREETING_PORT)
                && sock_tx(*final(ss), h) == Seq::<u8>::empty())
            &&& (it.outcome == StepOutcome::Responded ==> sock_open(*final(ss), h)
                && !sock_writable(*final(ss), h)
                && (exists|queued: Seq<u8>| sock_tx(*final(ss), h) == queued + greeting_bytes()))
        },
{
    let _activity = dev.poll(iface, ss, now_micros);
    let ghost polled = *ss;
    let outcome = match controller_step(ss, h) {
        Ok(o) => o,
        Err(e) => {
            return Err(e);
        }
    };
    proof {
        if outcome == StepOutcome::Responded {
            assert(sock_tx(*ss, h) == sock_tx(polled, h) + greeting_bytes());
        }
    }
    let wake_at_micros = engine_poll_at(iface, ss, now_micros);
    let wait_micros = compute_wait(now_micros, wake_at_micros);
    Ok(Iteration { outcome, wake_at_micros, wait_micros })
}

} // verus!
