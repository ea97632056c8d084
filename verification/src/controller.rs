//! The socket lifecycle controller: the per-iteration policy that keeps the
//! one responder socket listening on the fixed port, greets every established
//! connection with the fixed payload, and closes it at once.

use vstd::prelude::*;
use smoltcp::iface::{SocketHandle, SocketSet};
use crate::sockets::{
    new_socket_set, sock_listen_port, sock_open, sock_rx_capacity, sock_sendable, sock_tx,
    sock_tx_capacity, sock_tx_free, sock_writable, tcp_can_send, tcp_close, tcp_is_open,
    tcp_listen, tcp_send, valid_handle,
};

verus! {

/// The TCP port every connection is accepted on.
pub const GREETING_PORT: u16 = 6969;

/// The responder socket's receive buffer capacity, in bytes.  Received data
/// is never read; the buffer only has to exist.
pub const RX_BUFFER_CAPACITY: usize = 64;

/// The responder socket's transmit buffer capacity, in bytes.
pub const TX_BUFFER_CAPACITY: usize = 128;

/// The fixed payload every accepted connection receives: the ASCII bytes of
/// "hello" followed by a newline.
pub open spec fn greeting_bytes() -> Seq<u8> {
    seq![0x68u8, 0x65u8, 0x6cu8, 0x6cu8, 0x6fu8, 0x0au8]
}

/// The greeting payload as a byte vector.
pub fn greeting() -> (v: Vec<u8>)
    ensures
        v@ == greeting_bytes(),
{
    let mut v: Vec<u8> = Vec::new();
    v.push(0x68);
    v.push(0x65);
    v.push(0x6c);
    v.push(0x6c);
    v.push(0x6f);
    v.push(0x0a);
    proof {
        assert(v@ =~= greeting_bytes());
    }
    v
}

/// What one controller step did to the responder socket.
#[derive(Clone, Copy, Debug, PartialEq, Eq, Structural)]
pub enum StepOutcome {
    /// The socket was not open and was (re-)armed to listen on the port.
    Listened,
    /// The connection could carry data: the greeting was queued in full and a
    /// graceful close was requested on the same step.
    Responded,
    /// The socket was already open but could not carry data; nothing to do.
    Idle,
}

/// A socket operation failed under the controller.  Both are fatal: the one
/// socket is irreplaceable, so the caller must terminate the process.
#[derive(Clone, Copy, Debug, PartialEq, Eq, Structural)]
pub enum ControllerError {
    /// The listen request was refused.  The controller only listens on a
    /// socket that is not open, with a fixed nonzero port, so this signals a
    /// broken invariant rather than a reachable state.
    ListenRejected,
    /// The transmit buffer accepted only part of the greeting, or refused it.
    GreetingTruncated,
}

/// The controller's whole decision, from what it observes of the socket: a
/// socket that is not open is re-armed to listen; an established connection
/// with transmit room is greeted and closed; an open socket that cannot carry
/// data is left alone.  No other transition exists.
pub open spec fn step_decision(open: bool, writable: bool) -> StepOutcome {
    if !open {
        StepOutcome::Listened
    } else if writable {
        StepOutcome::Responded
    } else {
        StepOutcome::Idle
    }
}

/// Create the socket set holding the one responder socket — the set's only
/// socket — with its fixed buffer capacities, and return it with the socket's
/// handle.  The handle is never destroyed: the same socket is reused across
/// all connections.
pub fn new_responder() -> (r: (SocketSet<'static>, SocketHandle))
    ensures
        valid_handle(r.0, r.1),
        forall|g: SocketHandle| #[trigger] valid_handle(r.0, g) ==> g == r.1,
        !sock_open(r.0, r.1),
        !sock_writable(r.0, r.1),
        sock_listen_port(r.0, r.1) is None,
        sock_tx(r.0, r.1) == Seq::<u8>::empty(),
        sock_rx_capacity(r.0, r.1) == RX_BUFFER_CAPACITY,
        sock_tx_capacity(r.0, r.1) == TX_BUFFER_CAPACITY,
        sock_tx_free(r.0, r.1) == TX_BUFFER_CAPACITY,
{
    new_socket_set(RX_BUFFER_CAPACITY, TX_BUFFER_CAPACITY)
}

/// One controller step, run once per poll-loop iteration, after the engine
/// has been polled.
///
/// If the socket is not open, it is re-armed to listen on the port — this
/// both arms it at startup and re-arms it after every served connection, so a
/// new connection attempt always finds a listening socket again.  If the
/// established connection can carry data, the full greeting is queued and a
/// graceful close is requested on the same step, without waiting for any
/// acknowledgment.  Received data is never inspected.  Otherwise nothing is
/// touched.
pub fn controller_step(ss: &mut SocketSet<'static>, h: SocketHandle) -> (r: Result<StepOutcome, ControllerError>)
    requires
        valid_handle(*old(ss), h),
    ensures
        forall|g: SocketHandle| #[trigger] valid_handle(*final(ss), g) == valid_handle(*old(ss), g),
        sock_rx_capacity(*final(ss), h) == sock_rx_capacity(*old(ss), h),
        sock_tx_capacity(*final(ss), h) == sock_tx_capacity(*old(ss), h),
        r matches Ok(o) ==> o == step_decision(sock_open(*old(ss), h), sock_writable(*old(ss), h)),
        r matches Err(e) ==> e == ControllerError::GreetingTruncated,
        !sock_open(*old(ss), h) ==> r matches Ok(StepOutcome::Listened),
        r matches Ok(StepOutcome::Listened) ==> !sock_open(*old(ss), h)
            && sock_open(*final(ss), h)
            && !sock_writable(*final(ss), h)
            && sock_listen_port(*final(ss), h) == Some(GREETING_PORT)
            && sock_tx(*final(ss), h) == Seq::<u8>::empty(),
        sock_open(*old(ss), h) && !sock_writable(*old(ss), h) ==> r matches Ok(StepOutcome::Idle),
        r matches Ok(StepOutcome::Idle) ==> sock_open(*old(ss), h)
            && !sock_writable(*old(ss), h)
            && *final(ss) == *old(ss),
        sock_open(*old(ss), h) && sock_writable(*old(ss), h) ==> (r matches Ok(StepOutcome::Responded)
            || r matches Err(ControllerError::GreetingTruncated)),
        sock_open(*old(ss), h) && sock_writable(*old(ss), h)
            && sock_tx_free(*old(ss), h) >= greeting_bytes().len()
            ==> r matches Ok(StepOutcome::Responded),
        r matches Ok(StepOutcome::Responded) ==> sock_open(*old(ss), h)
            && sock_writable(*old(ss), h)
            && sock_tx(*final(ss), h) == sock_tx(*old(ss), h) + greeting_bytes()
            && sock_open(*final(ss), h)
            && !sock_writable(*final(ss), h)
            && sock_listen_port(*final(ss), h) is None,
{
    let mut armed = false;
    if !tcp_is_open(ss, h) {
        match tcp_listen(ss, h, GREETING_PORT) {
            Ok(()) => {
                armed = true;
            }
            Err(_) => {
                return Err(ControllerError::ListenRejected);
            }
        }
    }
    if tcp_can_send(ss, h) {
        let payload = greeting();
        match tcp_send(ss, h, payload.as_slice()) {
            Ok(n) => {
                if n != payload.len() {
                    return Err(ControllerError::GreetingTruncated);
                }
                proof {
                    assert(payload@.take(payload@.len() as int) =~= payload@);
                }
            }
            Err(_) => {
                return Err(ControllerError::GreetingTruncated);
            }
        }
        tcp_close(ss, h);
        return Ok(StepOutcome::Responded);
    }
    if armed {
        Ok(StepOutcome::Listened)
    } else {
        Ok(StepOutcome::Idle)
    }
}

} // verus!
