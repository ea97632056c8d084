//! The socket-set boundary: the engine-owned collection of sockets, seen
//! through the one handle the responder socket was created with.
//!
//! The set and the handle are opaque engine types; what the controller reads
//! of the socket — its state, its listening port, its transmit buffer's
//! contents, room and capacity — is named by the uninterpreted functions
//! below, and each trusted wrapper states over those names what the engine's
//! source shows of the call.

use vstd::prelude::*;
use smoltcp::iface::{SocketHandle, SocketSet};
use smoltcp::socket::tcp;

verus! {

#[verifier::external_type_specification]
#[verifier::external_body]
pub struct ExSocketSet<'a>(SocketSet<'a>);

#[verifier::external_type_specification]
#[verifier::external_body]
pub struct ExSocketHandle(SocketHandle);

#[verifier::external_type_specification]
#[verifier::external_body]
pub struct ExListenError(tcp::ListenError);

#[verifier::external_type_specification]
#[verifier::external_body]
pub struct ExSendError(tcp::SendError);

/// Whether `h` names a TCP socket living in `ss`.  Every socket is reached
/// only through the handle it was created with; the wrappers below demand it,
/// since looking up a foreign or missing handle panics inside the engine.
pub uninterp spec fn valid_handle(ss: SocketSet<'static>, h: SocketHandle) -> bool;

/// Whether the socket processes inbound or dispatches outbound packets: any
/// TCP state but closed and time-wait.
pub uninterp spec fn sock_open(ss: SocketSet<'static>, h: SocketHandle) -> bool;

/// Whether the transmit half of the connection is open, so data could reach
/// the remote endpoint: state established, or close-wait (the remote closed
/// its sending half, ours still works).
pub uninterp spec fn sock_sendable(ss: SocketSet<'static>, h: SocketHandle) -> bool;

/// The port the socket is passively listening on: `Some(p)` exactly when it
/// is in the listen state with local port `p`, `None` in every other state.
pub uninterp spec fn sock_listen_port(ss: SocketSet<'static>, h: SocketHandle) -> Option<u16>;

/// The bytes queued in the socket's transmit buffer, accepted from the
/// application but not yet carried away by the engine.
pub uninterp spec fn sock_tx(ss: SocketSet<'static>, h: SocketHandle) -> Seq<u8>;

/// The room left in the socket's transmit buffer, in bytes.
pub uninterp spec fn sock_tx_free(ss: SocketSet<'static>, h: SocketHandle) -> nat;

/// The fixed capacity of the socket's receive buffer, in bytes.
pub uninterp spec fn sock_rx_capacity(ss: SocketSet<'static>, h: SocketHandle) -> nat;

/// The fixed capacity of the socket's transmit buffer, in bytes.
pub uninterp spec fn sock_tx_capacity(ss: SocketSet<'static>, h: SocketHandle) -> nat;

/// Whether the socket can accept data for the remote endpoint right now: the
/// transmit half is open and the transmit buffer has room.
pub open spec fn sock_writable(ss: SocketSet<'static>, h: SocketHandle) -> bool {
    sock_sendable(ss, h) && sock_tx_free(ss, h) > 0
}

/// Relies on smoltcp's SocketSet::new, SocketBuffer::new, tcp::Socket::new
/// and SocketSet::add: a growable set holding exactly one fresh TCP socket
/// with the given buffer capacities — its returned handle is the set's only
/// valid one.  A fresh socket is closed, not listening, cannot carry data,
/// and has an empty transmit buffer.  Socket::new panics on a receive buffer
/// over 1 GiB, so that is excluded.
#[verifier::external_body]
pub(crate) fn new_socket_set(rx_capacity: usize, tx_capacity: usize) -> (r: (SocketSet<'static>, SocketHandle))
    requires
        rx_capacity <= 0x4000_0000,
    ensures
        valid_handle(r.0, r.1),
        forall|g: SocketHandle| #[trigger] valid_handle(r.0, g) ==> g == r.1,
        !sock_open(r.0, r.1),
        !sock_sendable(r.0, r.1),
        sock_listen_port(r.0, r.1) is None,
        sock_tx(r.0, r.1) == Seq::<u8>::empty(),
        sock_rx_capacity(r.0, r.1) == rx_capacity,
        sock_tx_capacity(r.0, r.1) == tx_capacity,
        sock_tx_free(r.0, r.1) == tx_capacity,
{
    let rx_buffer = tcp::SocketBuffer::new(vec![0; rx_capacity]);
    let tx_buffer = tcp::SocketBuffer::new(vec![0; tx_capacity]);
    let socket = tcp::Socket::new(rx_buffer, tx_buffer);
    let mut sockets = SocketSet::new(vec![]);
    let handle = sockets.add(socket);
    (sockets, handle)
}

/// Relies on tcp::Socket::is_open, reached through SocketSet::get: whether
/// the socket is in any TCP state but closed and time-wait.
#[verifier::external_body]
pub(crate) fn tcp_is_open(ss: &SocketSet<'static>, h: SocketHandle) -> (b: bool)
    requires
        valid_handle(*ss, h),
    ensures
        b == sock_open(*ss, h),
{
    ss.get::<tcp::Socket>(h).is_open()
}

/// Relies on tcp::Socket::can_send, reached through SocketSet::get: whether
/// the transmit half is open (established or close-wait) and the transmit
/// buffer is not full.
#[verifier::external_body]
pub(crate) fn tcp_can_send(ss: &SocketSet<'static>, h: SocketHandle) -> (b: bool)
    requires
        valid_handle(*ss, h),
    ensures
        b == sock_writable(*ss, h),
{
    ss.get::<tcp::Socket>(h).can_send()
}

/// Relies on tcp::Socket::listen, reached through SocketSet::get_mut.  With a
/// nonzero port: a socket that is not open is reset into the listening state
/// on that port — open, transmit half closed, transmit buffer cleared — and
/// the call succeeds; a socket that is already open is left exactly as it was
/// (the call succeeds if it was already listening on the same endpoint and is
/// refused otherwise).  A zero port would be refused, so it is excluded.
/// Listening never adds, removes or resizes sockets.
#[verifier::external_body]
pub(crate) fn tcp_listen(ss: &mut SocketSet<'static>, h: SocketHandle, port: u16) -> (r: Result<(), tcp::ListenError>)
    requires
        valid_handle(*old(ss), h),
        port != 0,
    ensures
        forall|g: SocketHandle| #[trigger] valid_handle(*final(ss), g) == valid_handle(*old(ss), g),
        sock_rx_capacity(*final(ss), h) == sock_rx_capacity(*old(ss), h),
        sock_tx_capacity(*final(ss), h) == sock_tx_capacity(*old(ss), h),
        !sock_open(*old(ss), h) ==> r is Ok
            && sock_open(*final(ss), h)
            && !sock_sendable(*final(ss), h)
            && sock_listen_port(*final(ss), h) == Some(port)
            && sock_tx(*final(ss), h) == Seq::<u8>::empty()
            && sock_tx_free(*final(ss), h) == sock_tx_capacity(*old(ss), h),
        sock_open(*old(ss), h) ==> sock_open(*final(ss), h) == sock_open(*old(ss), h)
            && sock_sendable(*final(ss), h) == sock_sendable(*old(ss), h)
            && sock_listen_port(*final(ss), h) == sock_listen_port(*old(ss), h)
            && sock_tx(*final(ss), h) == sock_tx(*old(ss), h)
            && sock_tx_free(*final(ss), h) == sock_tx_free(*old(ss), h),
{
    ss.get_mut::<tcp::Socket>(h).listen(port)
}

/// Relies on tcp::Socket::send_slice, reached through SocketSet::get_mut:
/// when the transmit half is open it enqueues a prefix of `data` — as long as
/// the data or as the buffer's room, whichever is shorter — and returns that
/// prefix's length; when it is not, the call is refused and the buffer is
/// untouched.  Enqueueing never changes the socket's TCP state, and never
/// adds, removes or resizes sockets.
#[verifier::external_body]
pub(crate) fn tcp_send(ss: &mut SocketSet<'static>, h: SocketHandle, data: &[u8]) -> (r: Result<usize, tcp::SendError>)
    requires
        valid_handle(*old(ss), h),
    ensures
        forall|g: SocketHandle| #[trigger] valid_handle(*final(ss), g) == valid_handle(*old(ss), g),
        sock_rx_capacity(*final(ss), h) == sock_rx_capacity(*old(ss), h),
        sock_tx_capacity(*final(ss), h) == sock_tx_capacity(*old(ss), h),
        sock_open(*final(ss), h) == sock_open(*old(ss), h),
        sock_sendable(*final(ss), h) == sock_sendable(*old(ss), h),
        sock_listen_port(*final(ss), h) == sock_listen_port(*old(ss), h),
        sock_sendable(*old(ss), h) ==> r is Ok,
        r matches Ok(n) ==> n as int == vstd::math::min(data@.len() as int, sock_tx_free(*old(ss), h) as int)
            && sock_tx(*final(ss), h) == sock_tx(*old(ss), h) + data@.take(n as int)
            && sock_tx_free(*final(ss), h) == sock_tx_free(*old(ss), h) - n,
        r is Err ==> sock_tx(*final(ss), h) == sock_tx(*old(ss), h)
            && sock_tx_free(*final(ss), h) == sock_tx_free(*old(ss), h),
{
    ss.get_mut::<tcp::Socket>(h).send_slice(data)
}

/// Relies on tcp::Socket::close, reached through SocketSet::get_mut: requests
/// a graceful close of the transmit half.  Afterwards the socket can no
/// longer accept data and is in no state listening; bytes already queued stay
/// queued for delivery, and a connection whose transmit half was open stays
/// open while the teardown handshake runs.  Closing never adds, removes or
/// resizes sockets.
#[verifier::external_body]
pub(crate) fn tcp_close(ss: &mut SocketSet<'static>, h: SocketHandle)
    requires
        valid_handle(*old(ss), h),
    ensures
        forall|g: SocketHandle| #[trigger] valid_handle(*final(ss), g) == valid_handle(*old(ss), g),
        sock_rx_capacity(*final(ss), h) == sock_rx_capacity(*old(ss), h),
        sock_tx_capacity(*final(ss), h) == sock_tx_capacity(*old(ss), h),
        !sock_sendable(*final(ss), h),
        sock_listen_port(*final(ss), h) is None,
        sock_tx(*final(ss), h) == sock_tx(*old(ss), h),
        sock_tx_free(*final(ss), h) == sock_tx_free(*old(ss), h),
        sock_sendable(*old(ss), h) ==> sock_open(*final(ss), h),
{
    ss.get_mut::<tcp::Socket>(h).close()
}

} // verus!
