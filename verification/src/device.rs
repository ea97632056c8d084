//! The device adapter: an owned virtual network device, either a real TUN/TAP
//! device (opened by the caller, who keeps its descriptor for blocking) or an
//! in-memory loopback device.

use vstd::prelude::*;
use smoltcp::iface::{Interface, PollResult, SocketHandle, SocketSet};
use smoltcp::phy::{Loopback, Medium, TunTapInterface};
use smoltcp::time::Instant;
use smoltcp::wire::{EthernetAddress, HardwareAddress};
use crate::engine::{iface_addrs, iface_default_route, iface_route_count};
use crate::sockets::{sock_rx_capacity, sock_tx_capacity, valid_handle};

verus! {

#[verifier::external_type_specification]
#[verifier::external_body]
pub struct ExLoopback(Loopback);

#[verifier::external_type_specification]
#[verifier::external_body]
pub struct ExTunTapInterface(TunTapInterface);

/// The link medium a device carries: Ethernet frames or raw IP packets.
#[derive(Clone, Copy, Debug, PartialEq, Eq, Structural)]
pub enum LinkMedium {
    Ethernet,
    Ip,
}

enum DeviceInner {
    Tap(TunTapInterface),
    Loop(Loopback),
}

/// An owned virtual network device the protocol engine is driven against.
/// It can only be built over a TUN/TAP or loopback device, so its medium is
/// always Ethernet or raw IP — the two the interface builders below handle.
pub struct NetDevice {
    inner: DeviceInner,
}

/// Relies on smoltcp's Loopback::new: an in-memory device that hands every
/// transmitted frame back as a received frame, in order, on the given medium.
#[verifier::external_body]
fn new_loopback(ethernet: bool) -> Loopback {
    if ethernet {
        Loopback::new(Medium::Ethernet)
    } else {
        Loopback::new(Medium::Ip)
    }
}

/// An in-memory loopback device on the given medium, for driving the engine
/// without any real device.
pub fn loopback_device(medium: LinkMedium) -> NetDevice {
    let ethernet = match medium {
        LinkMedium::Ethernet => true,
        LinkMedium::Ip => false,
    };
    NetDevice { inner: DeviceInner::Loop(new_loopback(ethernet)) }
}

/// Wrap an already opened TUN/TAP device.  Opening the device — and blocking
/// on its raw descriptor — is the caller's business.
pub fn tap_device(device: TunTapInterface) -> NetDevice {
    NetDevice { inner: DeviceInner::Tap(device) }
}

/// Relies on smoltcp's Config::new and Interface::new: builds an interface
/// for the device at the given time, seeding the engine's random generator
/// with `seed`.  The hardware address is chosen by the device's own reported
/// medium — the given address on Ethernet, none on raw IP — so it always
/// matches the device.  Requires an even first octet: Interface::new panics
/// on a non-unicast hardware address.  A fresh interface has no addresses and
/// no routes.
#[verifier::external_body]
fn iface_new_tap(device: &mut TunTapInterface, mac: [u8; 6], seed: u64, now_micros: i64) -> (r: Interface)
    requires
        mac[0] % 2 == 0,
    ensures
        iface_addrs(r) == Seq::<([u8; 4], u8)>::empty(),
        iface_default_route(r) is None,
        iface_route_count(r) == 0,
{
    let mut config = match smoltcp::phy::Device::capabilities(device).medium {
        Medium::Ethernet => smoltcp::iface::Config::new(EthernetAddress(mac).into()),
        _ => smoltcp::iface::Config::new(HardwareAddress::Ip),
    };
    config.random_seed = seed;
    Interface::new(config, device, Instant::from_micros(now_micros))
}

/// Relies on smoltcp's Config::new and Interface::new, exactly as the TUN/TAP
/// form above, for the loopback device.
#[verifier::external_body]
fn iface_new_loopback(device: &mut Loopback, mac: [u8; 6], seed: u64, now_micros: i64) -> (r: Interface)
    requires
        mac[0] % 2 == 0,
    ensures
        iface_addrs(r) == Seq::<([u8; 4], u8)>::empty(),
        iface_default_route(r) is None,
        iface_route_count(r) == 0,
{
    let mut config = match smoltcp::phy::Device::capabilities(device).medium {
        Medium::Ethernet => smoltcp::iface::Config::new(EthernetAddress(mac).into()),
        _ => smoltcp::iface::Config::new(HardwareAddress::Ip),
    };
    config.random_seed = seed;
    Interface::new(config, device, Instant::from_micros(now_micros))
}

/// Relies on smoltcp's Interface::poll: advances the engine one round against
/// the device and the sockets at the given time — every pending inbound frame
/// is processed, outbound frames are emitted, TCP state advances — and
/// reports whether any socket's state may have changed.  Sockets are never
/// added to or removed from the set, and their buffers are never resized.  On
/// a hard device read or write error the engine aborts the process — the
/// intended fatal path, since the device is this process's whole reason to
/// exist and no precondition over these opaque types can exclude it.
#[verifier::external_body]
fn poll_tap(iface: &mut Interface, device: &mut TunTapInterface, sockets: &mut SocketSet<'static>, now_micros: i64) -> (changed: bool)
    ensures
        forall|g: SocketHandle| #[trigger] valid_handle(*final(sockets), g) == valid_handle(*old(sockets), g),
        forall|g: SocketHandle| #[trigger] valid_handle(*old(sockets), g)
            ==> sock_rx_capacity(*final(sockets), g) == sock_rx_capacity(*old(sockets), g)
                && sock_tx_capacity(*final(sockets), g) == sock_tx_capacity(*old(sockets), g),
{
    match iface.poll(Instant::from_micros(now_micros), device, sockets) {
        PollResult::None => false,
        PollResult::SocketStateChanged => true,
    }
}

/// Relies on smoltcp's Interface::poll, exactly as the TUN/TAP form above,
/// for the loopback device.
#[verifier::external_body]
fn poll_loopback(iface: &mut Interface, device: &mut Loopback, sockets: &mut SocketSet<'static>, now_micros: i64) -> (changed: bool)
    ensures
        forall|g: SocketHandle| #[trigger] valid_handle(*final(sockets), g) == valid_handle(*old(sockets), g),
        forall|g: SocketHandle| #[trigger] valid_handle(*old(sockets), g)
            ==> sock_rx_capacity(*final(sockets), g) == sock_rx_capacity(*old(sockets), g)
                && sock_tx_capacity(*final(sockets), g) == sock_tx_capacity(*old(sockets), g),
{
    match iface.poll(Instant::from_micros(now_micros), device, sockets) {
        PollResult::None => false,
        PollResult::SocketStateChanged => true,
    }
}

impl NetDevice {
    /// Build the engine's interface over this device; it starts with no
    /// addresses and no routes.
    pub fn make_interface(&mut self, mac: [u8; 6], seed: u64, now_micros: i64) -> (r: Interface)
        requires
            mac[0] % 2 == 0,
        ensures
            iface_addrs(r) == Seq::<([u8; 4], u8)>::empty(),
            iface_default_route(r) is None,
            iface_route_count(r) == 0,
    {
        match &mut self.inner {
            DeviceInner::Tap(t) => iface_new_tap(t, mac, seed, now_micros),
            DeviceInner::Loop(l) => iface_new_loopback(l, mac, seed, now_micros),
        }
    }

    /// Drive the protocol engine one round against this device.
    pub fn poll(&mut self, iface: &mut Interface, sockets: &mut SocketSet<'static>, now_micros: i64) -> (changed: bool)
        ensures
            forall|g: SocketHandle| #[trigger] valid_handle(*final(sockets), g) == valid_handle(*old(sockets), g),
            forall|g: SocketHandle| #[trigger] valid_handle(*old(sockets), g)
                ==> sock_rx_capacity(*final(sockets), g) == sock_rx_capacity(*old(sockets), g)
                    && sock_tx_capacity(*final(sockets), g) == sock_tx_capacity(*old(sockets), g),
    {
        match &mut self.inner {
            DeviceInner::Tap(t) => poll_tap(iface, t, sockets, now_micros),
            DeviceInner::Loop(l) => poll_loopback(iface, l, sockets, now_micros),
        }
    }
}

} // verus!
