//! The protocol-engine boundary: the engine's interface object, its one-time
//! configuration (address and default route), and the query for its next
//! mandatory wake-up time.

use vstd::prelude::*;
use smoltcp::iface::{Interface, SocketSet};
use smoltcp::time::Instant;
use smoltcp::wire::{IpAddress, IpCidr, Ipv4Address};
use crate::device::NetDevice;

verus! {

#[verifier::external_type_specification]
#[verifier::external_body]
pub struct ExInterface(Interface);

/// The IPv4 addresses assigned to the interface, each with its prefix length,
/// in assignment order.
pub uninterp spec fn iface_addrs(iface: Interface) -> Seq<([u8; 4], u8)>;

/// The gateway of the interface's default IPv4 route, if one is installed.
pub uninterp spec fn iface_default_route(iface: Interface) -> Option<[u8; 4]>;

/// How many routes of any kind the interface's route table holds.
pub uninterp spec fn iface_route_count(iface: Interface) -> nat;

/// Whether the engine accepts `a` as an interface address: anything but the
/// limited-broadcast address and the multicast block (first octet 224 to
/// 239).  Anything else would panic inside the engine's address check.
pub open spec fn ipv4_host_addr(a: [u8; 4]) -> bool {
    &&& !(224 <= a[0] && a[0] <= 239)
    &&& !(a[0] == 255 && a[1] == 255 && a[2] == 255 && a[3] == 255)
}

/// Why interface configuration was rejected.
#[derive(Clone, Copy, Debug, PartialEq, Eq, Structural)]
pub enum SetupError {
    /// The engine had no room left for another interface address.
    AddressRejected,
    /// The engine had no room left for the default route.
    RouteRejected,
}

/// Relies on smoltcp's Interface::update_ip_addrs: assigns `addr`/`prefix` to
/// the interface, reporting whether the engine's fixed-capacity address list
/// accepted it; the list always has room for its first entry (this build
/// allots two slots).  Routes are untouched.  A broadcast or multicast
/// address, or a prefix over 32, would panic inside the engine, so both are
/// excluded.
#[verifier::external_body]
fn add_ipv4_addr(iface: &mut Interface, addr: [u8; 4], prefix: u8) -> (ok: bool)
    requires
        ipv4_host_addr(addr),
        prefix <= 32,
    ensures
        iface_addrs(*old(iface)).len() == 0 ==> ok,
        ok ==> iface_addrs(*final(iface)) == iface_addrs(*old(iface)).push((addr, prefix)),
        !ok ==> iface_addrs(*final(iface)) == iface_addrs(*old(iface)),
        iface_default_route(*final(iface)) == iface_default_route(*old(iface)),
        iface_route_count(*final(iface)) == iface_route_count(*old(iface)),
{
    let mut accepted = false;
    iface.update_ip_addrs(|addrs| {
        accepted = addrs
            .push(IpCidr::new(IpAddress::v4(addr[0], addr[1], addr[2], addr[3]), prefix))
            .is_ok();
    });
    accepted
}

/// Relies on smoltcp's Routes::add_default_ipv4_route, reached through
/// Interface::routes_mut: installs `gateway` as the default IPv4 route,
/// reporting whether the engine's fixed-capacity route table accepted it; an
/// empty table always has room (this build allots two slots).  Assigned
/// addresses are untouched.
#[verifier::external_body]
fn add_default_route(iface: &mut Interface, gateway: [u8; 4]) -> (ok: bool)
    ensures
        iface_route_count(*old(iface)) == 0 ==> ok,
        ok ==> iface_default_route(*final(iface)) == Some(gateway),
        !ok ==> iface_default_route(*final(iface)) == iface_default_route(*old(iface))
            && iface_route_count(*final(iface)) == iface_route_count(*old(iface)),
        iface_addrs(*final(iface)) == iface_addrs(*old(iface)),
{
    iface
        .routes_mut()
        .add_default_ipv4_route(Ipv4Address::new(gateway[0], gateway[1], gateway[2], gateway[3]))
        .is_ok()
}

/// Relies on smoltcp's Interface::poll_at: the earliest absolute time, in
/// microseconds, at which the engine must be polled again for its own timers
/// (retransmissions and the like), or nothing when no timer is pending.
#[verifier::external_body]
pub(crate) fn engine_poll_at(iface: &mut Interface, sockets: &SocketSet<'static>, now_micros: i64) -> (wake_at: Option<i64>)
{
    match iface.poll_at(Instant::from_micros(now_micros), sockets) {
        Some(t) => Some(t.total_micros()),
        None => None,
    }
}

/// Build and configure the engine's interface over the device: a hardware
/// address fit for the device's medium, the one IPv4 address and prefix the
/// process answers on, and one default IPv4 route.  A fresh interface always
/// has room for both, so configuration succeeds, and the result carries
/// exactly the given address and gateway; the configuration is immutable
/// afterwards.  The error variants guard the (unreachable) rejections, which
/// would be fatal setup failures.
pub fn build_interface(dev: &mut NetDevice, seed: u64, now_micros: i64, addr: [u8; 4], prefix: u8, gateway: [u8; 4]) -> (r: Result<Interface, SetupError>)
    requires
        ipv4_host_addr(addr),
        prefix <= 32,
    ensures
        r is Ok,
        r matches Ok(i) ==> iface_addrs(i).len() == 1
            && iface_addrs(i)[0] == (addr, prefix)
            && iface_default_route(i) == Some(gateway),
{
    let mac: [u8; 6] = [0x02, 0x00, 0x00, 0x00, 0x00, 0x01];
    let mut iface = dev.make_interface(mac, seed, now_micros);
    if !add_ipv4_addr(&mut iface, addr, prefix) {
        return Err(SetupError::AddressRejected);
    }
    if !add_default_route(&mut iface, gateway) {
        return Err(SetupError::RouteRejected);
    }
    Ok(iface)
}

} // verus!
