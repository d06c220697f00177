//! Packet sockets on Linux: what the system calls of a packet socket are
//! handed, and what their results mean.
//!
//! The numbers of the kernel interface (address family, option levels
//! and names) are those of the target, which the caller takes from
//! `libc`; here the requests name them by what they mean.
use vstd::prelude::*;

use crate::error::PacketError;

verus! {

/// The two bytes of `x` in network byte order: the high byte first.
pub open spec fn network_bytes(x: u16) -> Seq<u8> {
    seq![(x / 256) as u8, (x % 256) as u8]
}

/// The value of two bytes read in network byte order.
pub open spec fn from_network_bytes(b: Seq<u8>) -> int {
    b[0] * 256 + b[1]
}

/// `x` in network byte order, as the kernel expects a protocol number
/// (`htons`).
pub fn network_order(x: u16) -> (b: [u8; 2])
    ensures
        b@ == network_bytes(x),
        from_network_bytes(b@) == x,
        b[0] as int * 256 + b[1] as int == x,
{
    let high: u8 = (x / 256) as u8;
    let low: u8 = (x % 256) as u8;
    let b = [high, low];
    assert(b@ =~= network_bytes(x));
    b
}

/// The network byte order of a value holds the value: the high byte
/// times 256 plus the low byte, in two bytes.
pub proof fn lemma_network_bytes_hold_value(x: u16)
    ensures
        network_bytes(x).len() == 2,
        network_bytes(x)[0] as int * 256 + network_bytes(x)[1] as int == x,
{
}

/// The fields of the link-layer address (`struct sockaddr_ll`) that bind
/// a packet socket to one interface, besides its address family
/// (`AF_PACKET`); its other fields are zero.
#[derive(Debug, Clone, Copy)]
pub struct LinkLayerAddress {
    pub protocol: [u8; 2],
    pub ifindex: i32,
}

/// The address that binds a packet socket to the interface of index
/// `ifindex`, for the Ethernet protocol `protocol` (`ETH_P_ALL` for
/// every protocol), which the address holds in network byte order.
pub fn bind_address(protocol: u16, ifindex: i32) -> (a: LinkLayerAddress)
    ensures
        a.protocol@ == network_bytes(protocol),
        a.ifindex == ifindex,
{
    LinkLayerAddress { protocol: network_order(protocol), ifindex }
}

/// Whether a membership of a packet socket is added
/// (`PACKET_ADD_MEMBERSHIP`) or dropped (`PACKET_DROP_MEMBERSHIP`).
#[derive(Debug, Clone, Copy, PartialEq, Eq, Structural)]
pub enum MembershipChange {
    Add,
    Drop,
}

/// A `setsockopt` call at the packet socket level (`SOL_PACKET`) that
/// adds or drops the promiscuous membership (`PACKET_MR_PROMISC`) of one
/// interface (`struct packet_mreq`; its other fields are zero).
#[derive(Debug, Clone, Copy, PartialEq, Eq, Structural)]
pub struct MembershipRequest {
    pub change: MembershipChange,
    pub ifindex: i32,
}

/// The request that switches promiscuous mode of the interface of index
/// `ifindex` on (`state`: the membership is added) or off (it is
/// dropped).
pub open spec fn promisc_membership(ifindex: i32, state: bool) -> MembershipRequest {
    MembershipRequest {
        change: if state {
            MembershipChange::Add
        } else {
            MembershipChange::Drop
        },
        ifindex,
    }
}

/// What switches promiscuous mode of the interface of index `ifindex`
/// on (`state`) or off.
pub fn promisc_request(ifindex: i32, state: bool) -> (r: MembershipRequest)
    ensures
        r == promisc_membership(ifindex, state),
        r.ifindex == ifindex,
        r.change == MembershipChange::Add <==> state,
        r.change == MembershipChange::Drop <==> !state,
{
    let change = if state {
        MembershipChange::Add
    } else {
        MembershipChange::Drop
    };
    MembershipRequest { change, ifindex }
}

/// The request names the very interface it was asked for, and adds the
/// membership exactly when promiscuous mode is switched on (dropping it
/// otherwise), for every index and state.
pub proof fn lemma_promisc_request_names_interface(ifindex: i32, state: bool)
    ensures
        promisc_membership(ifindex, state).ifindex == ifindex,
        promisc_membership(ifindex, state).change == MembershipChange::Add <==> state,
        promisc_membership(ifindex, state).change == MembershipChange::Drop <==> !state,
{
}

/// Switching promiscuous mode off undoes switching it on: the two
/// requests name the same interface and membership, and one adds it
/// where the other drops it.
pub proof fn lemma_promisc_off_undoes_on(ifindex: i32)
    ensures
        ({
            let on = promisc_membership(ifindex, true);
            let off = promisc_membership(ifindex, false);
            &&& on.ifindex == off.ifindex
            &&& on.change == MembershipChange::Add
            &&& off.change == MembershipChange::Drop
        }),
{
}

/// Whether draining goes on after a `recv` that returned `returned`: it
/// stops at the first call that fails (returns -1), that is once the
/// queue is empty.
pub fn drain_continues(returned: isize) -> (more: bool)
    ensures
        more <==> returned != -1,
{
    returned != -1
}

/// A packet socket, known by its file descriptor.
#[derive(Debug, Clone, Copy)]
pub struct RawPacketStream {
    fd: i32,
}

impl RawPacketStream {
    /// The file descriptor of the socket.
    pub closed spec fn fd(&self) -> i32 {
        self.fd
    }

    /// The socket that `socket` returned, or the failure that it
    /// reported by returning -1.
    pub fn from_socket_result(returned: i32) -> (r: Result<RawPacketStream, PacketError>)
        ensures
            returned == -1 <==> r == Err::<RawPacketStream, PacketError>(PacketError::Os),
            r matches Ok(s) ==> s.fd() == returned,
            r is Ok <==> returned != -1,
    {
        if returned == -1 {
            Err(PacketError::Os)
        } else {
            Ok(RawPacketStream { fd: returned })
        }
    }

    /// The socket of the file descriptor `fd`.
    pub fn from_fd(fd: i32) -> (s: RawPacketStream)
        ensures
            s.fd() == fd,
    {
        RawPacketStream { fd }
    }

    /// The file descriptor of the socket.
    pub fn as_raw_fd(&self) -> (fd: i32)
        ensures
            fd == self.fd(),
    {
        self.fd
    }

    /// The file descriptor of the socket, which the caller now owns.
    pub fn into_raw_fd(self) -> (fd: i32)
        ensures
            fd == self.fd(),
    {
        self.fd
    }
}

} // verus!
