//! Socket addresses, and their form in the operating system.
//!
//! What is said here of the bytes of that form holds on the systems that UCX
//! runs on.

use os_socketaddr::OsSocketAddr;
use vstd::prelude::*;

verus! {

/// A socket address.
#[derive(Debug, Clone, Copy, PartialEq, Eq)]
pub enum SocketAddress {
    /// An IPv4 address.
    V4 { ip: [u8; 4], port: u16 },
    /// An IPv6 address.
    V6 { ip: [u8; 16], port: u16, flowinfo: u32, scope_id: u32 },
}

/// `os_socketaddr::OsSocketAddr`, a buffer that holds a `struct sockaddr`.
/// Opaque here.
#[verifier::external_type_specification]
#[verifier::external_body]
pub struct ExOsSocketAddr(OsSocketAddr);

/// The bytes of the buffer of an address, all of them.
pub uninterp spec fn address_bytes(address: OsSocketAddr) -> Seq<u8>;

/// The socket address that `OsSocketAddr::into_addr` reads from the bytes of a
/// buffer: none where the system does not take the family in them for that of
/// IPv4 or IPv6.
pub uninterp spec fn decoded(bytes: Seq<u8>) -> Option<SocketAddress>;

/// `OsSocketAddr::new`: a buffer of zeros, which has room for the family, the
/// port, the flow information, the address and the scope of IPv6 at least. How
/// long it is depends on the system.
pub assume_specification[ OsSocketAddr::new ]() -> (address: OsSocketAddr)
    ensures
        address_bytes(address).len() >= 28,
        forall|i: int| 0 <= i < address_bytes(address).len() ==> address_bytes(address)[i] == 0,
;

/// `OsSocketAddr::len`: the number of bytes that the family of the address
/// takes up in the buffer.
pub assume_specification[ OsSocketAddr::len ](address: &OsSocketAddr) -> (len:
    os_socketaddr::socklen_t)
    ensures
        len == decoded_len(address_bytes(*address)),
;

/// `OsSocketAddr::as_mut`: the whole buffer, to be written in place.
#[verifier::external_body]
pub(crate) fn buffer_mut(address: &mut OsSocketAddr) -> (buffer: &mut [u8])
    ensures
        buffer@ == address_bytes(*old(address)),
        address_bytes(*final(address)) == final(buffer)@,
{
    address.as_mut()
}

/// `OsSocketAddr::from`: the buffer from which `OsSocketAddr::into_addr` reads
/// the same socket address back.
#[verifier::external_body]
pub(crate) fn encode(address: SocketAddress) -> (result: OsSocketAddr)
    ensures
        decoded(address_bytes(result)) == Some(address),
        stands_in(address, address_bytes(result)),
{
    OsSocketAddr::from(
        match address {
            SocketAddress::V4 { ip, port } => core::net::SocketAddr::V4(
                core::net::SocketAddrV4::new(ip.into(), port),
            ),
            SocketAddress::V6 { ip, port, flowinfo, scope_id } => core::net::SocketAddr::V6(
                core::net::SocketAddrV6::new(ip.into(), port, flowinfo, scope_id),
            ),
        },
    )
}

/// `OsSocketAddr::into_addr`: the socket address in the buffer, if there is one.
/// Its port and its IP address stand in the buffer in network byte order, the
/// flow information and the scope of IPv6 in that of the system. The eight bytes alone say whether there is an address and of which family, all of
/// an IPv4 address, and the port and the flow information of an IPv6 address.
#[verifier::external_body]
pub(crate) fn decode(address: OsSocketAddr) -> (result: Option<SocketAddress>)
    ensures
        result == decoded(address_bytes(address)),
        result matches Some(found) ==> stands_in(found, address_bytes(address)),
        forall|other: OsSocketAddr|
            #![trigger decoded(address_bytes(other))]
            starts_alike(address_bytes(other), address_bytes(address)) ==> reads_alike(
                result,
                decoded(address_bytes(other)),
            ),
{
    match address.into_addr() {
        None => None,
        Some(core::net::SocketAddr::V4(addr)) => Some(
            SocketAddress::V4 { ip: addr.ip().octets(), port: addr.port() },
        ),
        Some(core::net::SocketAddr::V6(addr)) => Some(
            SocketAddress::V6 {
                ip: addr.ip().octets(),
                port: addr.port(),
                flowinfo: addr.flowinfo(),
                scope_id: addr.scope_id(),
            },
        ),
    }
}

/// The number of bytes of a buffer that the address in it takes up: an IPv6
/// address takes up all of them.
pub open spec fn decoded_len(bytes: Seq<u8>) -> nat {
    match decoded(bytes) {
        None => 0,
        Some(SocketAddress::V4 { .. }) => 16,
        Some(SocketAddress::V6 { .. }) => bytes.len(),
    }
}

/// The four bytes from `at` on hold `value`, in the byte order of the system,
/// which is one of the two.
pub open spec fn holds_number(bytes: Seq<u8>, at: int, value: u32) -> bool {
    ||| value == bytes[at] + 0x100 * bytes[at + 1] + 0x1_0000 * bytes[at + 2] + 0x100_0000
        * bytes[at + 3]
    ||| value == bytes[at + 3] + 0x100 * bytes[at + 2] + 0x1_0000 * bytes[at + 1] + 0x100_0000
        * bytes[at]
}

/// All parts of `address` stand in `bytes`.
pub open spec fn stands_in(address: SocketAddress, bytes: Seq<u8>) -> bool {
    &&& bytes.len() >= 28
    &&& match address {
        SocketAddress::V4 { ip, port } => {
            &&& port == bytes[2] * 256 + bytes[3]
            &&& ip@ == bytes.subrange(4, 8)
        },
        SocketAddress::V6 { ip, port, flowinfo, scope_id } => {
            &&& port == bytes[2] * 256 + bytes[3]
            &&& holds_number(bytes, 4, flowinfo)
            &&& ip@ == bytes.subrange(8, 24)
            &&& holds_number(bytes, 24, scope_id)
        },
    }
}

/// Two sequences have their first eight bytes in common.
pub open spec fn starts_alike(a: Seq<u8>, b: Seq<u8>) -> bool {
    &&& a.len() >= 8
    &&& b.len() >= 8
    &&& a.subrange(0, 8) == b.subrange(0, 8)
}

/// Two socket addresses have in common what the first eight bytes of their form
/// in the operating system say.
pub open spec fn reads_alike(a: Option<SocketAddress>, b: Option<SocketAddress>) -> bool {
    match (a, b) {
        (None, None) => true,
        (Some(SocketAddress::V4 { .. }), Some(SocketAddress::V4 { .. })) => a == b,
        (
            Some(SocketAddress::V6 { port, flowinfo, .. }),
            Some(SocketAddress::V6 { port: other_port, flowinfo: other_flowinfo, .. }),
        ) => port == other_port && flowinfo == other_flowinfo,
        _ => false,
    }
}

/// An IPv4 address is read back whole from the first eight bytes of its form in
/// the operating system. An address of another family is never read for it.
pub proof fn ipv4_address_is_read_back(address: SocketAddress, read: Option<SocketAddress>)
    requires
        address is V4,
    ensures
        reads_alike(read, Some(address)) <==> read == Some(address),
{
}

/// Of an IPv6 address the port and the flow information are read back from the
/// first eight bytes, and it is never read for one of another family. What is no
/// address is never read for one, and no address is read for it.
pub proof fn other_families_are_told_apart(
    ip: [u8; 16],
    port: u16,
    flowinfo: u32,
    scope_id: u32,
    read: Option<SocketAddress>,
)
    ensures
        reads_alike(read, Some(SocketAddress::V6 { ip, port, flowinfo, scope_id })) <==> (
        read matches Some(SocketAddress::V6 { port: read_port, flowinfo: read_flowinfo, .. })
            && read_port == port && read_flowinfo == flowinfo),
        reads_alike(read, None) <==> read is None,
{
}

/// Two sequences start alike exactly when each of their first eight bytes is the
/// same.
pub proof fn alike_is_byte_by_byte(a: Seq<u8>, b: Seq<u8>)
    requires
        a.len() >= 8,
        b.len() >= 8,
    ensures
        starts_alike(a, b) <==> forall|i: int| 0 <= i < 8 ==> a[i] == b[i],
{
    if starts_alike(a, b) {
        assert forall|i: int| 0 <= i < 8 implies a[i] == b[i] by {
            assert(a[i] == a.subrange(0, 8)[i]);
            assert(b[i] == b.subrange(0, 8)[i]);
        }
    }
    if forall|i: int| 0 <= i < 8 ==> a[i] == b[i] {
        assert(a.subrange(0, 8) =~= b.subrange(0, 8));
    }
}

/// An address whose buffer starts with the first `count` bytes of `raw` and is
/// zero behind them.
pub open spec fn holds_prefix(address: OsSocketAddr, raw: Seq<u8>, count: int) -> bool {
    let bytes = address_bytes(address);
    &&& bytes.len() >= 28
    &&& bytes.len() >= count
    &&& forall|i: int| 0 <= i < bytes.len() ==> bytes[i] == (if i < count { raw[i] } else { 0 })
}

/// The address in the first `count` bytes of `raw`.
pub(crate) fn from_prefix(raw: &[u8], count: usize) -> (address: OsSocketAddr)
    requires
        count <= raw@.len(),
        count <= 28,
    ensures
        holds_prefix(address, raw@, count as int),
{
    let mut address: OsSocketAddr = OsSocketAddr::new();
    let buffer = buffer_mut(&mut address);
    let mut i: usize = 0;
    let ghost zeros = buffer@;
    while i < count
        invariant
            i <= count <= raw@.len(),
            count <= 28,
            zeros.len() >= 28,
            forall|j: int| 0 <= j < zeros.len() ==> zeros[j] == 0,
            buffer@.len() == zeros.len(),
            forall|j: int| 0 <= j < zeros.len() ==> buffer@[j] == (if j < i { raw@[j] } else { 0 }),
            address_bytes(after_borrow(address)) == final(buffer)@,
        decreases count - i,
    {
        buffer[i] = raw[i];
        i += 1;
    }
    address
}

} // verus!
