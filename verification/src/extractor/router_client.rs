//! Who calls: the caller's IP address and, as far as the neighbour table
//! knows it, the hardware address behind it. This serves the audit log;
//! it is no access control.

use crate::addr::{IpAddress, MacAddress};
use crate::error::Error;
use crate::service::netlink::neighbor::NeighborTable;
use vstd::prelude::*;

verus! {

/// The caller of a request.
#[derive(Clone, Copy, Debug, PartialEq, Eq)]
pub struct RouterClient {
    pub ip_address: IpAddress,
    pub mac_address: MacAddress,
}

/// What the request's `X-Real-IP` header holds.
#[derive(Clone, Copy, Debug, PartialEq, Eq, Structural)]
pub enum RealIpHeader {
    /// The request has no such header.
    Absent,
    /// The header holds this address.
    Address(IpAddress),
    /// The header holds no address.
    Unreadable,
}

/// How far the identification has come without the kernel.
#[derive(Clone, Copy, Debug, PartialEq, Eq)]
pub enum Identification {
    /// The caller is known; no neighbour table is needed.
    Known(RouterClient),
    /// The caller has this address; the neighbour table is to be queried
    /// and handed to `RouterClient::from_neighbors` with it.
    Lookup(IpAddress),
}

impl RouterClient {
    /// The address that counts as the caller's. The header is believed
    /// only where the connection comes from the loopback address, that
    /// is from a reverse proxy on this machine; there it takes the place
    /// of the peer's address. `None` where such a header holds no
    /// address.
    pub open spec fn caller_address(peer: IpAddress, header: RealIpHeader) -> Option<IpAddress> {
        if peer.spec_is_loopback() {
            match header {
                RealIpHeader::Absent => Some(peer),
                RealIpHeader::Address(address) => Some(address),
                RealIpHeader::Unreadable => None,
            }
        } else {
            Some(peer)
        }
    }

    /// Identifies the caller as far as the request alone allows.
    ///
    /// Without a peer address, or with an unreadable header behind the
    /// reverse proxy, the identification fails. A caller on the loopback
    /// address is known at once: it has no hardware address, and the nil
    /// address stands for it, so the neighbour table is never queried for
    /// it. For any other caller the neighbour table is asked for.
    pub fn from_request_parts(peer: Option<IpAddress>, header: RealIpHeader) -> (step: Result<
        Identification,
        Error,
    >)
        ensures
            match peer {
                None => step == Err::<Identification, Error>(
                    Error::RouterClientIdentificationFailed,
                ),
                Some(peer) => match RouterClient::caller_address(peer, header) {
                    None => step == Err::<Identification, Error>(
                        Error::RouterClientIdentificationFailed,
                    ),
                    Some(ip_address) => if ip_address.spec_is_loopback() {
                        &&& step matches Ok(Identification::Known(client))
                        &&& client.ip_address == ip_address
                        &&& client.mac_address.is_nil()
                    } else {
                        step == Ok::<Identification, Error>(Identification::Lookup(ip_address))
                    },
                },
            },
    {
        let peer = match peer {
            Some(peer) => peer,
            None => {
                return Err(Error::RouterClientIdentificationFailed);
            },
        };
        let mut ip_address = peer;
        if ip_address.is_loopback() {
            match header {
                RealIpHeader::Absent => {},
                RealIpHeader::Address(address) => {
                    ip_address = address;
                },
                RealIpHeader::Unreadable => {
                    return Err(Error::RouterClientIdentificationFailed);
                },
            }
        }
        if ip_address.is_loopback() {
            return Ok(
                Identification::Known(RouterClient { ip_address, mac_address: MacAddress::nil() }),
            );
        }
        Ok(Identification::Lookup(ip_address))
    }

    /// Completes the identification with the neighbour table. The
    /// identification fails where the table could not be had, and where
    /// it holds no entry for the address: no hardware address is made up.
    pub fn from_neighbors(ip_address: IpAddress, neighbors: Option<&NeighborTable>) -> (client:
        Result<RouterClient, Error>)
        requires
            neighbors matches Some(table) ==> table.wf(),
        ensures
            match neighbors {
                Some(table) if table@.contains_key(ip_address) => {
                    &&& client matches Ok(found)
                    &&& found.ip_address == ip_address
                    &&& found.mac_address@ == table@[ip_address]
                },
                _ => client == Err::<RouterClient, Error>(Error::RouterClientIdentificationFailed),
            },
    {
        match neighbors {
            Some(table) => match table.get(&ip_address) {
                Some(mac_address) => Ok(RouterClient { ip_address, mac_address }),
                None => Err(Error::RouterClientIdentificationFailed),
            },
            None => Err(Error::RouterClientIdentificationFailed),
        }
    }
}

} // verus!
