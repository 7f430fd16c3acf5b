use vstd::prelude::*;
use crate::errors::Error;

verus! {

/// The protocol field of a parsed IPv4 header: ICMP (protocol number
/// 1) or any other traffic that may arrive on the same raw socket.
#[derive(Clone, Copy, Debug, PartialEq, Eq, Structural)]
pub enum IpProtocol {
    Icmp,
    Other(u8),
}

/// The classification of a raw protocol number.
pub open spec fn protocol_of(p: u8) -> IpProtocol {
    if p == 1 {
        IpProtocol::Icmp
    } else {
        IpProtocol::Other(p)
    }
}

/// What parsing an IPv4 datagram yields: `None` if the buffer is
/// shorter than the 20-byte minimal header or shorter than the
/// declared header length (low nibble of the first byte times four);
/// otherwise the protocol number and the bytes behind the header.
pub open spec fn ipv4_decoded(s: Seq<u8>) -> Option<(u8, Seq<u8>)> {
    if s.len() < 20 {
        None
    } else {
        let header_len = ((s[0] as nat) % 16) * 4;
        if header_len > s.len() {
            None
        } else {
            Some((s[9], s.skip(header_len as int)))
        }
    }
}

/// A received IPv4 datagram with its header stripped.
#[derive(Debug)]
pub struct IpV4Packet {
    pub protocol: IpProtocol,
    pub data: Vec<u8>,
}

impl IpV4Packet {
    /// Strips the variable-length IPv4 header from `buffer`, exposing
    /// the embedded payload. Fails with `Error::DecodeV4Error` exactly
    /// when the buffer is shorter than 20 bytes or shorter than the
    /// declared header length.
    pub fn decode(buffer: &[u8]) -> (r: Result<IpV4Packet, Error>)
        ensures
            match r {
                Ok(p) => ipv4_decoded(buffer@) matches Some(pr) && p.protocol == protocol_of(pr.0)
                    && p.data@ == pr.1,
                Err(e) => ipv4_decoded(buffer@) is None && e == Error::DecodeV4Error,
            },
    {
        let n: usize = buffer.len();
        if n < 20 {
            return Err(Error::DecodeV4Error);
        }
        let header_len: usize = ((buffer[0] % 16) as usize) * 4;
        if header_len > n {
            return Err(Error::DecodeV4Error);
        }
        let protocol_number: u8 = buffer[9];
        let protocol = if protocol_number == 1 {
            IpProtocol::Icmp
        } else {
            IpProtocol::Other(protocol_number)
        };
        let mut data: Vec<u8> = Vec::new();
        let mut k: usize = header_len;
        while k < n
            invariant
                n == buffer@.len(),
                header_len <= k <= n,
                data@ == buffer@.subrange(header_len as int, k as int),
            decreases n - k,
        {
            data.push(buffer[k]);
            k = k + 1;
        }
        proof {
            assert(data@ =~= buffer@.skip(header_len as int));
        }
        Ok(IpV4Packet { protocol, data })
    }
}

} // verus!
