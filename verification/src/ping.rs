use vstd::prelude::*;
use crate::errors::Error;
use crate::errors::IoErrorKind;
use crate::packet::icmp::EchoReply;
use crate::packet::icmp::EchoRequest;
use crate::packet::icmp::ProtocolVariant;
use crate::packet::icmp::decoded;
use crate::packet::icmp::encoded_message;
use crate::packet::icmp::reply_type;
use crate::packet::icmp::request_type;
use crate::packet::ipv4::IpV4Packet;
use crate::packet::ipv4::IpProtocol;
use crate::packet::ipv4::ipv4_decoded;

verus! {

/// How received buffers are framed: a raw IPv4 socket delivers the IP
/// header in front of the ICMP payload, a datagram socket does not.
#[derive(Clone, Copy, Debug, PartialEq, Eq, Structural)]
pub enum SocketType {
    RAW,
    DGRAM,
}

/// A destination address as plain values: the four bytes of an IPv4
/// address or the sixteen bytes of an IPv6 address, packed big-endian
/// into one integer each.
#[derive(Clone, Copy, Debug, PartialEq, Eq, Structural)]
pub enum IpAddress {
    V4(u32),
    V6(u128),
}

impl IpAddress {
    /// The protocol variant an echo exchange with this address uses.
    pub open spec fn variant_spec(self) -> ProtocolVariant {
        match self {
            IpAddress::V4(_) => ProtocolVariant::IcmpV4,
            IpAddress::V6(_) => ProtocolVariant::IcmpV6,
        }
    }

    pub fn variant(&self) -> (v: ProtocolVariant)
        ensures
            v == self.variant_spec(),
    {
        match self {
            IpAddress::V4(_) => ProtocolVariant::IcmpV4,
            IpAddress::V6(_) => ProtocolVariant::IcmpV6,
        }
    }
}

/// Length of the default random payload token.
pub const TOKEN_SIZE: usize = 24;

/// Default timeout budget of an exchange: four seconds.
pub const DEFAULT_TIMEOUT_NS: u64 = 4000000000;

/// Default time-to-live / hop limit.
pub const DEFAULT_TTL: u32 = 64;

/// Default sequence number.
pub const DEFAULT_SEQ_CNT: u16 = 1;

/// The platform policy for the default socket kind: raw where only
/// privileged ICMP sockets exist, datagram where the platform offers
/// unprivileged ICMP sockets.
pub fn default_socket_type(raw_only: bool) -> (s: SocketType)
    ensures
        s == (if raw_only {
            SocketType::RAW
        } else {
            SocketType::DGRAM
        }),
{
    if raw_only {
        SocketType::RAW
    } else {
        SocketType::DGRAM
    }
}

/// Accumulates the optional parameters of one echo exchange before it
/// is finalized into an `Exchange`.
#[derive(Clone, Debug)]
pub struct Ping {
    pub socket_type: SocketType,
    pub addr: IpAddress,
    pub timeout_ns: Option<u64>,
    pub ttl: Option<u32>,
    pub ident: Option<u16>,
    pub seq_cnt: Option<u16>,
    pub payload: Option<Vec<u8>>,
}

/// The fully resolved configuration of one exchange: every optional
/// parameter replaced by its value or its default, and the request
/// fixed.
pub struct Exchange {
    pub socket_type: SocketType,
    pub addr: IpAddress,
    pub variant: ProtocolVariant,
    pub timeout_ns: u64,
    pub ttl: u32,
    pub request: EchoRequest,
}

/// The outcome of a successful exchange.
#[derive(Debug)]
pub struct PingResult {
    /// Time from send to the matching reply; never exceeds the
    /// configured timeout budget.
    pub elapsed_ns: u64,
    pub ident: u16,
    pub seq_cnt: u16,
    pub payload: Vec<u8>,
    pub target: IpAddress,
}

impl Ping {
    /// Starts a builder for `addr` with every parameter unset and the
    /// datagram socket kind; `socket_type` selects the raw kind where
    /// the platform offers no unprivileged ICMP sockets.
    pub fn new(addr: IpAddress) -> (p: Ping)
        ensures
            p == (Ping {
                socket_type: SocketType::DGRAM,
                addr,
                timeout_ns: None,
                ttl: None,
                ident: None,
                seq_cnt: None,
                payload: None,
            }),
    {
        Ping {
            socket_type: SocketType::DGRAM,
            addr,
            timeout_ns: None,
            ttl: None,
            ident: None,
            seq_cnt: None,
            payload: None,
        }
    }

    pub fn socket_type(&mut self, socket_type: SocketType) -> (r: &mut Ping)
        ensures
            *r == (Ping { socket_type, ..*old(self) }),
            *final(self) == *final(r),
    {
        self.socket_type = socket_type;
        self
    }

    pub fn timeout(&mut self, timeout_ns: u64) -> (r: &mut Ping)
        ensures
            *r == (Ping { timeout_ns: Some(timeout_ns), ..*old(self) }),
            *final(self) == *final(r),
    {
        self.timeout_ns = Some(timeout_ns);
        self
    }

    pub fn ttl(&mut self, ttl: u32) -> (r: &mut Ping)
        ensures
            *r == (Ping { ttl: Some(ttl), ..*old(self) }),
            *final(self) == *final(r),
    {
        self.ttl = Some(ttl);
        self
    }

    pub fn ident(&mut self, ident: u16) -> (r: &mut Ping)
        ensures
            *r == (Ping { ident: Some(ident), ..*old(self) }),
            *final(self) == *final(r),
    {
        self.ident = Some(ident);
        self
    }

    pub fn seq_cnt(&mut self, seq_cnt: u16) -> (r: &mut Ping)
        ensures
            *r == (Ping { seq_cnt: Some(seq_cnt), ..*old(self) }),
            *final(self) == *final(r),
    {
        self.seq_cnt = Some(seq_cnt);
        self
    }

    pub fn payload(&mut self, payload: Vec<u8>) -> (r: &mut Ping)
        ensures
            *r == (Ping { payload: Some(payload), ..*old(self) }),
            *final(self) == *final(r),
    {
        self.payload = Some(payload);
        self
    }

    /// Resolves the defaults: timeout four seconds, ttl 64, sequence
    /// number 1, and the given fallbacks where the caller chose no
    /// identifier or payload.
    pub fn finalize(&self, fallback_ident: u16, fallback_payload: Vec<u8>) -> (e: Exchange)
        ensures
            e.socket_type == self.socket_type,
            e.addr == self.addr,
            e.variant == self.addr.variant_spec(),
            e.timeout_ns == (match self.timeout_ns {
                Some(t) => t,
                None => DEFAULT_TIMEOUT_NS,
            }),
            e.ttl == (match self.ttl {
                Some(t) => t,
                None => DEFAULT_TTL,
            }),
            e.request.ident == (match self.ident {
                Some(i) => i,
                None => fallback_ident,
            }),
            e.request.seq_cnt == (match self.seq_cnt {
                Some(s) => s,
                None => DEFAULT_SEQ_CNT,
            }),
            e.request.payload@ == (match self.payload {
                Some(p) => p@,
                None => fallback_payload@,
            }),
    {
        let timeout_ns: u64 = match self.timeout_ns {
            Some(t) => t,
            None => DEFAULT_TIMEOUT_NS,
        };
        let ttl: u32 = match self.ttl {
            Some(t) => t,
            None => DEFAULT_TTL,
        };
        let ident: u16 = match self.ident {
            Some(i) => i,
            None => fallback_ident,
        };
        let seq_cnt: u16 = match self.seq_cnt {
            Some(s) => s,
            None => DEFAULT_SEQ_CNT,
        };
        let payload: Vec<u8> = match &self.payload {
            Some(p) => copy_bytes(p),
            None => fallback_payload,
        };
        Exchange {
            socket_type: self.socket_type,
            addr: self.addr,
            variant: self.addr.variant(),
            timeout_ns,
            ttl,
            request: EchoRequest { ident, seq_cnt, payload },
        }
    }

    /// Finalizes this builder, drawing a random identifier and a
    /// random fixed-length payload token for parameters left unset.
    /// Whatever the randomness source returns, the parameters the
    /// caller did choose are carried through unchanged.
    pub fn resolve(&self) -> (e: Exchange)
        ensures
            e.socket_type == self.socket_type,
            e.addr == self.addr,
            e.variant == self.addr.variant_spec(),
            e.timeout_ns == (match self.timeout_ns {
                Some(t) => t,
                None => DEFAULT_TIMEOUT_NS,
            }),
            e.ttl == (match self.ttl {
                Some(t) => t,
                None => DEFAULT_TTL,
            }),
            self.ident matches Some(i) ==> e.request.ident == i,
            e.request.seq_cnt == (match self.seq_cnt {
                Some(s) => s,
                None => DEFAULT_SEQ_CNT,
            }),
            self.payload matches Some(p) ==> e.request.payload@ == p@,
            self.payload is None ==> e.request.payload@.len() == TOKEN_SIZE,
    {
        let fallback_ident = random_ident();
        let fallback_payload = random_token();
        self.finalize(fallback_ident, fallback_payload)
    }
}

/// A copy of a byte vector.
fn copy_bytes(v: &Vec<u8>) -> (r: Vec<u8>)
    ensures
        r@ == v@,
{
    let mut r: Vec<u8> = Vec::new();
    let mut k: usize = 0;
    while k < v.len()
        invariant
            k <= v@.len(),
            r@ == v@.subrange(0, k as int),
        decreases v@.len() - k,
    {
        r.push(v[k]);
        k = k + 1;
    }
    proof {
        assert(r@ =~= v@);
    }
    r
}

/// A zero-filled vector of length `n`.
fn zero_vec(n: usize) -> (r: Vec<u8>)
    ensures
        r@.len() == n,
{
    let mut r: Vec<u8> = Vec::new();
    let mut k: usize = 0;
    while k < n
        invariant
            k <= n,
            r@.len() == k,
        decreases n - k,
    {
        r.push(0);
        k = k + 1;
    }
    r
}

/// Relies on rand::random: a uniformly random 16-bit identifier from
/// the thread-local generator. Nothing is promised of the value.
#[verifier::external_body]
fn random_ident() -> u16 {
    rand::random()
}

/// Relies on rand::random: a random payload token of TOKEN_SIZE
/// bytes. Only the length, which does not depend on the drawn values,
/// is promised.
#[verifier::external_body]
fn random_token() -> (r: Vec<u8>)
    ensures
        r@.len() == TOKEN_SIZE,
{
    rand::random::<[u8; TOKEN_SIZE]>().to_vec()
}

/// The verdict on one received ICMP payload, at the specification
/// level: an undecodable or type-mismatched buffer is unrelated
/// traffic and is skipped; a decoded reply matches only on the
/// request's identifier, and only within the timeout budget; once the
/// budget is exhausted the exchange fails with the synthesized
/// timeout error.
pub enum Verdict {
    Matched { ident: u16, seq_cnt: u16, payload: Seq<u8> },
    KeepWaiting,
    Failed(Error),
}

pub open spec fn timeout_error() -> Error {
    Error::IoError { kind: IoErrorKind::TimedOut }
}

pub open spec fn icmp_verdict(
    variant: ProtocolVariant,
    expected_ident: u16,
    bytes: Seq<u8>,
    elapsed_ns: u64,
    timeout_ns: u64,
) -> Verdict {
    match decoded(bytes, reply_type(variant)) {
        None => Verdict::KeepWaiting,
        Some(triple) => {
            if triple.0 == expected_ident && elapsed_ns <= timeout_ns {
                Verdict::Matched { ident: triple.0, seq_cnt: triple.1, payload: triple.2 }
            } else if elapsed_ns >= timeout_ns {
                Verdict::Failed(timeout_error())
            } else {
                Verdict::KeepWaiting
            }
        },
    }
}

/// The verdict on one received datagram: on a raw IPv4 socket the IP
/// header is stripped first; a malformed IPv4 header is fatal, while
/// non-ICMP traffic on the same socket is skipped.
pub open spec fn datagram_verdict(
    variant: ProtocolVariant,
    strip: bool,
    expected_ident: u16,
    buf: Seq<u8>,
    elapsed_ns: u64,
    timeout_ns: u64,
) -> Verdict {
    if strip {
        match ipv4_decoded(buf) {
            None => Verdict::Failed(Error::DecodeV4Error),
            Some(pr) => {
                if pr.0 != 1 {
                    Verdict::KeepWaiting
                } else {
                    icmp_verdict(variant, expected_ident, pr.1, elapsed_ns, timeout_ns)
                }
            },
        }
    } else {
        icmp_verdict(variant, expected_ident, buf, elapsed_ns, timeout_ns)
    }
}

/// What the exchange does with one received datagram.
#[derive(Debug)]
pub enum Outcome {
    /// A reply with the request's identifier arrived within budget.
    Matched(PingResult),
    /// Unrelated traffic; receive again with the shrunken budget.
    KeepWaiting,
    /// The exchange is over: a fatal decode error or the synthesized
    /// timeout error.
    Failed(Error),
}

impl Exchange {
    /// Whether received buffers begin with an IPv4 header that must be
    /// stripped: only raw IPv4 sockets deliver it.
    pub open spec fn strips_ipv4_header(self) -> bool {
        self.variant == ProtocolVariant::IcmpV4 && self.socket_type == SocketType::RAW
    }

    /// Builds the send buffer: exactly header plus payload, encoded
    /// for this exchange's variant with the checksum filled in.
    pub fn request_buffer(&self) -> (r: Result<Vec<u8>, Error>)
        requires
            self.request.payload@.len() + 8 <= usize::MAX,
        ensures
            r matches Ok(b) && b@ == encoded_message(
                request_type(self.variant),
                self.request.ident,
                self.request.seq_cnt,
                self.request.payload@,
            ),
    {
        let plen = self.request.payload.len();
        let mut buffer = zero_vec(8 + plen);
        let ghost buffer0 = buffer@;
        match self.request.encode(self.variant, &mut buffer) {
            Ok(_) => {
                proof {
                    assert(buffer0.skip(8 + plen as int) =~= Seq::<u8>::empty());
                }
                Ok(buffer)
            },
            Err(e) => Err(e),
        }
    }

    /// Computes the read-timeout for the next receive: the part of the
    /// timeout budget left after `elapsed_ns`. Once the budget is
    /// exhausted, the exchange ends with the synthesized timeout
    /// error.
    pub fn remaining_budget(&self, elapsed_ns: u64) -> (r: Result<u64, Error>)
        ensures
            elapsed_ns < self.timeout_ns ==> r == Ok::<u64, Error>(
                (self.timeout_ns - elapsed_ns) as u64,
            ),
            elapsed_ns >= self.timeout_ns ==> r == Err::<u64, Error>(timeout_error()),
    {
        if elapsed_ns < self.timeout_ns {
            Ok(self.timeout_ns - elapsed_ns)
        } else {
            Err(Error::IoError { kind: IoErrorKind::TimedOut })
        }
    }

    /// Processes one received datagram at `elapsed_ns` nanoseconds
    /// after the send, exactly as `datagram_verdict` describes. A
    /// matched result carries this exchange's target and an elapsed
    /// time within the timeout budget.
    pub fn on_datagram(&self, buffer: &[u8], elapsed_ns: u64) -> (o: Outcome)
        ensures
            ({
                let v = datagram_verdict(
                    self.variant,
                    self.strips_ipv4_header(),
                    self.request.ident,
                    buffer@,
                    elapsed_ns,
                    self.timeout_ns,
                );
                &&& (o matches Outcome::Matched(res) ==> v == (Verdict::Matched {
                    ident: res.ident,
                    seq_cnt: res.seq_cnt,
                    payload: res.payload@,
                }) && res.elapsed_ns == elapsed_ns && res.target == self.addr
                    && res.elapsed_ns <= self.timeout_ns && res.ident == self.request.ident)
                &&& (v matches Verdict::Matched { .. } ==> o is Matched)
                &&& (o is KeepWaiting <==> v is KeepWaiting)
                &&& (o matches Outcome::Failed(e) ==> v == Verdict::Failed(e))
                &&& (v matches Verdict::Failed(..) ==> o is Failed)
            }),
    {
        let strip = self.variant == ProtocolVariant::IcmpV4 && self.socket_type
            == SocketType::RAW;
        if strip {
            match IpV4Packet::decode(buffer) {
                Err(_) => Outcome::Failed(Error::DecodeV4Error),
                Ok(packet) => {
                    match packet.protocol {
                        IpProtocol::Icmp => self.icmp_outcome(packet.data.as_slice(), elapsed_ns),
                        IpProtocol::Other(_) => Outcome::KeepWaiting,
                    }
                },
            }
        } else {
            self.icmp_outcome(buffer, elapsed_ns)
        }
    }

    fn icmp_outcome(&self, bytes: &[u8], elapsed_ns: u64) -> (o: Outcome)
        ensures
            ({
                let v = icmp_verdict(
                    self.variant,
                    self.request.ident,
                    bytes@,
                    elapsed_ns,
                    self.timeout_ns,
                );
                &&& (o matches Outcome::Matched(res) ==> v == (Verdict::Matched {
                    ident: res.ident,
                    seq_cnt: res.seq_cnt,
                    payload: res.payload@,
                }) && res.elapsed_ns == elapsed_ns && res.target == self.addr
                    && res.elapsed_ns <= self.timeout_ns && res.ident == self.request.ident)
                &&& (v matches Verdict::Matched { .. } ==> o is Matched)
                &&& (o is KeepWaiting <==> v is KeepWaiting)
                &&& (o matches Outcome::Failed(e) ==> v == Verdict::Failed(e))
                &&& (v matches Verdict::Failed(..) ==> o is Failed)
            }),
    {
        match EchoReply::decode(bytes, self.variant) {
            Err(_) => Outcome::KeepWaiting,
            Ok(reply) => {
                if reply.ident == self.request.ident && elapsed_ns <= self.timeout_ns {
                    Outcome::Matched(
                        PingResult {
                            elapsed_ns,
                            ident: reply.ident,
                            seq_cnt: reply.seq_cnt,
                            payload: reply.payload,
                            target: self.addr,
                        },
                    )
                } else if elapsed_ns >= self.timeout_ns {
                    Outcome::Failed(Error::IoError { kind: IoErrorKind::TimedOut })
                } else {
                    Outcome::KeepWaiting
                }
            },
        }
    }
}

/// The exchange never reports an elapsed time beyond the budget: a
/// matched verdict is only reached while `elapsed_ns` is within
/// `timeout_ns`.
pub proof fn lemma_matched_within_budget(
    variant: ProtocolVariant,
    strip: bool,
    expected_ident: u16,
    buf: Seq<u8>,
    elapsed_ns: u64,
    timeout_ns: u64,
)
    ensures
        datagram_verdict(variant, strip, expected_ident, buf, elapsed_ns, timeout_ns)
            matches Verdict::Matched { .. } ==> elapsed_ns <= timeout_ns,
{
}

/// A decodable reply whose identifier differs from the request's is
/// discarded: the exchange keeps waiting while budget remains, and
/// fails with the synthesized timeout error once it is exhausted.
pub proof fn lemma_mismatched_ident_discarded(
    variant: ProtocolVariant,
    expected_ident: u16,
    bytes: Seq<u8>,
    elapsed_ns: u64,
    timeout_ns: u64,
)
    requires
        decoded(bytes, reply_type(variant)) matches Some(t) && t.0 != expected_ident,
    ensures
        elapsed_ns < timeout_ns ==> icmp_verdict(
            variant,
            expected_ident,
            bytes,
            elapsed_ns,
            timeout_ns,
        ) == Verdict::KeepWaiting,
        elapsed_ns >= timeout_ns ==> icmp_verdict(
            variant,
            expected_ident,
            bytes,
            elapsed_ns,
            timeout_ns,
        ) == Verdict::Failed(timeout_error()),
{
}

/// Starts a builder for `addr`.
pub fn new(addr: IpAddress) -> (p: Ping)
    ensures
        p == (Ping {
            socket_type: SocketType::DGRAM,
            addr,
            timeout_ns: None,
            ttl: None,
            ident: None,
            seq_cnt: None,
            payload: None,
        }),
{
    Ping::new(addr)
}

} // verus!
