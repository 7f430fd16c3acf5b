//! A verified core for a single ICMP echo ("ping") exchange.
//!
//! The library holds the protocol logic: the ones'-complement checksum,
//! the ICMP echo codec, the IPv4 header parser, the exchange state
//! machine that matches replies against a timeout budget, and the
//! request builder. Socket creation and the blocking send/receive
//! calls are left to the surrounding program, which feeds received
//! datagrams and elapsed times into the exchange functions here.

mod errors;
mod packet;
mod ping;

pub use crate::errors::Error;
pub use crate::errors::IoErrorKind;
pub use crate::packet::checksum::checksum;
pub use crate::packet::icmp::EchoReply;
pub use crate::packet::icmp::EchoRequest;
pub use crate::packet::icmp::HEADER_SIZE as ICMP_HEADER_SIZE;
pub use crate::packet::icmp::ProtocolVariant;
pub use crate::packet::ipv4::IpProtocol;
pub use crate::packet::ipv4::IpV4Packet;
pub use crate::ping::DEFAULT_SEQ_CNT;
pub use crate::ping::DEFAULT_TIMEOUT_NS;
pub use crate::ping::DEFAULT_TTL;
pub use crate::ping::Exchange;
pub use crate::ping::IpAddress;
pub use crate::ping::Outcome;
pub use crate::ping::Ping;
pub use crate::ping::PingResult;
pub use crate::ping::SocketType;
pub use crate::ping::SocketType::DGRAM;
pub use crate::ping::SocketType::RAW;
pub use crate::ping::TOKEN_SIZE;
pub use crate::ping::default_socket_type;
pub use crate::ping::new;
