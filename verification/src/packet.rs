pub mod checksum;
pub mod icmp;
pub mod ipv4;
